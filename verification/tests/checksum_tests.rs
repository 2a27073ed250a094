use bank_ledger::amount::parse_amount;
use bank_ledger::checksum::{checksum_digit, is_valid};

#[test]
fn luhn_accepts_classic_number() {
    assert!(is_valid("79927398713"));
}

#[test]
fn luhn_rejects_wrong_check_digit() {
    assert!(!is_valid("79927398714"));
}

#[test]
fn luhn_rejects_empty_and_non_digits() {
    assert!(!is_valid(""));
    assert!(!is_valid("7992x398713"));
}

#[test]
fn checksum_digit_computes_classic_check() {
    let payload: Vec<char> = "7992739871".chars().collect();
    assert_eq!(checksum_digit(&payload), '3');
}

#[test]
fn checksum_digit_makes_valid_numbers() {
    let mut digits: Vec<char> = "123456789012345".chars().collect();
    let check = checksum_digit(&digits);
    digits.push(check);
    let number: String = digits.into_iter().collect();
    assert!(is_valid(&number));
}

#[test]
fn parse_amount_reads_decimal() {
    assert_eq!(parse_amount("0"), Some(0));
    assert_eq!(parse_amount("10000"), Some(10000));
    assert_eq!(parse_amount("007"), Some(7));
    assert_eq!(parse_amount("18446744073709551615"), Some(u64::MAX));
}

#[test]
fn parse_amount_rejects_bad_input() {
    assert_eq!(parse_amount(""), None);
    assert_eq!(parse_amount("12a"), None);
    assert_eq!(parse_amount("+5"), None);
    assert_eq!(parse_amount("-5"), None);
    assert_eq!(parse_amount("18446744073709551616"), None);
}
