use bank_ledger::checksum::is_valid;
use bank_ledger::errors::LedgerError;
use bank_ledger::ledger::{
    create_account, delete_account, deposit, fetch_account, show_balance, transfer, withdraw,
    Account,
};
use bank_ledger::store::AccountStore;

/// A six-digit PIN that differs from the given one.
fn wrong_pin(pin: &str) -> String {
    if pin == "000000" {
        "000001".to_string()
    } else {
        "000000".to_string()
    }
}

#[test]
fn created_account_is_correct_fetched_from_db() -> Result<(), LedgerError> {
    let mut store = AccountStore::open_in_memory()?;
    let acc1 = Account::new(&mut store)?;
    let acc2 = fetch_account(&store, &acc1.account_number)?;

    assert_eq!(acc1.id, acc2.id);

    Ok(())
}

#[test]
fn transferred_balance_is_correct() -> Result<(), LedgerError> {
    let mut store = AccountStore::open_in_memory()?;
    let origin_account = Account::new(&mut store)?;
    let target_account = Account::new(&mut store)?;
    let deposit_balance = "10000";

    deposit(
        &mut store,
        deposit_balance,
        &origin_account.pin,
        &origin_account.account_number,
    )?;

    let origin_account = fetch_account(&store, &origin_account.account_number)?;
    assert_eq!(*deposit_balance, origin_account.balance.to_string());

    transfer(
        &mut store,
        deposit_balance,
        &origin_account.pin,
        &origin_account.account_number,
        &target_account.account_number,
    )?;

    let origin_account = fetch_account(&store, &origin_account.account_number)?;
    let target_account = fetch_account(&store, &target_account.account_number)?;

    assert_eq!("0".to_string(), origin_account.balance.to_string());
    assert_eq!(deposit_balance.to_owned(), target_account.balance.to_string());

    Ok(())
}

#[test]
fn deposit_with_pin_sets_balance() {
    let mut store = AccountStore::open_in_memory().unwrap();
    let acct = create_account(&mut store).unwrap();
    let b = deposit(&mut store, "10000", &acct.pin, &acct.account_number).unwrap();
    assert_eq!(b, 10000);
    assert_eq!(show_balance(&store, &acct.account_number).unwrap(), 10000);
}

#[test]
fn transfer_whole_balance_moves_it() {
    let mut store = AccountStore::open_in_memory().unwrap();
    let x = create_account(&mut store).unwrap();
    let y = create_account(&mut store).unwrap();
    deposit(&mut store, "10000", &x.pin, &x.account_number).unwrap();
    let (nx, ny) = transfer(&mut store, "10000", &x.pin, &x.account_number, &y.account_number)
        .unwrap();
    assert_eq!(nx.balance, 0);
    assert_eq!(ny.balance, 10000);
    assert_eq!(show_balance(&store, &x.account_number).unwrap(), 0);
    assert_eq!(show_balance(&store, &y.account_number).unwrap(), 10000);
}

#[test]
fn self_transfer_is_rejected() {
    let mut store = AccountStore::open_in_memory().unwrap();
    let x = create_account(&mut store).unwrap();
    let r = transfer(&mut store, "1", &x.pin, &x.account_number, &x.account_number);
    assert_eq!(r.unwrap_err(), LedgerError::InvalidOperation);
    assert_eq!(show_balance(&store, &x.account_number).unwrap(), 0);
}

#[test]
fn withdraw_from_zero_balance_is_rejected() {
    let mut store = AccountStore::open_in_memory().unwrap();
    let x = create_account(&mut store).unwrap();
    let r = withdraw(&mut store, "100", &x.pin, &x.account_number);
    assert_eq!(r.unwrap_err(), LedgerError::InsufficientFunds);
    assert_eq!(show_balance(&store, &x.account_number).unwrap(), 0);
}

#[test]
fn deposit_with_wrong_pin_is_rejected() {
    let mut store = AccountStore::open_in_memory().unwrap();
    let x = create_account(&mut store).unwrap();
    let bad = wrong_pin(&x.pin);
    let r = deposit(&mut store, "10000", &bad, &x.account_number);
    assert_eq!(r.unwrap_err(), LedgerError::Unauthorized);
    assert_eq!(show_balance(&store, &x.account_number).unwrap(), 0);
}

#[test]
fn generated_numbers_are_checksum_valid() {
    let mut store = AccountStore::open_in_memory().unwrap();
    for _ in 0..5 {
        let acct = create_account(&mut store).unwrap();
        assert!(is_valid(&acct.account_number));
        assert_eq!(acct.account_number.len(), 16);
    }
}

#[test]
fn created_accounts_have_distinct_numbers() {
    let mut store = AccountStore::open_in_memory().unwrap();
    let mut numbers: Vec<String> = Vec::new();
    for _ in 0..5 {
        let acct = create_account(&mut store).unwrap();
        assert!(!numbers.contains(&acct.account_number));
        numbers.push(acct.account_number);
    }
}

#[test]
fn created_accounts_have_increasing_ids() {
    let mut store = AccountStore::open_in_memory().unwrap();
    let a = create_account(&mut store).unwrap();
    let b = create_account(&mut store).unwrap();
    assert!(a.id >= 1);
    assert!(b.id > a.id);
}

#[test]
fn pin_has_six_digits() {
    let mut store = AccountStore::open_in_memory().unwrap();
    let x = create_account(&mut store).unwrap();
    assert_eq!(x.pin.len(), 6);
    assert!(x.pin.chars().all(|c| c.is_ascii_digit()));
}

#[test]
fn deposit_to_unknown_account_not_found() {
    let mut store = AccountStore::open_in_memory().unwrap();
    let r = deposit(&mut store, "100", "123456", "79927398713");
    assert_eq!(r.unwrap_err(), LedgerError::NotFound);
}

#[test]
fn show_balance_of_unknown_account_not_found() {
    let store = AccountStore::open_in_memory().unwrap();
    let r = show_balance(&store, "79927398713");
    assert_eq!(r.unwrap_err(), LedgerError::NotFound);
}

#[test]
fn deposit_of_unparsable_amount_rejected() {
    let mut store = AccountStore::open_in_memory().unwrap();
    let x = create_account(&mut store).unwrap();
    let r = deposit(&mut store, "12x4", &x.pin, &x.account_number);
    assert_eq!(r.unwrap_err(), LedgerError::InvalidAmount);
    assert_eq!(show_balance(&store, &x.account_number).unwrap(), 0);
}

#[test]
fn withdraw_reduces_balance() {
    let mut store = AccountStore::open_in_memory().unwrap();
    let x = create_account(&mut store).unwrap();
    deposit(&mut store, "500", &x.pin, &x.account_number).unwrap();
    let b = withdraw(&mut store, "200", &x.pin, &x.account_number).unwrap();
    assert_eq!(b, 300);
    assert_eq!(show_balance(&store, &x.account_number).unwrap(), 300);
}

#[test]
fn transfer_conserves_total() {
    let mut store = AccountStore::open_in_memory().unwrap();
    let x = create_account(&mut store).unwrap();
    let y = create_account(&mut store).unwrap();
    deposit(&mut store, "700", &x.pin, &x.account_number).unwrap();
    deposit(&mut store, "300", &y.pin, &y.account_number).unwrap();
    let (nx, ny) = transfer(&mut store, "250", &x.pin, &x.account_number, &y.account_number)
        .unwrap();
    assert_eq!(nx.balance, 450);
    assert_eq!(ny.balance, 550);
    assert_eq!(nx.balance + ny.balance, 1000);
}

#[test]
fn transfer_with_wrong_pin_is_rejected() {
    let mut store = AccountStore::open_in_memory().unwrap();
    let x = create_account(&mut store).unwrap();
    let y = create_account(&mut store).unwrap();
    deposit(&mut store, "100", &x.pin, &x.account_number).unwrap();
    let bad = wrong_pin(&x.pin);
    let r = transfer(&mut store, "50", &bad, &x.account_number, &y.account_number);
    assert_eq!(r.unwrap_err(), LedgerError::Unauthorized);
    assert_eq!(show_balance(&store, &x.account_number).unwrap(), 100);
    assert_eq!(show_balance(&store, &y.account_number).unwrap(), 0);
}

#[test]
fn delete_account_removes_row() {
    let mut store = AccountStore::open_in_memory().unwrap();
    let x = create_account(&mut store).unwrap();
    delete_account(&mut store, &x.account_number, &x.pin).unwrap();
    let r = fetch_account(&store, &x.account_number);
    assert_eq!(r.unwrap_err(), LedgerError::NotFound);
}

#[test]
fn delete_with_wrong_pin_is_rejected() {
    let mut store = AccountStore::open_in_memory().unwrap();
    let x = create_account(&mut store).unwrap();
    let bad = wrong_pin(&x.pin);
    let r = delete_account(&mut store, &x.account_number, &bad);
    assert_eq!(r.unwrap_err(), LedgerError::Unauthorized);
    assert!(fetch_account(&store, &x.account_number).is_ok());
}

#[test]
fn has_account_tracks_creation_and_deletion() {
    let mut store = AccountStore::open_in_memory().unwrap();
    assert!(!store.has_account("79927398713").unwrap());
    let x = create_account(&mut store).unwrap();
    assert!(store.has_account(&x.account_number).unwrap());
    delete_account(&mut store, &x.account_number, &x.pin).unwrap();
    assert!(!store.has_account(&x.account_number).unwrap());
}

#[test]
fn first_account_gets_id_one() {
    let mut store = AccountStore::open_in_memory().unwrap();
    let x = create_account(&mut store).unwrap();
    assert_eq!(x.id, 1);
    let y = create_account(&mut store).unwrap();
    assert_eq!(y.id, 2);
}

#[test]
fn deleting_the_highest_id_lets_it_be_reassigned() {
    let mut store = AccountStore::open_in_memory().unwrap();
    let x = create_account(&mut store).unwrap();
    assert_eq!(x.id, 1);
    delete_account(&mut store, &x.account_number, &x.pin).unwrap();
    let y = create_account(&mut store).unwrap();
    assert_eq!(y.id, 1);
}
