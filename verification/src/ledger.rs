use vstd::prelude::*;

use crate::amount::{parse_amount, spec_parse_amount};
use crate::checksum::luhn_valid;
use crate::digits::all_digits;
use crate::errors::LedgerError;
use crate::generator::{generate_account_number, generate_pin, ACCOUNT_NUMBER_LEN, PIN_LEN};
use crate::store::{is_next_id, AccountStore};
use crate::text::{str_eq_str, str_eq_string};

verus! {

/// The rows of the account table: account number to (id, pin, balance).
pub type Rows = Map<Seq<char>, (u64, Seq<char>, u64)>;

/// How many fresh candidates the account-number generator may try before the
/// engine reports exhaustion as a configuration fault.
pub const RETRY_CAP: usize = 1000;

/// One account row, as handed to callers. The PIN is revealed only by
/// `create_account`, the single moment the caller learns it.
///
/// The id is recomputed at each creation as the successor of the greatest
/// stored id, so ids never clash among live accounts; deleting the account
/// with the greatest id lets a later creation take that id again.
#[derive(Debug)]
pub struct Account {
    pub id: u64,
    pub account_number: String,
    pub balance: u64,
    pub pin: String,
}

/// The outcome a deposit owes the caller, given the store's rows: the typed
/// failure in order of precedence, or the refreshed balance.
pub open spec fn deposit_outcome(rows: Rows, number: Seq<char>, amount: Seq<char>, pin: Seq<
    char,
>) -> Result<u64, LedgerError> {
    if !rows.dom().contains(number) {
        Err(LedgerError::NotFound)
    } else if rows[number].1 != pin {
        Err(LedgerError::Unauthorized)
    } else if spec_parse_amount(amount) is None {
        Err(LedgerError::InvalidAmount)
    } else if rows[number].2 + spec_parse_amount(amount)->0 > i64::MAX {
        Err(LedgerError::InvalidAmount)
    } else {
        Ok((rows[number].2 + spec_parse_amount(amount)->0) as u64)
    }
}

/// The outcome a withdrawal owes the caller.
pub open spec fn withdraw_outcome(rows: Rows, number: Seq<char>, amount: Seq<char>, pin: Seq<
    char,
>) -> Result<u64, LedgerError> {
    if !rows.dom().contains(number) {
        Err(LedgerError::NotFound)
    } else if rows[number].1 != pin {
        Err(LedgerError::Unauthorized)
    } else if spec_parse_amount(amount) is None {
        Err(LedgerError::InvalidAmount)
    } else if spec_parse_amount(amount)->0 > rows[number].2 {
        Err(LedgerError::InsufficientFunds)
    } else {
        Ok((rows[number].2 - spec_parse_amount(amount)->0) as u64)
    }
}

/// The outcome a transfer owes the caller: the typed failure, or the pair of
/// refreshed balances (origin first).
pub open spec fn transfer_outcome(
    rows: Rows,
    origin: Seq<char>,
    target: Seq<char>,
    amount: Seq<char>,
    pin: Seq<char>,
) -> Result<(u64, u64), LedgerError> {
    if origin == target {
        Err(LedgerError::InvalidOperation)
    } else if !rows.dom().contains(origin) || !rows.dom().contains(target) {
        Err(LedgerError::NotFound)
    } else if rows[origin].1 != pin {
        Err(LedgerError::Unauthorized)
    } else if spec_parse_amount(amount) is None {
        Err(LedgerError::InvalidAmount)
    } else if spec_parse_amount(amount)->0 > rows[origin].2 {
        Err(LedgerError::InsufficientFunds)
    } else if rows[target].2 + spec_parse_amount(amount)->0 > i64::MAX {
        Err(LedgerError::InvalidAmount)
    } else {
        Ok(
            (
                (rows[origin].2 - spec_parse_amount(amount)->0) as u64,
                (rows[target].2 + spec_parse_amount(amount)->0) as u64,
            ),
        )
    }
}

/// The outcome a deletion owes the caller.
pub open spec fn delete_outcome(rows: Rows, number: Seq<char>, pin: Seq<char>) -> Result<
    (),
    LedgerError,
> {
    if !rows.dom().contains(number) {
        Err(LedgerError::NotFound)
    } else if rows[number].1 != pin {
        Err(LedgerError::Unauthorized)
    } else {
        Ok(())
    }
}

/// The outcome a balance query owes the caller.
pub open spec fn balance_outcome(rows: Rows, number: Seq<char>) -> Result<u64, LedgerError> {
    if !rows.dom().contains(number) {
        Err(LedgerError::NotFound)
    } else {
        Ok(rows[number].2)
    }
}

/// Creates an account: draws checksum-valid candidate numbers until one is
/// free, assigns the next id, a fresh six-digit PIN and a zero balance, and
/// stores the row. The returned account is the only place the PIN is
/// revealed.
pub fn create_account(store: &mut AccountStore) -> (r: Result<Account, LedgerError>)
    ensures
        r matches Ok(acct) ==> luhn_valid(acct.account_number@) && acct.account_number@.len()
            == ACCOUNT_NUMBER_LEN && !old(store)@.dom().contains(acct.account_number@),
        r matches Ok(acct) ==> acct.balance == 0 && acct.pin@.len() == PIN_LEN && all_digits(
            acct.pin@,
        ),
        r matches Ok(acct) ==> is_next_id(old(store)@, acct.id),
        r matches Ok(acct) ==> final(store)@ == old(store)@.insert(
            acct.account_number@,
            (acct.id, acct.pin@, 0u64),
        ),
        r matches Err(e) ==> final(store)@ == old(store)@ && (e == LedgerError::DuplicateKey || e
            == LedgerError::Storage),
        r matches Err(e) ==> (e == LedgerError::DuplicateKey ==> !old(store)@.dom().is_empty()),
{
    let mut tries: usize = 0;
    while tries < RETRY_CAP
        invariant
            store@ == old(store)@,
            tries > 0 ==> !old(store)@.dom().is_empty(),
        decreases RETRY_CAP - tries,
    {
        let number = generate_account_number();
        match store.fetch_row(number.as_str()) {
            Err(e) => {
                return Err(e);
            },
            Ok(Some(_)) => {
                // collision with a stored number: draw again
                proof {
                    assert(store@.dom().contains(number@));
                }
                tries = tries + 1;
            },
            Ok(None) => {
                let id = match store.next_id() {
                    Ok(n) => n,
                    Err(e) => {
                        return Err(e);
                    },
                };
                let pin = generate_pin();
                match store.insert_row(number.as_str(), id, pin.as_str(), 0) {
                    Ok(u) => {
                        return Ok(Account { id, account_number: number, balance: 0, pin });
                    },
                    Err(e) => {
                        return Err(e);
                    },
                }
            },
        }
    }
    Err(LedgerError::DuplicateKey)
}

impl Account {
    /// Creates an account against the given store; see `create_account`.
    pub fn new(store: &mut AccountStore) -> (r: Result<Account, LedgerError>)
        ensures
            r matches Ok(acct) ==> luhn_valid(acct.account_number@) && acct.account_number@.len()
                == ACCOUNT_NUMBER_LEN && !old(store)@.dom().contains(acct.account_number@),
            r matches Ok(acct) ==> acct.balance == 0 && acct.pin@.len() == PIN_LEN && all_digits(
                acct.pin@,
            ),
            r matches Ok(acct) ==> is_next_id(old(store)@, acct.id),
            r matches Ok(acct) ==> final(store)@ == old(store)@.insert(
                acct.account_number@,
                (acct.id, acct.pin@, 0u64),
            ),
            r matches Err(e) ==> final(store)@ == old(store)@ && (e == LedgerError::DuplicateKey
                || e == LedgerError::Storage),
    {
        create_account(store)
    }
}

/// Fetches the account with the given number.
pub fn fetch_account(store: &AccountStore, account: &str) -> (r: Result<Account, LedgerError>)
    ensures
        r matches Ok(acct) ==> store@.dom().contains(account@) && acct.account_number@ == account@
            && store@[account@] == (acct.id, acct.pin@, acct.balance),
        !store@.dom().contains(account@) ==> r == Err::<Account, LedgerError>(LedgerError::NotFound)
            || r == Err::<Account, LedgerError>(LedgerError::Storage),
        store@.dom().contains(account@) ==> r is Ok || r == Err::<Account, LedgerError>(
            LedgerError::Storage,
        ),
{
    match store.fetch_row(account) {
        Err(e) => Err(e),
        Ok(None) => Err(LedgerError::NotFound),
        Ok(Some(row)) => {
            let (id, pin, balance) = row;
            Ok(Account { id, account_number: account.to_owned(), balance, pin })
        },
    }
}

/// Deposits a parsed non-negative amount into the account, after the PIN is
/// checked against the stored one; returns the refreshed balance.
pub fn deposit(store: &mut AccountStore, amount: &str, pin: &str, account_number: &str) -> (r:
    Result<u64, LedgerError>)
    ensures
        r == deposit_outcome(old(store)@, account_number@, amount@, pin@) || r == Err::<
            u64,
            LedgerError,
        >(LedgerError::Storage),
        r matches Err(e) ==> final(store)@ == old(store)@,
        r matches Ok(b) ==> final(store)@ == old(store)@.insert(
            account_number@,
            (old(store)@[account_number@].0, old(store)@[account_number@].1, b),
        ),
{
    let row = match store.fetch_row(account_number) {
        Ok(v) => v,
        Err(e) => {
            return Err(e);
        },
    };
    let (_, stored_pin, balance) = match row {
        Some(t) => t,
        None => {
            return Err(LedgerError::NotFound);
        },
    };
    if !str_eq_string(pin, &stored_pin) {
        return Err(LedgerError::Unauthorized);
    }
    let a = match parse_amount(amount) {
        Some(a) => a,
        None => {
            return Err(LedgerError::InvalidAmount);
        },
    };
    if a > i64::MAX as u64 - balance {
        return Err(LedgerError::InvalidAmount);
    }
    let new_balance: u64 = balance + a;
    match store.set_balance(account_number, balance, new_balance) {
        Ok(n) => Ok(new_balance),
        Err(e) => Err(e),
    }
}

/// Withdraws a parsed non-negative amount from the account, after the PIN is
/// checked; fails rather than let the balance go negative; returns the
/// refreshed balance.
pub fn withdraw(store: &mut AccountStore, amount: &str, pin: &str, account_number: &str) -> (r:
    Result<u64, LedgerError>)
    ensures
        r == withdraw_outcome(old(store)@, account_number@, amount@, pin@) || r == Err::<
            u64,
            LedgerError,
        >(LedgerError::Storage),
        r matches Err(e) ==> final(store)@ == old(store)@,
        r matches Ok(b) ==> final(store)@ == old(store)@.insert(
            account_number@,
            (old(store)@[account_number@].0, old(store)@[account_number@].1, b),
        ),
{
    let row = match store.fetch_row(account_number) {
        Ok(v) => v,
        Err(e) => {
            return Err(e);
        },
    };
    let (_, stored_pin, balance) = match row {
        Some(t) => t,
        None => {
            return Err(LedgerError::NotFound);
        },
    };
    if !str_eq_string(pin, &stored_pin) {
        return Err(LedgerError::Unauthorized);
    }
    let a = match parse_amount(amount) {
        Some(a) => a,
        None => {
            return Err(LedgerError::InvalidAmount);
        },
    };
    if a > balance {
        return Err(LedgerError::InsufficientFunds);
    }
    let new_balance: u64 = balance - a;
    match store.set_balance(account_number, balance, new_balance) {
        Ok(n) => Ok(new_balance),
        Err(e) => Err(e),
    }
}

/// Moves an amount between two distinct accounts as one atomic unit, gated
/// by the origin's PIN; the sum of the two balances is conserved. Returns
/// both refreshed accounts, origin first. Both rows are read first and
/// rewritten in one transaction; nothing else is assumed to write the file
/// in between (see `AccountStore`).
pub fn transfer(
    store: &mut AccountStore,
    amount: &str,
    pin: &str,
    origin_account: &str,
    target_account: &str,
) -> (r: Result<(Account, Account), LedgerError>)
    ensures
        origin_account@ == target_account@ ==> r == Err::<(Account, Account), LedgerError>(
            LedgerError::InvalidOperation,
        ),
        (transfer_outcome(old(store)@, origin_account@, target_account@, amount@, pin@) matches Err(
            e,
        ) ==> r == Err::<(Account, Account), LedgerError>(e) || r == Err::<
            (Account, Account),
            LedgerError,
        >(LedgerError::Storage)),
        r matches Err(e) ==> (e != LedgerError::Storage ==> transfer_outcome(
            old(store)@,
            origin_account@,
            target_account@,
            amount@,
            pin@,
        ) == Err::<(u64, u64), LedgerError>(e)),
        r matches Err(e) ==> final(store)@ == old(store)@,
        r matches Ok(p) ==> ({
            let rows = old(store)@;
            let outcome = transfer_outcome(rows, origin_account@, target_account@, amount@, pin@);
            &&& outcome matches Ok(bals)
            &&& p.0.balance == outcome->Ok_0.0
            &&& p.1.balance == outcome->Ok_0.1
            &&& p.0.account_number@ == origin_account@
            &&& p.1.account_number@ == target_account@
            &&& p.0.id == rows[origin_account@].0
            &&& p.0.pin@ == rows[origin_account@].1
            &&& p.1.id == rows[target_account@].0
            &&& p.1.pin@ == rows[target_account@].1
            &&& p.0.balance + p.1.balance == rows[origin_account@].2 + rows[target_account@].2
            &&& final(store)@ == rows.insert(
                origin_account@,
                (rows[origin_account@].0, rows[origin_account@].1, p.0.balance),
            ).insert(target_account@, (rows[target_account@].0, rows[target_account@].1, p.1.balance))
        }),
{
    if str_eq_str(origin_account, target_account) {
        return Err(LedgerError::InvalidOperation);
    }
    let orow = match store.fetch_row(origin_account) {
        Ok(v) => v,
        Err(e) => {
            return Err(e);
        },
    };
    let (origin_id, origin_pin, origin_balance) = match orow {
        Some(t) => t,
        None => {
            return Err(LedgerError::NotFound);
        },
    };
    let trow = match store.fetch_row(target_account) {
        Ok(v) => v,
        Err(e) => {
            return Err(e);
        },
    };
    let (target_id, target_pin, target_balance) = match trow {
        Some(t) => t,
        None => {
            return Err(LedgerError::NotFound);
        },
    };
    if !str_eq_string(pin, &origin_pin) {
        return Err(LedgerError::Unauthorized);
    }
    let a = match parse_amount(amount) {
        Some(a) => a,
        None => {
            return Err(LedgerError::InvalidAmount);
        },
    };
    if a > origin_balance {
        return Err(LedgerError::InsufficientFunds);
    }
    if a > i64::MAX as u64 - target_balance {
        return Err(LedgerError::InvalidAmount);
    }
    let new_origin: u64 = origin_balance - a;
    let new_target: u64 = target_balance + a;
    match store.set_two_balances(origin_account, new_origin, target_account, new_target) {
        Ok(u) => Ok(
            (
                Account {
                    id: origin_id,
                    account_number: origin_account.to_owned(),
                    balance: new_origin,
                    pin: origin_pin,
                },
                Account {
                    id: target_id,
                    account_number: target_account.to_owned(),
                    balance: new_target,
                    pin: target_pin,
                },
            ),
        ),
        Err(e) => Err(e),
    }
}

/// Removes the account permanently, gated by its PIN. A non-zero balance is
/// discarded with the row; that is a policy choice, not an accident.
pub fn delete_account(store: &mut AccountStore, account_number: &str, pin: &str) -> (r: Result<
    (),
    LedgerError,
>)
    ensures
        r == delete_outcome(old(store)@, account_number@, pin@) || r == Err::<(), LedgerError>(
            LedgerError::Storage,
        ),
        r matches Err(e) ==> final(store)@ == old(store)@,
        r matches Ok(u) ==> final(store)@ == old(store)@.remove(account_number@),
{
    let row = match store.fetch_row(account_number) {
        Ok(v) => v,
        Err(e) => {
            return Err(e);
        },
    };
    let (_, stored_pin, _) = match row {
        Some(t) => t,
        None => {
            return Err(LedgerError::NotFound);
        },
    };
    if !str_eq_string(pin, &stored_pin) {
        return Err(LedgerError::Unauthorized);
    }
    match store.delete_row(account_number) {
        Ok(n) => Ok(()),
        Err(e) => Err(e),
    }
}

/// Looks up the balance of the account with the given number. Deliberately
/// unauthenticated and read-only.
pub fn show_balance(store: &AccountStore, account_number: &str) -> (r: Result<u64, LedgerError>)
    ensures
        r == balance_outcome(store@, account_number@) || r == Err::<u64, LedgerError>(
            LedgerError::Storage,
        ),
{
    match store.fetch_row(account_number) {
        Ok(Some(row)) => Ok(row.2),
        Ok(None) => Err(LedgerError::NotFound),
        Err(e) => Err(e),
    }
}

/// Uniqueness of creation: an account created against a store whose rows
/// already hold an earlier creation's number cannot carry that same number,
/// since creation only returns a number absent from the rows it started
/// from.
pub proof fn lemma_created_numbers_distinct(
    rows: Rows,
    first: Seq<char>,
    first_row: (u64, Seq<char>, u64),
    second: Seq<char>,
)
    requires
        !rows.insert(first, first_row).dom().contains(second),
    ensures
        first != second,
{
}

/// Conservation: rewriting two distinct rows with balances that move an
/// amount from one to the other leaves the sum of the two balances as it
/// was, and changes each balance by exactly that amount.
pub proof fn lemma_transfer_conserves(rows: Rows, origin: Seq<char>, target: Seq<char>, a: u64)
    requires
        origin != target,
        rows.dom().contains(origin),
        rows.dom().contains(target),
        a <= rows[origin].2,
        rows[target].2 + a <= u64::MAX,
    ensures
        ({
            let after = rows.insert(
                origin,
                (rows[origin].0, rows[origin].1, (rows[origin].2 - a) as u64),
            ).insert(target, (rows[target].0, rows[target].1, (rows[target].2 + a) as u64));
            &&& after[origin].2 + after[target].2 == rows[origin].2 + rows[target].2
            &&& after[origin].2 == rows[origin].2 - a
            &&& after[target].2 == rows[target].2 + a
        }),
{
}

/// Authorization gating: whenever the stored PIN differs from the supplied
/// one, the outcome owed by each single-account mutating operation is
/// `Unauthorized`; together with their contracts, which leave the store
/// unchanged on every failure, a call with a wrong PIN changes no balance.
pub proof fn lemma_wrong_pin_gates(rows: Rows, number: Seq<char>, amount: Seq<char>, pin: Seq<
    char,
>)
    requires
        rows.dom().contains(number),
        rows[number].1 != pin,
    ensures
        deposit_outcome(rows, number, amount, pin) == Err::<u64, LedgerError>(
            LedgerError::Unauthorized,
        ),
        withdraw_outcome(rows, number, amount, pin) == Err::<u64, LedgerError>(
            LedgerError::Unauthorized,
        ),
        delete_outcome(rows, number, pin) == Err::<(), LedgerError>(LedgerError::Unauthorized),
{
}

/// Authorization gating for transfers: a wrong origin PIN makes the owed
/// outcome `Unauthorized`, so a transfer with a wrong PIN moves nothing.
pub proof fn lemma_wrong_pin_gates_transfer(
    rows: Rows,
    origin: Seq<char>,
    target: Seq<char>,
    amount: Seq<char>,
    pin: Seq<char>,
)
    requires
        origin != target,
        rows.dom().contains(origin),
        rows.dom().contains(target),
        rows[origin].1 != pin,
    ensures
        transfer_outcome(rows, origin, target, amount, pin) == Err::<(u64, u64), LedgerError>(
            LedgerError::Unauthorized,
        ),
{
}

/// Non-negativity: balances are unsigned machine integers, so every row of
/// every store state carries a balance of at least zero.
pub proof fn lemma_balance_nonnegative(rows: Rows, number: Seq<char>)
    requires
        rows.dom().contains(number),
    ensures
        rows[number].2 >= 0,
{
}

} // verus!
