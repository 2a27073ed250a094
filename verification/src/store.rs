use vstd::prelude::*;

use crate::errors::LedgerError;
use rusqlite::OptionalExtension;

verus! {

/// Declares rusqlite's connection type so that it can stand in fields and
/// signatures; its values are opaque to verification.
#[verifier::external_type_specification]
#[verifier::external_body]
pub struct ExConnection(rusqlite::Connection);

/// The rows of the account table behind a connection: a map from account
/// number to (id, pin, balance).
pub uninterp spec fn db_rows(c: rusqlite::Connection) -> Map<Seq<char>, (u64, Seq<char>, u64)>;

/// The table with no rows at all.
pub open spec fn empty_rows() -> Map<Seq<char>, (u64, Seq<char>, u64)> {
    Map::empty()
}

/// `n` is the successor of the greatest stored id: 1 on an empty table,
/// otherwise one more than some stored id, and in every case strictly
/// greater than all of them.
pub open spec fn is_next_id(rows: Map<Seq<char>, (u64, Seq<char>, u64)>, n: u64) -> bool {
    &&& 1 <= n
    &&& (forall|k: Seq<char>| rows.dom().contains(k) ==> (#[trigger] rows[k]).0 < n)
    &&& (rows.dom().is_empty() ==> n == 1)
    &&& (!rows.dom().is_empty() ==> exists|k: Seq<char>|
        #[trigger] rows.dom().contains(k) && rows[k].0 + 1 == n)
}

/// The durable row store of accounts, keyed by account number. All access
/// goes through parameterized statements; caller data never reaches a query
/// text. Each store assumes exclusive access to its database: two stores
/// opened on one file are not detected, and a write through one invalidates
/// what the other has read.
pub struct AccountStore {
    conn: rusqlite::Connection,
}

impl View for AccountStore {
    type V = Map<Seq<char>, (u64, Seq<char>, u64)>;

    closed spec fn view(&self) -> Map<Seq<char>, (u64, Seq<char>, u64)> {
        db_rows(self.conn)
    }
}

/// Relies on rusqlite's `Connection::open_in_memory`: a fresh, private
/// in-memory database holds no rows.
#[verifier::external_body]
fn open_memory_conn() -> (r: Result<rusqlite::Connection, LedgerError>)
    ensures
        r matches Ok(c) ==> db_rows(c) == empty_rows(),
        r matches Err(e) ==> e == LedgerError::Storage,
{
    match rusqlite::Connection::open_in_memory() {
        Ok(c) => Ok(c),
        Err(_) => Err(LedgerError::Storage),
    }
}

/// Relies on rusqlite's `Connection::open`: it opens (creating it if absent)
/// the database file at the given path. Nothing is known of the rows it
/// holds.
#[verifier::external_body]
fn open_path_conn(path: &str) -> (r: Result<rusqlite::Connection, LedgerError>)
    ensures
        r matches Err(e) ==> e == LedgerError::Storage,
{
    match rusqlite::Connection::open(path) {
        Ok(c) => Ok(c),
        Err(_) => Err(LedgerError::Storage),
    }
}

impl AccountStore {
    /// Relies on rusqlite's `Connection::execute` running CREATE TABLE IF
    /// NOT EXISTS: it adds no rows to the account table.
    #[verifier::external_body]
    fn create_table(&mut self) -> (r: Result<(), LedgerError>)
        ensures
            db_rows(final(self).conn) == db_rows(old(self).conn),
            r matches Err(e) ==> e == LedgerError::Storage,
    {
        let command = "CREATE TABLE IF NOT EXISTS account(
id INTEGER PRIMARY KEY,
account_number TEXT NOT NULL UNIQUE,
pin TEXT NOT NULL DEFAULT '000000',
balance INTEGER NOT NULL DEFAULT 0
)";
        match self.conn.execute(command, ()) {
            Ok(_) => Ok(()),
            Err(_) => Err(LedgerError::Storage),
        }
    }

    /// Relies on rusqlite's `Connection::query_row` with a parameterized
    /// lookup: it yields the single row whose account_number equals the
    /// argument, or none. Balances and ids are stored as SQLite integers and
    /// read back as `u64`, which fails outside 0..=i64::MAX, so fetched
    /// values lie in that range.
    #[verifier::external_body]
    pub(crate) fn fetch_row(&self, number: &str) -> (r: Result<Option<(u64, String, u64)>, LedgerError>)
        ensures
            r matches Ok(row) ==> (row matches Some(row) ==> self@.dom().contains(number@)
                && self@[number@] == (row.0, row.1@, row.2) && row.0 <= i64::MAX as u64 && row.2
                <= i64::MAX as u64),
            r matches Ok(row) ==> (row is None ==> !self@.dom().contains(number@)),
            r matches Err(e) ==> e == LedgerError::Storage,
    {
        let q = self.conn.query_row(
            "SELECT id, pin, balance FROM account WHERE account_number = ?1",
            (number,),
            |row| Ok((row.get(0)?, row.get(1)?, row.get(2)?)),
        );
        match q.optional() {
            Ok(v) => Ok(v),
            Err(_) => Err(LedgerError::Storage),
        }
    }

    /// Relies on rusqlite's `Connection::execute` running a parameterized
    /// INSERT, with account_number UNIQUE and id the primary key: on success
    /// the row is added and neither the number nor the id was present; on
    /// any failure the single statement changes nothing.
    #[verifier::external_body]
    pub(crate) fn insert_row(&mut self, number: &str, id: u64, pin: &str, balance: u64) -> (r: Result<
        (),
        LedgerError,
    >)
        requires
            id <= i64::MAX as u64,
            balance <= i64::MAX as u64,
        ensures
            r matches Ok(u) ==> !old(self)@.dom().contains(number@),
            r matches Ok(u) ==> (forall|k: Seq<char>|
                old(self)@.dom().contains(k) ==> (#[trigger] old(self)@[k]).0 != id),
            r matches Ok(u) ==> final(self)@ == old(self)@.insert(number@, (id, pin@, balance)),
            r matches Err(e) ==> final(self)@ == old(self)@ && e == LedgerError::Storage,
    {
        let q = self.conn.execute(
            "INSERT INTO account (id, account_number, pin, balance) VALUES (?1, ?2, ?3, ?4)",
            (id, number, pin, balance),
        );
        match q {
            Ok(_) => Ok(()),
            Err(_) => Err(LedgerError::Storage),
        }
    }

    /// Relies on rusqlite's `Connection::execute` running a parameterized
    /// UPDATE guarded by the expected current balance: it changes exactly
    /// the row whose number and balance both match and reports how many
    /// rows matched, so a writer on the same file between the read and this
    /// write cannot be silently overwritten; on failure the single
    /// statement changes nothing.
    #[verifier::external_body]
    pub(crate) fn set_balance(&mut self, number: &str, expected: u64, balance: u64) -> (r: Result<
        usize,
        LedgerError,
    >)
        requires
            expected <= i64::MAX as u64,
            balance <= i64::MAX as u64,
        ensures
            r matches Ok(n) ==> (old(self)@.dom().contains(number@) && old(self)@[number@].2
                == expected ==> n == 1 && final(self)@ == old(self)@.insert(
                number@,
                (old(self)@[number@].0, old(self)@[number@].1, balance),
            )),
            r matches Ok(n) ==> (!(old(self)@.dom().contains(number@) && old(self)@[number@].2
                == expected) ==> n == 0 && final(self)@ == old(self)@),
            r matches Err(e) ==> final(self)@ == old(self)@ && e == LedgerError::Storage,
    {
        let q = self.conn.execute(
            "UPDATE account SET balance = ?1 WHERE account_number = ?2 AND balance = ?3",
            (balance, number, expected),
        );
        match q {
            Ok(n) => Ok(n),
            Err(_) => Err(LedgerError::Storage),
        }
    }

    /// Relies on rusqlite's `Connection::transaction`: the two parameterized
    /// UPDATE statements take effect together on commit, and a transaction
    /// dropped before commit rolls back, so on failure nothing changes.
    #[verifier::external_body]
    pub(crate) fn set_two_balances(
        &mut self,
        number_a: &str,
        balance_a: u64,
        number_b: &str,
        balance_b: u64,
    ) -> (r: Result<(), LedgerError>)
        requires
            number_a@ != number_b@,
            old(self)@.dom().contains(number_a@),
            old(self)@.dom().contains(number_b@),
            balance_a <= i64::MAX as u64,
            balance_b <= i64::MAX as u64,
        ensures
            r matches Ok(u) ==> final(self)@ == old(self)@.insert(
                number_a@,
                (old(self)@[number_a@].0, old(self)@[number_a@].1, balance_a),
            ).insert(number_b@, (old(self)@[number_b@].0, old(self)@[number_b@].1, balance_b)),
            r matches Err(e) ==> final(self)@ == old(self)@ && e == LedgerError::Storage,
    {
        let tx = match self.conn.transaction() {
            Ok(t) => t,
            Err(_) => return Err(LedgerError::Storage),
        };
        let sql = "UPDATE account SET balance = ?1 WHERE account_number = ?2";
        if tx.execute(sql, (balance_a, number_a)).is_err() {
            return Err(LedgerError::Storage);
        }
        if tx.execute(sql, (balance_b, number_b)).is_err() {
            return Err(LedgerError::Storage);
        }
        match tx.commit() {
            Ok(u) => Ok(u),
            Err(_) => Err(LedgerError::Storage),
        }
    }

    /// Relies on rusqlite's `Connection::execute` running a parameterized
    /// DELETE of one row: it removes exactly the matching row and reports
    /// how many rows matched; on failure the single statement changes
    /// nothing.
    #[verifier::external_body]
    pub(crate) fn delete_row(&mut self, number: &str) -> (r: Result<usize, LedgerError>)
        ensures
            r matches Ok(n) ==> (old(self)@.dom().contains(number@) ==> n == 1 && final(self)@
                == old(self)@.remove(number@)),
            r matches Ok(n) ==> (!old(self)@.dom().contains(number@) ==> n == 0 && final(self)@
                == old(self)@),
            r matches Err(e) ==> final(self)@ == old(self)@ && e == LedgerError::Storage,
    {
        let q = self.conn.execute("DELETE FROM account WHERE account_number = ?1", (number,));
        match q {
            Ok(n) => Ok(n),
            Err(_) => Err(LedgerError::Storage),
        }
    }

    /// Relies on rusqlite's `Connection::query_row` computing
    /// COALESCE(MAX(id), 0) + 1: the answer is 1 on an empty table and the
    /// successor of the greatest stored id otherwise; reading it back as
    /// `u64` fails outside 0..=i64::MAX, so an answer lies in 1..=i64::MAX.
    #[verifier::external_body]
    pub(crate) fn next_id(&self) -> (r: Result<u64, LedgerError>)
        ensures
            r matches Ok(n) ==> n <= i64::MAX as u64 && is_next_id(self@, n),
            r matches Err(e) ==> e == LedgerError::Storage,
    {
        let q = self.conn.query_row(
            "SELECT COALESCE(MAX(id), 0) + 1 FROM account",
            (),
            |row| row.get(0),
        );
        match q {
            Ok(n) => Ok(n),
            Err(_) => Err(LedgerError::Storage),
        }
    }

    /// Opens a fresh, private in-memory store holding no accounts.
    pub fn open_in_memory() -> (r: Result<AccountStore, LedgerError>)
        ensures
            r matches Ok(s) ==> s@ == empty_rows(),
            r matches Err(e) ==> e == LedgerError::Storage,
    {
        let conn = match open_memory_conn() {
            Ok(c) => c,
            Err(e) => {
                return Err(e);
            },
        };
        let mut store = AccountStore { conn };
        match store.create_table() {
            Ok(u) => Ok(store),
            Err(e) => Err(e),
        }
    }

    /// Returns whether an account with the given number is stored.
    pub fn has_account(&self, number: &str) -> (r: Result<bool, LedgerError>)
        ensures
            r matches Ok(b) ==> b == self@.dom().contains(number@),
            r matches Err(e) ==> e == LedgerError::Storage,
    {
        match self.fetch_row(number) {
            Ok(Some(_)) => Ok(true),
            Ok(None) => Ok(false),
            Err(e) => Err(e),
        }
    }
}

/// Opens (creating it if absent) the durable account database at the given
/// path and makes sure the account table exists. Nothing is known of the
/// rows an existing file already holds, and an existing table's schema is
/// not checked: the store's guarantees assume the schema this crate
/// creates (unique account numbers, id as the primary key) and a single
/// store per file.
pub fn initialise_bankdb(path: &str) -> (r: Result<AccountStore, LedgerError>)
    ensures
        r matches Err(e) ==> e == LedgerError::Storage,
{
    let conn = match open_path_conn(path) {
        Ok(c) => c,
        Err(e) => {
            return Err(e);
        },
    };
    let mut store = AccountStore { conn };
    match store.create_table() {
        Ok(u) => Ok(store),
        Err(e) => Err(e),
    }
}

} // verus!
