use vstd::prelude::*;

verus! {

/// The typed failures of the ledger. Every operation reports its failure as
/// a value; no failure is signalled by printing.
#[derive(Clone, Copy, Debug, PartialEq, Eq, Structural)]
pub enum LedgerError {
    /// No account with the given number exists.
    NotFound,
    /// The PIN does not match; the operation changed nothing.
    Unauthorized,
    /// The amount would drive a balance below zero.
    InsufficientFunds,
    /// A transfer from an account to itself.
    InvalidOperation,
    /// The amount does not parse as a non-negative integer, or the resulting
    /// balance would not fit the stored integer range.
    InvalidAmount,
    /// The account-number generator exhausted its retry budget.
    DuplicateKey,
    /// The row store itself failed; the ledger is unchanged.
    Storage,
}

} // verus!
