//! The ways in which a ledger call can be refused.
use vstd::prelude::*;

verus! {

/// Why a ledger call was refused. A refused call leaves the ledger as it was
/// and asks for no outside call.
#[derive(Clone, Copy, Debug, PartialEq, Eq, Structural)]
pub enum LedgerError {
    /// The ledger has not been set up with `init`.
    NotInitialized,
    /// A tranche holds less than the call needs.
    InsufficientBalance,
    /// The borrower has no active loan.
    NoActiveLoan,
    /// The borrower has no loan request.
    NoLoanRequest,
    /// The loan request was approved before.
    AlreadyApproved,
    /// The investor has nothing invested.
    NothingToRedeem,
    /// An amount would leave the range of the amount type.
    Overflow,
}

} // verus!
