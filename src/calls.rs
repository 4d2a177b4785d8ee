//! Calls into collaborating services that a ledger transition asks the host
//! to issue once the new state is stored.
use vstd::prelude::*;

verus! {

/// One call into a collaborating service. Identities are the services'
/// and accounts' addresses in text form.
#[derive(Clone, Debug, PartialEq, Eq)]
pub enum Call {
    /// Swap `amount_in` units of `token_in` for `token_out`, paid to `to`.
    Swap { router: String, token_in: String, amount_in: i128, token_out: String, to: String },
    /// Supply `amount` units of `token` to the lending pool.
    Supply { pool: String, token: String, amount: i128 },
    /// Withdraw `amount` units of `token` from the lending pool.
    Withdraw { pool: String, token: String, amount: i128 },
    /// Move `amount` units of `token` from `from` to `to`.
    Transfer { token: String, from: String, to: String, amount: i128 },
}

} // verus!
