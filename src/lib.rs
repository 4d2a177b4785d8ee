//! Accounting core of a tranched capital fund and a collateral-free loan
//! engine.
//!
//! Both ledgers are plain state machines: each entry point checks its
//! preconditions, updates the ledger, and hands back the calls into
//! collaborating services (token, swap router, lending pool) that the host
//! must issue afterwards.

pub mod amounts;
pub mod calls;
pub mod collaborators;
pub mod error;
pub mod fund;
pub mod payment;
pub mod laws;
