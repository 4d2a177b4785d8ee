//! In-memory stand-ins for the services the ledgers call. Each one keeps a
//! record of the calls it received, so that a caller can check what was
//! asked of it.
use vstd::prelude::*;
use crate::calls::Call;

verus! {

/// A swap router that records the amount of each swap it is asked for.
pub struct DummyRouter {
    pub swaps: Vec<i128>,
}

impl DummyRouter {
    /// A router with no swaps recorded.
    pub fn new() -> (r: Self)
        ensures
            r.swaps@ == Seq::<i128>::empty(),
    {
        DummyRouter { swaps: Vec::new() }
    }

    /// Records a swap of `amount_in`.
    pub fn swap_exact_tokens_for_tokens(
        &mut self,
        token_in: &str,
        amount_in: i128,
        token_out: &str,
        to: &str,
    )
        ensures
            final(self).swaps@ == old(self).swaps@.push(amount_in),
    {
        self.swaps.push(amount_in);
    }
}

/// A token that records each transfer it is asked for.
pub struct DummyToken {
    pub transfers: Vec<i128>,
}

impl DummyToken {
    /// A token with no transfers recorded.
    pub fn new() -> (r: Self)
        ensures
            r.transfers@ == Seq::<i128>::empty(),
    {
        DummyToken { transfers: Vec::new() }
    }

    /// Records a transfer of `amount`.
    pub fn transfer(&mut self, from: &str, to: &str, amount: i128)
        ensures
            final(self).transfers@ == old(self).transfers@.push(amount),
    {
        self.transfers.push(amount);
    }

    /// Accepts an allowance and records nothing.
    pub fn approve(&self, from: &str, spender: &str, amount: i128, expiration_ledger: u32) {
    }
}

/// A lending pool that records what is supplied to it and withdrawn from
/// it.
pub struct DummyComet {
    pub supplied: Vec<i128>,
    pub withdrawn: Vec<i128>,
}

impl DummyComet {
    /// A pool with nothing recorded.
    pub fn new() -> (r: Self)
        ensures
            r.supplied@ == Seq::<i128>::empty(),
            r.withdrawn@ == Seq::<i128>::empty(),
    {
        DummyComet { supplied: Vec::new(), withdrawn: Vec::new() }
    }

    /// Records a supply of `amount`.
    pub fn supply(&mut self, token: &str, amount: i128)
        ensures
            final(self).supplied@ == old(self).supplied@.push(amount),
            final(self).withdrawn@ == old(self).withdrawn@,
    {
        self.supplied.push(amount);
    }

    /// Records a withdrawal of `amount`.
    pub fn withdraw(&mut self, token: &str, amount: i128)
        ensures
            final(self).withdrawn@ == old(self).withdrawn@.push(amount),
            final(self).supplied@ == old(self).supplied@,
    {
        self.withdrawn.push(amount);
    }
}

/// The amount a call moves.
pub open spec fn call_amount(c: Call) -> i128 {
    match c {
        Call::Swap { amount_in, .. } => amount_in,
        Call::Supply { amount, .. } => amount,
        Call::Withdraw { amount, .. } => amount,
        Call::Transfer { amount, .. } => amount,
    }
}

/// Hands one call to the stand-in that serves it.
pub fn deliver(call: &Call, router: &mut DummyRouter, token: &mut DummyToken, comet: &mut DummyComet)
    ensures
        final(router).swaps@ == (if call is Swap {
            old(router).swaps@.push(call_amount(*call))
        } else {
            old(router).swaps@
        }),
        final(token).transfers@ == (if call is Transfer {
            old(token).transfers@.push(call_amount(*call))
        } else {
            old(token).transfers@
        }),
        final(comet).supplied@ == (if call is Supply {
            old(comet).supplied@.push(call_amount(*call))
        } else {
            old(comet).supplied@
        }),
        final(comet).withdrawn@ == (if call is Withdraw {
            old(comet).withdrawn@.push(call_amount(*call))
        } else {
            old(comet).withdrawn@
        }),
{
    match call {
        Call::Swap { token_in, amount_in, token_out, to, .. } => {
            router.swap_exact_tokens_for_tokens(token_in.as_str(), *amount_in, token_out.as_str(), to.as_str());
        },
        Call::Supply { token: t, amount, .. } => {
            comet.supply(t.as_str(), *amount);
        },
        Call::Withdraw { token: t, amount, .. } => {
            comet.withdraw(t.as_str(), *amount);
        },
        Call::Transfer { from, to, amount, .. } => {
            token.transfer(from.as_str(), to.as_str(), *amount);
        },
    }
}

} // verus!
