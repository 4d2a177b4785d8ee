//! Properties of the ledgers that relate several calls, proved from the
//! state relations that the entry points establish.
use vstd::prelude::*;
use crate::amounts::{percent_of, origination_spec};
use crate::error::LedgerError;
use crate::fund::{FundState, invest_fits, invested, donated, redeemed, redeem_refusal, redeem_payment};
use crate::payment::{
    PaymentContract, accepted, installment_recorded, paid_off, accept_refusal, payoff_refusal,
    amount_due, loan_after,
};

verus! {

/// Two successful deposits by the same investor add up in that investor's principal,
/// and leave every other investor's principal as it was.
pub proof fn lemma_invest_accumulates(
    s0: &FundState,
    s1: &FundState,
    s2: &FundState,
    investor: Seq<char>,
    other: Seq<char>,
    a1: int,
    a2: int,
)
    requires
        invest_fits(s0, investor, a1),
        invested(s0, s1, investor, a1),
        invest_fits(s1, investor, a2),
        invested(s1, s2, investor, a2),
        other != investor,
    ensures
        s2.share_spec(investor) == s0.share_spec(investor) + a1 + a2,
        s2.share_spec(other) == s0.share_spec(other),
{
}

/// Successful deposits by two different investors each land in their own entry only.
pub proof fn lemma_invest_independent(
    s0: &FundState,
    s1: &FundState,
    s2: &FundState,
    first: Seq<char>,
    second: Seq<char>,
    a1: int,
    a2: int,
)
    requires
        invest_fits(s0, first, a1),
        invested(s0, s1, first, a1),
        invest_fits(s1, second, a2),
        invested(s1, s2, second, a2),
        first != second,
    ensures
        s2.share_spec(first) == s0.share_spec(first) + a1,
        s2.share_spec(second) == s0.share_spec(second) + a2,
{
}

/// A donation grows the reserve by its amount, leaves every principal as
/// it was, and gives a donor who had no entry none.
pub proof fn lemma_donation_not_a_share(s0: &FundState, s1: &FundState, donor: Seq<char>, amount: int)
    requires
        donated(s0, s1, amount),
    ensures
        s1.total_fund == s0.total_fund + amount,
        s1.shares@ == s0.shares@,
        !s0.shares@.contains_key(donor) ==> !s1.shares@.contains_key(donor),
{
}

/// A redemption by an investor with no principal is always refused.
pub proof fn lemma_redeem_nothing_refused(s: &FundState, investor: Seq<char>, stake_yield: int)
    requires
        s.share_spec(investor) == 0,
    ensures
        redeem_refusal(s, investor, stake_yield) == Some(LedgerError::NothingToRedeem),
{
}

/// A redemption whose payment exceeds the senior total is always refused.
pub proof fn lemma_redeem_beyond_senior_refused(s: &FundState, investor: Seq<char>, stake_yield: int)
    requires
        s.total_senior < s.share_spec(investor) + stake_yield,
    ensures
        redeem_refusal(s, investor, stake_yield) is Some,
{
}

/// After a redemption the investor's principal is zero and the senior
/// total has dropped by exactly principal plus yield.
pub proof fn lemma_redeem_settles(s0: &FundState, s1: &FundState, investor: Seq<char>, stake_yield: int)
    requires
        redeemed(s0, s1, investor, stake_yield),
    ensures
        s1.share_spec(investor) == 0,
        s1.total_senior == s0.total_senior - (s0.share_spec(investor) + stake_yield),
        s1.total_senior == s0.total_senior - redeem_payment(s0, investor, stake_yield),
{
}

/// The principal of a granted loan is the discounted amount plus the fee
/// on it: `(A - A*10/100) + (A - A*10/100)*F/100`, divisions rounding
/// toward zero.
pub proof fn lemma_principal_formula(
    c0: &PaymentContract,
    c1: &PaymentContract,
    farmer: Seq<char>,
    term_in_months: u32,
    now: u64,
)
    requires
        accept_refusal(c0, farmer) is None,
        accepted(c0, c1, farmer, term_in_months, now),
    ensures
        ({
            let a = c0.requests@[farmer].amount as int;
            let f = c0.requests@[farmer].loan_fee as int;
            let d = a - percent_of(a, 10);
            c1.loans@[farmer].principal == d + percent_of(d, f)
        }),
{
}

/// Once a request has been approved, approving it again is refused.
pub proof fn lemma_accept_twice_refused(
    c0: &PaymentContract,
    c1: &PaymentContract,
    farmer: Seq<char>,
    term_in_months: u32,
    now: u64,
)
    requires
        accept_refusal(c0, farmer) is None,
        accepted(c0, c1, farmer, term_in_months, now),
    ensures
        accept_refusal(c1, farmer) == Some(LedgerError::AlreadyApproved),
{
}

/// Paying off a loan on which nothing has been paid collects exactly its
/// principal; a freshly granted loan can always be paid off.
pub proof fn lemma_fresh_payoff_is_principal(
    c0: &PaymentContract,
    c1: &PaymentContract,
    farmer: Seq<char>,
    term_in_months: u32,
    now: u64,
)
    requires
        accept_refusal(c0, farmer) is None,
        accepted(c0, c1, farmer, term_in_months, now),
    ensures
        payoff_refusal(c1, farmer) is None,
        amount_due(c1.loans@[farmer]) == c1.loans@[farmer].principal,
        c1.loans@[farmer].principal == origination_spec(
            c0.requests@[farmer].amount as int,
            c0.requests@[farmer].loan_fee as int,
        ).principal,
{
}

/// Paying off a loan that does not exist is always refused.
pub proof fn lemma_payoff_without_loan_refused(c: &PaymentContract, farmer: Seq<char>)
    requires
        !c.loans@.contains_key(farmer),
    ensures
        payoff_refusal(c, farmer) == Some(LedgerError::NoActiveLoan),
{
}

/// An installment that completes the principal removes the loan, so the
/// borrower has no loan to look up afterwards.
pub proof fn lemma_full_payment_removes_loan(
    c0: &PaymentContract,
    c1: &PaymentContract,
    farmer: Seq<char>,
    amount: int,
)
    requires
        installment_recorded(c0, c1, farmer, amount),
        loan_after(c0.loans@[farmer], amount).paid_principal >= loan_after(
            c0.loans@[farmer],
            amount,
        ).principal,
    ensures
        !c1.loans@.contains_key(farmer),
{
}

/// After a payoff the borrower has no loan to look up.
pub proof fn lemma_payoff_removes_loan(c0: &PaymentContract, c1: &PaymentContract, farmer: Seq<char>)
    requires
        paid_off(c0, c1, farmer),
    ensures
        !c1.loans@.contains_key(farmer),
{
}

} // verus!
