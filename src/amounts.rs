//! Fixed-percentage arithmetic shared by the fund and the loan ledger.
use vstd::prelude::*;

verus! {

/// Share of a deposit that goes to the senior tranche, in percent.
pub const SENIOR_PERCENT: i128 = 82;

/// Share of a deposit that goes to the subordinated tranche, in percent.
pub const SUBORDINATED_PERCENT: i128 = 15;

/// Share of a deposit that goes to the reserve, in percent.
pub const RESERVE_PERCENT: i128 = 3;

/// Discount taken off a requested loan amount at origination, in percent.
pub const DISCOUNT_PERCENT: i128 = 10;

/// Smallest and largest values of the ledger's amount type.
pub open spec fn fits(x: int) -> bool {
    i128::MIN <= x <= i128::MAX
}

/// Integer division rounding toward zero, as machine division does.
pub open spec fn tdiv(a: int, d: int) -> int {
    if a >= 0 {
        a / d
    } else {
        -((-a) / d)
    }
}

/// `a * p / 100` with the division rounding toward zero.
pub open spec fn percent_of(a: int, p: int) -> int {
    tdiv(a * p, 100)
}

/// The three parts of a deposit.
#[derive(Clone, Copy, Debug, PartialEq, Eq, Structural)]
pub struct Split {
    pub senior: i128,
    pub subordinated: i128,
    pub reserve: i128,
}

/// Whether `a * p` can be computed in the amount type.
pub open spec fn product_fits(a: int, p: int) -> bool {
    fits(a * p)
}

/// Computes `a * p / 100`, or `None` when `a * p` does not fit.
pub fn checked_percent(a: i128, p: i128) -> (r: Option<i128>)
    ensures
        r == (if product_fits(a as int, p as int) {
            Some(percent_of(a as int, p as int) as i128)
        } else {
            None::<i128>
        }),
{
    let prod = a.checked_mul(p);
    match prod {
        Some(x) => {
            let q = x / 100;
            assert(q as int == tdiv(x as int, 100));
            Some(q)
        },
        None => None,
    }
}

/// The waterfall split of a deposit, when `amount * 82` fits.
pub open spec fn split_spec(amount: int) -> Split
    recommends
        product_fits(amount, SENIOR_PERCENT as int),
{
    Split {
        senior: percent_of(amount, SENIOR_PERCENT as int) as i128,
        subordinated: percent_of(amount, SUBORDINATED_PERCENT as int) as i128,
        reserve: percent_of(amount, RESERVE_PERCENT as int) as i128,
    }
}

proof fn lemma_smaller_factor_fits(a: int, p: int, q: int)
    requires
        fits(a * p),
        0 <= q <= p,
    ensures
        fits(a * q),
{
    if a >= 0 {
        assert(0 <= a * q <= a * p) by (nonlinear_arith)
            requires a >= 0, 0 <= q <= p;
    } else {
        assert(a * p <= a * q <= 0) by (nonlinear_arith)
            requires a < 0, 0 <= q <= p;
    }
}

/// Splits a deposit into senior, subordinated and reserve parts by 82, 15
/// and 3 percent, each rounded toward zero. `None` when `amount * 82` does
/// not fit in the amount type.
pub fn split(amount: i128) -> (r: Option<Split>)
    ensures
        r == (if product_fits(amount as int, SENIOR_PERCENT as int) {
            Some(split_spec(amount as int))
        } else {
            None::<Split>
        }),
{
    let senior = checked_percent(amount, SENIOR_PERCENT);
    match senior {
        None => None,
        Some(senior) => {
            proof {
                lemma_smaller_factor_fits(amount as int, 82, 15);
                lemma_smaller_factor_fits(amount as int, 82, 3);
            }
            let subordinated = checked_percent(amount, SUBORDINATED_PERCENT).unwrap();
            let reserve = checked_percent(amount, RESERVE_PERCENT).unwrap();
            Some(Split { senior, subordinated, reserve })
        },
    }
}

/// For a non-negative deposit the three parts add up to the deposit less a
/// rounding remainder of at most two units.
pub proof fn lemma_split_sum(amount: int)
    requires
        amount >= 0,
    ensures
        percent_of(amount, 82) >= 0,
        percent_of(amount, 15) >= 0,
        percent_of(amount, 3) >= 0,
        amount - 2 <= percent_of(amount, 82) + percent_of(amount, 15) + percent_of(amount, 3) <= amount,
{
    let s = (amount * 82) / 100;
    let b = (amount * 15) / 100;
    let c = (amount * 3) / 100;
    assert(0 <= amount * 82 && 0 <= amount * 15 && 0 <= amount * 3) by (nonlinear_arith)
        requires amount >= 0;
    vstd::arithmetic::div_mod::lemma_fundamental_div_mod(amount * 82, 100);
    vstd::arithmetic::div_mod::lemma_fundamental_div_mod(amount * 15, 100);
    vstd::arithmetic::div_mod::lemma_fundamental_div_mod(amount * 3, 100);
    vstd::arithmetic::div_mod::lemma_mod_bound(amount * 82, 100);
    vstd::arithmetic::div_mod::lemma_mod_bound(amount * 15, 100);
    vstd::arithmetic::div_mod::lemma_mod_bound(amount * 3, 100);
    assert(s >= 0 && b >= 0 && c >= 0) by {
        vstd::arithmetic::div_mod::lemma_div_pos_is_pos(amount * 82, 100);
        vstd::arithmetic::div_mod::lemma_div_pos_is_pos(amount * 15, 100);
        vstd::arithmetic::div_mod::lemma_div_pos_is_pos(amount * 3, 100);
    }
    assert(amount * 82 + amount * 15 + amount * 3 == amount * 100) by (nonlinear_arith);
}

/// The amounts fixed when a loan is granted: the discount taken off the
/// requested amount, what is paid out, and the principal owed, which adds
/// the origination fee on top of what is paid out.
#[derive(Clone, Copy, Debug, PartialEq, Eq, Structural)]
pub struct Origination {
    pub discount: i128,
    pub disbursed: i128,
    pub principal: i128,
}

/// The amount paid out on a request for `amount`.
pub open spec fn disbursed_of(amount: int) -> int {
    amount - percent_of(amount, DISCOUNT_PERCENT as int)
}

/// Whether every step of the origination arithmetic stays in range.
pub open spec fn origination_fits(amount: int, loan_fee: int) -> bool {
    &&& product_fits(amount, DISCOUNT_PERCENT as int)
    &&& fits(disbursed_of(amount))
    &&& product_fits(disbursed_of(amount), loan_fee)
    &&& fits(disbursed_of(amount) + percent_of(disbursed_of(amount), loan_fee))
}

/// The origination amounts of a request for `amount` with fee `loan_fee`
/// percent.
pub open spec fn origination_spec(amount: int, loan_fee: int) -> Origination {
    Origination {
        discount: percent_of(amount, DISCOUNT_PERCENT as int) as i128,
        disbursed: disbursed_of(amount) as i128,
        principal: (disbursed_of(amount) + percent_of(disbursed_of(amount), loan_fee)) as i128,
    }
}

/// Computes the origination amounts: a 10 percent discount off `amount`,
/// and a principal of what is paid out plus `loan_fee` percent of it, each
/// division rounding toward zero. `None` when a step leaves the range.
pub fn originate(amount: i128, loan_fee: i128) -> (r: Option<Origination>)
    ensures
        r == (if origination_fits(amount as int, loan_fee as int) {
            Some(origination_spec(amount as int, loan_fee as int))
        } else {
            None::<Origination>
        }),
{
    let discount = match checked_percent(amount, DISCOUNT_PERCENT) {
        Some(v) => v,
        None => return None,
    };
    let disbursed = match amount.checked_sub(discount) {
        Some(v) => v,
        None => return None,
    };
    let fee = match checked_percent(disbursed, loan_fee) {
        Some(v) => v,
        None => return None,
    };
    let principal = match disbursed.checked_add(fee) {
        Some(v) => v,
        None => return None,
    };
    Some(Origination { discount, disbursed, principal })
}

} // verus!
