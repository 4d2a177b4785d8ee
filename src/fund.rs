//! The tranched fund: deposits split by the waterfall, a per-investor
//! ledger of outstanding principal, donations to the reserve, and
//! redemption out of the senior tranche.
use vstd::prelude::*;
use vstd::hash_map::StringHashMap;
use crate::amounts::{
    fits, percent_of, split, split_spec, product_fits, SENIOR_PERCENT, SUBORDINATED_PERCENT,
    RESERVE_PERCENT,
};
use crate::calls::Call;
use crate::error::LedgerError;

verus! {

/// Addresses of the services the fund calls.
pub struct ContractAddresses {
    pub soroswap_router: String,
    pub blend_comet: String,
    pub usdc_token: String,
    pub xlm_token: String,
}

impl ContractAddresses {
    /// A field-by-field copy.
    pub fn copy(&self) -> (r: Self)
        ensures
            r == *self,
    {
        ContractAddresses {
            soroswap_router: self.soroswap_router.clone(),
            blend_comet: self.blend_comet.clone(),
            usdc_token: self.usdc_token.clone(),
            xlm_token: self.xlm_token.clone(),
        }
    }
}

/// The fund's ledger. `shares` maps an investor to the principal that the
/// investor has paid in and not yet redeemed; the three totals are the
/// tranche accumulators.
pub struct FundState {
    pub shares: StringHashMap<i128>,
    pub total_senior: i128,
    pub total_subordinated: i128,
    pub total_fund: i128,
}

impl FundState {
    /// The investor's outstanding principal, zero when absent.
    pub open spec fn share_spec(&self, investor: Seq<char>) -> int {
        if self.shares@.contains_key(investor) {
            self.shares@[investor] as int
        } else {
            0
        }
    }

    /// A ledger with the given totals and no investors.
    pub fn new(total_senior: i128, total_subordinated: i128, total_fund: i128) -> (r: Self)
        ensures
            r.shares@ == Map::<Seq<char>, i128>::empty(),
            r.total_senior == total_senior,
            r.total_subordinated == total_subordinated,
            r.total_fund == total_fund,
    {
        FundState { shares: StringHashMap::new(), total_senior, total_subordinated, total_fund }
    }

    /// Sets the investor's outstanding principal; the totals stay.
    pub fn set_share(&mut self, investor: String, amount: i128)
        ensures
            final(self).shares@ == old(self).shares@.insert(investor@, amount),
            final(self).total_senior == old(self).total_senior,
            final(self).total_subordinated == old(self).total_subordinated,
            final(self).total_fund == old(self).total_fund,
    {
        self.shares.insert(investor, amount);
    }

    /// The investor's outstanding principal, zero when absent.
    pub fn share_of(&self, investor: &str) -> (r: i128)
        ensures
            r == self.share_spec(investor@),
    {
        match self.shares.get(investor) {
            Some(v) => *v,
            None => 0,
        }
    }

    /// Whether the investor has an entry in the ledger.
    pub fn has_share(&self, investor: &str) -> (r: bool)
        ensures
            r == self.shares@.contains_key(investor@),
    {
        self.shares.contains_key(investor)
    }

    /// The number of investors with an entry in the ledger.
    pub fn investor_count(&self) -> (r: usize)
        ensures
            r == self.shares@.len(),
    {
        self.shares.len()
    }
}

/// Whether an investment of `amount` by `investor` keeps every
/// accumulator in range.
pub open spec fn invest_fits(s: &FundState, investor: Seq<char>, amount: int) -> bool {
    &&& product_fits(amount, SENIOR_PERCENT as int)
    &&& fits(s.total_senior + percent_of(amount, SENIOR_PERCENT as int))
    &&& fits(s.total_subordinated + percent_of(amount, SUBORDINATED_PERCENT as int))
    &&& fits(s.total_fund + percent_of(amount, RESERVE_PERCENT as int))
    &&& fits(s.share_spec(investor) + amount)
}

/// What a redemption pays: the investor's principal plus the yield.
pub open spec fn redeem_payment(s: &FundState, investor: Seq<char>, stake_yield: int) -> int {
    s.share_spec(investor) + stake_yield
}

/// `t` is `s` after a deposit of `amount` by `investor`: each tranche total
/// grows by its waterfall part and the investor's principal by the whole
/// amount.
pub open spec fn invested(s: &FundState, t: &FundState, investor: Seq<char>, amount: int) -> bool {
    let parts = split_spec(amount);
    &&& t.total_senior == s.total_senior + parts.senior
    &&& t.total_subordinated == s.total_subordinated + parts.subordinated
    &&& t.total_fund == s.total_fund + parts.reserve
    &&& t.shares@ == s.shares@.insert(investor, (s.share_spec(investor) + amount) as i128)
}

/// `t` is `s` after a donation of `amount`: only the reserve total grows.
pub open spec fn donated(s: &FundState, t: &FundState, amount: int) -> bool {
    &&& t.total_fund == s.total_fund + amount
    &&& t.total_senior == s.total_senior
    &&& t.total_subordinated == s.total_subordinated
    &&& t.shares@ == s.shares@
}

/// `t` is `s` after `investor` redeemed with `stake_yield`: the payment
/// leaves the senior total and the investor's principal drops to zero.
pub open spec fn redeemed(s: &FundState, t: &FundState, investor: Seq<char>, stake_yield: int) -> bool {
    &&& t.total_senior == s.total_senior - redeem_payment(s, investor, stake_yield)
    &&& t.total_subordinated == s.total_subordinated
    &&& t.total_fund == s.total_fund
    &&& t.shares@ == s.shares@.insert(investor, 0)
}

/// Why a redemption is refused, if it is: nothing invested, a payment out
/// of range, too little in the senior tranche, or a senior total that would
/// leave the range.
pub open spec fn redeem_refusal(s: &FundState, investor: Seq<char>, stake_yield: int) -> Option<
    LedgerError,
> {
    let payment = redeem_payment(s, investor, stake_yield);
    if s.share_spec(investor) == 0 {
        Some(LedgerError::NothingToRedeem)
    } else if !fits(payment) {
        Some(LedgerError::Overflow)
    } else if s.total_senior < payment {
        Some(LedgerError::InsufficientBalance)
    } else if !fits(s.total_senior - payment) {
        Some(LedgerError::Overflow)
    } else {
        None
    }
}

/// A fund instance: its own address, the collaborators' addresses and the
/// ledger, the last two set by `init`.
pub struct FundContract {
    pub contract: String,
    pub addresses: Option<ContractAddresses>,
    pub state: Option<FundState>,
}

impl FundContract {
    /// Whether `init` has run.
    pub open spec fn ready(&self) -> bool {
        self.addresses is Some && self.state is Some
    }

    /// A fund at `contract` that has not been set up yet.
    pub fn new(contract: String) -> (r: Self)
        ensures
            r.contract == contract,
            r.addresses is None,
            r.state is None,
    {
        FundContract { contract, addresses: None, state: None }
    }

    /// Records the collaborators' addresses and starts an empty ledger,
    /// replacing any earlier one.
    pub fn init(&mut self, router: String, comet: String, usdc: String, xlm: String)
        ensures
            final(self).contract == old(self).contract,
            final(self).addresses == Some(
                ContractAddresses {
                    soroswap_router: router,
                    blend_comet: comet,
                    usdc_token: usdc,
                    xlm_token: xlm,
                },
            ),
            final(self).state matches Some(s) && s.shares@ == Map::<Seq<char>, i128>::empty()
                && s.total_senior == 0 && s.total_subordinated == 0 && s.total_fund == 0,
    {
        self.addresses = Some(
            ContractAddresses {
                soroswap_router: router,
                blend_comet: comet,
                usdc_token: usdc,
                xlm_token: xlm,
            },
        );
        self.state = Some(
            FundState {
                shares: StringHashMap::new(),
                total_senior: 0,
                total_subordinated: 0,
                total_fund: 0,
            },
        );
    }

    /// The ledger as it stands.
    pub fn get_state(&self) -> (r: Result<&FundState, LedgerError>)
        ensures
            self.ready() ==> r == Ok::<&FundState, LedgerError>(&self.state.unwrap()),
            !self.ready() ==> r == Err::<&FundState, LedgerError>(LedgerError::NotInitialized),
    {
        if self.addresses.is_none() {
            return Err(LedgerError::NotInitialized);
        }
        match &self.state {
            Some(s) => Ok(s),
            None => Err(LedgerError::NotInitialized),
        }
    }

    /// Takes in a deposit: the waterfall parts go to the three tranche
    /// totals and the whole amount to the investor's principal. Asks for a
    /// swap of the senior part of the principal token into the alternate
    /// token, paid to the investor, then for a supply of the subordinated
    /// part of the alternate token to the pool.
    pub fn invest(&mut self, investor: String, amount_usdc: i128) -> (r: Result<
        Vec<Call>,
        LedgerError,
    >)
        ensures
            !old(self).ready() ==> r == Err::<Vec<Call>, LedgerError>(LedgerError::NotInitialized),
            old(self).ready() && !invest_fits(&old(self).state.unwrap(), investor@, amount_usdc as int)
                ==> r == Err::<Vec<Call>, LedgerError>(LedgerError::Overflow),
            r is Err ==> *final(self) == *old(self),
            old(self).ready() && invest_fits(&old(self).state.unwrap(), investor@, amount_usdc as int)
                ==> ({
                let a = old(self).addresses.unwrap();
                let parts = split_spec(amount_usdc as int);
                &&& r is Ok
                &&& final(self).state is Some
                &&& final(self).contract == old(self).contract
                &&& final(self).addresses == old(self).addresses
                &&& invested(
                    &old(self).state.unwrap(),
                    &final(self).state.unwrap(),
                    investor@,
                    amount_usdc as int,
                )
                &&& r.unwrap()@ == seq![
                    Call::Swap {
                        router: a.soroswap_router,
                        token_in: a.usdc_token,
                        amount_in: parts.senior,
                        token_out: a.xlm_token,
                        to: investor,
                    },
                    Call::Supply {
                        pool: a.blend_comet,
                        token: a.xlm_token,
                        amount: parts.subordinated,
                    },
                ]
            }),
    {
        if self.addresses.is_none() || self.state.is_none() {
            return Err(LedgerError::NotInitialized);
        }
        let st = self.state.as_ref().unwrap();
        let invested = st.share_of(investor.as_str());
        let parts = match split(amount_usdc) {
            Some(p) => p,
            None => return Err(LedgerError::Overflow),
        };
        let senior = match st.total_senior.checked_add(parts.senior) {
            Some(v) => v,
            None => return Err(LedgerError::Overflow),
        };
        let subordinated = match st.total_subordinated.checked_add(parts.subordinated) {
            Some(v) => v,
            None => return Err(LedgerError::Overflow),
        };
        let reserve = match st.total_fund.checked_add(parts.reserve) {
            Some(v) => v,
            None => return Err(LedgerError::Overflow),
        };
        let share = match invested.checked_add(amount_usdc) {
            Some(v) => v,
            None => return Err(LedgerError::Overflow),
        };
        let addrs = self.addresses.as_ref().unwrap().copy();
        let mut st = self.state.take().unwrap();
        st.total_senior = senior;
        st.total_subordinated = subordinated;
        st.total_fund = reserve;
        st.shares.insert(investor.clone(), share);
        self.state = Some(st);
        let mut calls: Vec<Call> = Vec::new();
        calls.push(
            Call::Swap {
                router: addrs.soroswap_router,
                token_in: addrs.usdc_token,
                amount_in: parts.senior,
                token_out: addrs.xlm_token.clone(),
                to: investor,
            },
        );
        calls.push(
            Call::Supply { pool: addrs.blend_comet, token: addrs.xlm_token, amount: parts.subordinated },
        );
        Ok(calls)
    }

    /// Adds a donation to the reserve total; no investor's principal
    /// changes. Asks for a transfer of the amount in the principal token from
    /// the donor to the fund.
    pub fn donate(&mut self, donor: String, amount_usdc: i128) -> (r: Result<Vec<Call>, LedgerError>)
        ensures
            !old(self).ready() ==> r == Err::<Vec<Call>, LedgerError>(LedgerError::NotInitialized),
            old(self).ready() && !fits(old(self).state.unwrap().total_fund + amount_usdc)
                ==> r == Err::<Vec<Call>, LedgerError>(LedgerError::Overflow),
            r is Err ==> *final(self) == *old(self),
            old(self).ready() && fits(old(self).state.unwrap().total_fund + amount_usdc) ==> ({
                let a = old(self).addresses.unwrap();
                &&& r is Ok
                &&& final(self).state is Some
                &&& final(self).contract == old(self).contract
                &&& final(self).addresses == old(self).addresses
                &&& donated(&old(self).state.unwrap(), &final(self).state.unwrap(), amount_usdc as int)
                &&& r.unwrap()@ == seq![
                    Call::Transfer {
                        token: a.usdc_token,
                        from: donor,
                        to: old(self).contract,
                        amount: amount_usdc,
                    },
                ]
            }),
    {
        if self.addresses.is_none() || self.state.is_none() {
            return Err(LedgerError::NotInitialized);
        }
        let reserve = match self.state.as_ref().unwrap().total_fund.checked_add(amount_usdc) {
            Some(v) => v,
            None => return Err(LedgerError::Overflow),
        };
        let token = self.addresses.as_ref().unwrap().usdc_token.clone();
        let mut st = self.state.take().unwrap();
        st.total_fund = reserve;
        self.state = Some(st);
        let mut calls: Vec<Call> = Vec::new();
        calls.push(
            Call::Transfer { token, from: donor, to: self.contract.clone(), amount: amount_usdc },
        );
        Ok(calls)
    }

    /// Checks that the subordinated total covers `amount` and asks for a
    /// withdrawal of `amount` of the alternate token from the pool. The
    /// ledger itself is left as it is.
    pub fn unstake_subordinated(&self, amount: i128, recipient: String) -> (r: Result<
        Vec<Call>,
        LedgerError,
    >)
        ensures
            !self.ready() ==> r == Err::<Vec<Call>, LedgerError>(LedgerError::NotInitialized),
            self.ready() && self.state.unwrap().total_subordinated < amount
                ==> r == Err::<Vec<Call>, LedgerError>(LedgerError::InsufficientBalance),
            self.ready() && self.state.unwrap().total_subordinated >= amount ==> ({
                let a = self.addresses.unwrap();
                r matches Ok(calls) && calls@ == seq![
                    Call::Withdraw { pool: a.blend_comet, token: a.xlm_token, amount },
                ]
            }),
    {
        if self.addresses.is_none() || self.state.is_none() {
            return Err(LedgerError::NotInitialized);
        }
        if self.state.as_ref().unwrap().total_subordinated < amount {
            return Err(LedgerError::InsufficientBalance);
        }
        let addrs = self.addresses.as_ref().unwrap();
        let mut calls: Vec<Call> = Vec::new();
        calls.push(
            Call::Withdraw { pool: addrs.blend_comet.clone(), token: addrs.xlm_token.clone(), amount },
        );
        Ok(calls)
    }

    /// Pays out the investor's principal plus `stake_yield` from the senior
    /// tranche and sets the investor's principal to zero (the entry stays).
    /// Asks for a transfer of the payment in the principal token from the
    /// fund to the investor.
    pub fn redeem_investment(&mut self, investor: String, stake_yield: i128) -> (r: Result<
        Vec<Call>,
        LedgerError,
    >)
        ensures
            !old(self).ready() ==> r == Err::<Vec<Call>, LedgerError>(LedgerError::NotInitialized),
            old(self).ready() ==> match redeem_refusal(
                &old(self).state.unwrap(),
                investor@,
                stake_yield as int,
            ) {
                Some(e) => r == Err::<Vec<Call>, LedgerError>(e),
                None => r is Ok,
            },
            r is Err ==> *final(self) == *old(self),
            r is Ok ==> ({
                let a = old(self).addresses.unwrap();
                let payment = redeem_payment(&old(self).state.unwrap(), investor@, stake_yield as int);
                &&& final(self).state is Some
                &&& final(self).contract == old(self).contract
                &&& final(self).addresses == old(self).addresses
                &&& redeemed(
                    &old(self).state.unwrap(),
                    &final(self).state.unwrap(),
                    investor@,
                    stake_yield as int,
                )
                &&& r.unwrap()@ == seq![
                    Call::Transfer {
                        token: a.usdc_token,
                        from: old(self).contract,
                        to: investor,
                        amount: payment as i128,
                    },
                ]
            }),
    {
        if self.addresses.is_none() || self.state.is_none() {
            return Err(LedgerError::NotInitialized);
        }
        let st = self.state.as_ref().unwrap();
        let invested = st.share_of(investor.as_str());
        if invested == 0 {
            return Err(LedgerError::NothingToRedeem);
        }
        let total_payment = match invested.checked_add(stake_yield) {
            Some(v) => v,
            None => return Err(LedgerError::Overflow),
        };
        if st.total_senior < total_payment {
            return Err(LedgerError::InsufficientBalance);
        }
        let senior = match st.total_senior.checked_sub(total_payment) {
            Some(v) => v,
            None => return Err(LedgerError::Overflow),
        };
        let token = self.addresses.as_ref().unwrap().usdc_token.clone();
        let mut st = self.state.take().unwrap();
        st.total_senior = senior;
        st.shares.insert(investor.clone(), 0);
        self.state = Some(st);
        let mut calls: Vec<Call> = Vec::new();
        calls.push(
            Call::Transfer { token, from: self.contract.clone(), to: investor, amount: total_payment },
        );
        Ok(calls)
    }
}

} // verus!
