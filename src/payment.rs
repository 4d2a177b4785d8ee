//! The loan engine: credit requests, approval with an origination discount
//! and fee, installment servicing with interest on the remaining principal,
//! and payoff.
use vstd::prelude::*;
use vstd::hash_map::StringHashMap;
use crate::amounts::{fits, percent_of, product_fits, originate, origination_fits, origination_spec};
use crate::calls::Call;
use crate::error::LedgerError;

verus! {

/// A borrower's request for credit. `approved` turns true once a loan has
/// been granted on it.
pub struct LoanRequest {
    pub farmer: String,
    pub amount: i128,
    pub interest_rate: i128,
    pub loan_fee: i128,
    pub approved: bool,
}

impl LoanRequest {
    /// A field-by-field copy.
    pub fn copy(&self) -> (r: Self)
        ensures
            r == *self,
    {
        LoanRequest {
            farmer: self.farmer.clone(),
            amount: self.amount,
            interest_rate: self.interest_rate,
            loan_fee: self.loan_fee,
            approved: self.approved,
        }
    }
}

/// An active loan. `principal` is what is owed, `paid_principal` what has
/// been paid towards it, and `total_interest_paid` the interest charged so
/// far. `interest_rate` is in percent per installment.
pub struct Loan {
    pub farmer: String,
    pub principal: i128,
    pub interest_rate: i128,
    pub total_interest_paid: i128,
    pub paid_principal: i128,
    pub term_in_months: u32,
    pub start_date: u64,
}

impl Loan {
    /// A field-by-field copy.
    pub fn copy(&self) -> (r: Self)
        ensures
            r == *self,
    {
        Loan {
            farmer: self.farmer.clone(),
            principal: self.principal,
            interest_rate: self.interest_rate,
            total_interest_paid: self.total_interest_paid,
            paid_principal: self.paid_principal,
            term_in_months: self.term_in_months,
            start_date: self.start_date,
        }
    }
}

/// The single-valued entries of the loan ledger.
#[derive(Clone, Copy, Debug, PartialEq, Eq, Structural)]
pub enum DataKey {
    Addresses,
}

/// The two per-borrower collections of the loan ledger.
#[derive(Clone, Copy, Debug, PartialEq, Eq, Structural)]
pub enum LoanType {
    Request,
    Loan,
}

/// Addresses of the services the loan engine calls.
pub struct ContractAddresses {
    pub soroswap_router: String,
    pub blend_comet: String,
    pub usdc_token: String,
}

/// The principal paid after an installment of `amount`.
pub open spec fn paid_after(loan: Loan, amount: int) -> int {
    loan.paid_principal + amount
}

/// What is left to pay after an installment of `amount`.
pub open spec fn remaining_after(loan: Loan, amount: int) -> int {
    loan.principal - paid_after(loan, amount)
}

/// The interest charged on an installment of `amount`: the loan's rate
/// applied to what is left after the payment.
pub open spec fn installment_interest(loan: Loan, amount: int) -> int {
    percent_of(remaining_after(loan, amount), loan.interest_rate as int)
}

/// Whether every step of an installment of `amount` stays in range.
pub open spec fn installment_fits(loan: Loan, amount: int) -> bool {
    &&& fits(paid_after(loan, amount))
    &&& fits(remaining_after(loan, amount))
    &&& product_fits(remaining_after(loan, amount), loan.interest_rate as int)
    &&& fits(loan.total_interest_paid + installment_interest(loan, amount))
}

/// The loan after an installment of `amount`.
pub open spec fn loan_after(loan: Loan, amount: int) -> Loan {
    Loan {
        paid_principal: paid_after(loan, amount) as i128,
        total_interest_paid: (loan.total_interest_paid + installment_interest(loan, amount)) as i128,
        ..loan
    }
}

/// What a payoff of the loan collects: the unpaid principal plus the
/// interest charged so far.
pub open spec fn amount_due(loan: Loan) -> int {
    (loan.principal - loan.paid_principal) + loan.total_interest_paid
}

/// Whether the payoff arithmetic stays in range.
pub open spec fn payoff_fits(loan: Loan) -> bool {
    fits(loan.principal - loan.paid_principal) && fits(amount_due(loan))
}

impl Loan {
    /// Records an installment of `amount` and returns the updated loan and
    /// the interest charged on it, or `None` when a step leaves the range.
    pub fn after_installment(&self, amount: i128) -> (r: Option<(Loan, i128)>)
        ensures
            r == (if installment_fits(*self, amount as int) {
                Some((loan_after(*self, amount as int), installment_interest(*self, amount as int) as i128))
            } else {
                None::<(Loan, i128)>
            }),
    {
        let paid = match self.paid_principal.checked_add(amount) {
            Some(v) => v,
            None => return None,
        };
        let remaining = match self.principal.checked_sub(paid) {
            Some(v) => v,
            None => return None,
        };
        let interest = match crate::amounts::checked_percent(remaining, self.interest_rate) {
            Some(v) => v,
            None => return None,
        };
        let total = match self.total_interest_paid.checked_add(interest) {
            Some(v) => v,
            None => return None,
        };
        let mut loan = self.copy();
        loan.paid_principal = paid;
        loan.total_interest_paid = total;
        Some((loan, interest))
    }

    /// The payoff amount, or `None` when it leaves the range. It does not
    /// depend on how long the loan has run.
    pub fn payoff_amount(&self) -> (r: Option<i128>)
        ensures
            r == (if payoff_fits(*self) {
                Some(amount_due(*self) as i128)
            } else {
                None::<i128>
            }),
    {
        let unpaid = match self.principal.checked_sub(self.paid_principal) {
            Some(v) => v,
            None => return None,
        };
        unpaid.checked_add(self.total_interest_paid)
    }
}

/// A loan engine instance: its own address, the collaborators' addresses
/// (set by `init`), and the requests and active loans keyed by borrower.
pub struct PaymentContract {
    pub contract: String,
    pub addresses: Option<ContractAddresses>,
    pub requests: StringHashMap<LoanRequest>,
    pub loans: StringHashMap<Loan>,
}

/// `c1` is `c0` after the request of `farmer` was approved: a loan with
/// the origination principal and nothing paid starts at `now`, and the
/// request is marked approved.
pub open spec fn accepted(c0: &PaymentContract, c1: &PaymentContract, farmer: Seq<char>, term_in_months: u32, now: u64) -> bool {
    let req = c0.requests@[farmer];
    let o = origination_spec(req.amount as int, req.loan_fee as int);
    &&& c1.contract == c0.contract
    &&& c1.addresses == c0.addresses
    &&& c1.loans@ == c0.loans@.insert(
        farmer,
        Loan {
            farmer: req.farmer,
            principal: o.principal,
            interest_rate: req.interest_rate,
            total_interest_paid: 0,
            paid_principal: 0,
            term_in_months,
            start_date: now,
        },
    )
    &&& c1.requests@ == c0.requests@.insert(farmer, LoanRequest { approved: true, ..req })
}

/// `c1` is `c0` after an installment of `amount` on the loan of `farmer`:
/// the loan is updated, or removed once its principal is paid in full.
pub open spec fn installment_recorded(c0: &PaymentContract, c1: &PaymentContract, farmer: Seq<char>, amount: int) -> bool {
    let next = loan_after(c0.loans@[farmer], amount);
    &&& c1.contract == c0.contract
    &&& c1.addresses == c0.addresses
    &&& c1.requests@ == c0.requests@
    &&& if next.paid_principal >= next.principal {
        c1.loans@ == c0.loans@.remove(farmer)
    } else {
        c1.loans@ == c0.loans@.insert(farmer, next)
    }
}

/// `c1` is `c0` after the loan of `farmer` was paid off and removed.
pub open spec fn paid_off(c0: &PaymentContract, c1: &PaymentContract, farmer: Seq<char>) -> bool {
    &&& c1.contract == c0.contract
    &&& c1.addresses == c0.addresses
    &&& c1.requests@ == c0.requests@
    &&& c1.loans@ == c0.loans@.remove(farmer)
}

/// Why approving the request of `farmer` is refused, if it is: no request,
/// approved before, origination arithmetic out of range, or no `init`.
pub open spec fn accept_refusal(c: &PaymentContract, farmer: Seq<char>) -> Option<LedgerError> {
    if !c.requests@.contains_key(farmer) {
        Some(LedgerError::NoLoanRequest)
    } else if c.requests@[farmer].approved {
        Some(LedgerError::AlreadyApproved)
    } else if !origination_fits(
        c.requests@[farmer].amount as int,
        c.requests@[farmer].loan_fee as int,
    ) {
        Some(LedgerError::Overflow)
    } else if c.addresses is None {
        Some(LedgerError::NotInitialized)
    } else {
        None
    }
}

/// Why an installment of `amount` by `farmer` is refused, if it is: no
/// active loan, no `init`, or arithmetic out of range.
pub open spec fn installment_refusal(c: &PaymentContract, farmer: Seq<char>, amount: int) -> Option<
    LedgerError,
> {
    if !c.loans@.contains_key(farmer) {
        Some(LedgerError::NoActiveLoan)
    } else if c.addresses is None {
        Some(LedgerError::NotInitialized)
    } else if !installment_fits(c.loans@[farmer], amount) {
        Some(LedgerError::Overflow)
    } else {
        None
    }
}

/// Why a payoff by `farmer` is refused, if it is: no active loan, no
/// `init`, or arithmetic out of range.
pub open spec fn payoff_refusal(c: &PaymentContract, farmer: Seq<char>) -> Option<LedgerError> {
    if !c.loans@.contains_key(farmer) {
        Some(LedgerError::NoActiveLoan)
    } else if c.addresses is None {
        Some(LedgerError::NotInitialized)
    } else if !payoff_fits(c.loans@[farmer]) {
        Some(LedgerError::Overflow)
    } else {
        None
    }
}

impl PaymentContract {
    /// A loan engine at `contract` with no requests, no loans, and no
    /// collaborators yet.
    pub fn new(contract: String) -> (r: Self)
        ensures
            r.contract == contract,
            r.addresses is None,
            r.requests@ == Map::<Seq<char>, LoanRequest>::empty(),
            r.loans@ == Map::<Seq<char>, Loan>::empty(),
    {
        PaymentContract {
            contract,
            addresses: None,
            requests: StringHashMap::new(),
            loans: StringHashMap::new(),
        }
    }

    /// Records the collaborators' addresses; requests and loans stay.
    pub fn init(&mut self, router: String, comet: String, usdc: String)
        ensures
            final(self).contract == old(self).contract,
            final(self).addresses == Some(
                ContractAddresses { soroswap_router: router, blend_comet: comet, usdc_token: usdc },
            ),
            final(self).requests@ == old(self).requests@,
            final(self).loans@ == old(self).loans@,
    {
        self.addresses = Some(
            ContractAddresses { soroswap_router: router, blend_comet: comet, usdc_token: usdc },
        );
    }

    /// Stores a fresh, unapproved request for `farmer`, replacing any
    /// earlier one.
    pub fn request_credit(&mut self, farmer: String, amount: i128, interest_rate: i128, loan_fee: i128)
        ensures
            final(self).contract == old(self).contract,
            final(self).addresses == old(self).addresses,
            final(self).loans@ == old(self).loans@,
            final(self).requests@ == old(self).requests@.insert(
                farmer@,
                LoanRequest { farmer, amount, interest_rate, loan_fee, approved: false },
            ),
    {
        let req = LoanRequest {
            farmer: farmer.clone(),
            amount,
            interest_rate,
            loan_fee,
            approved: false,
        };
        self.requests.insert(farmer, req);
    }

    /// Grants a loan on the pending request of `farmer`: the principal is
    /// the discounted amount plus the origination fee, nothing is paid yet,
    /// and the loan starts at `now`. Marks the request approved and asks
    /// for a transfer of the discounted amount in the principal token from
    /// the engine to the borrower.
    pub fn accept_credit(&mut self, farmer: String, term_in_months: u32, now: u64) -> (r: Result<
        Vec<Call>,
        LedgerError,
    >)
        ensures
            match accept_refusal(old(self), farmer@) {
                Some(e) => r == Err::<Vec<Call>, LedgerError>(e),
                None => r is Ok,
            },
            r is Err ==> *final(self) == *old(self),
            r is Ok ==> ({
                let req = old(self).requests@[farmer@];
                let o = origination_spec(req.amount as int, req.loan_fee as int);
                let a = old(self).addresses.unwrap();
                &&& accepted(old(self), final(self), farmer@, term_in_months, now)
                &&& r.unwrap()@ == seq![
                    Call::Transfer {
                        token: a.usdc_token,
                        from: old(self).contract,
                        to: farmer,
                        amount: o.disbursed,
                    },
                ]
            }),
    {
        let mut req = match self.requests.get(farmer.as_str()) {
            Some(q) => q.copy(),
            None => return Err(LedgerError::NoLoanRequest),
        };
        if req.approved {
            return Err(LedgerError::AlreadyApproved);
        }
        let o = match originate(req.amount, req.loan_fee) {
            Some(o) => o,
            None => return Err(LedgerError::Overflow),
        };
        let token = match &self.addresses {
            Some(a) => a.usdc_token.clone(),
            None => return Err(LedgerError::NotInitialized),
        };
        let loan = Loan {
            farmer: req.farmer.clone(),
            principal: o.principal,
            interest_rate: req.interest_rate,
            total_interest_paid: 0,
            paid_principal: 0,
            term_in_months,
            start_date: now,
        };
        self.loans.insert(farmer.clone(), loan);
        req.approved = true;
        self.requests.insert(farmer.clone(), req);
        let mut calls: Vec<Call> = Vec::new();
        calls.push(
            Call::Transfer { token, from: self.contract.clone(), to: farmer, amount: o.disbursed },
        );
        Ok(calls)
    }

    /// Records an installment of `amount` against the loan of `farmer`:
    /// the payment counts first, then interest is charged on what is left.
    /// A loan paid in full is removed. Asks for a supply of the interest in
    /// the principal token to the pool.
    pub fn pay_installment(&mut self, farmer: String, amount: i128) -> (r: Result<
        Vec<Call>,
        LedgerError,
    >)
        ensures
            match installment_refusal(old(self), farmer@, amount as int) {
                Some(e) => r == Err::<Vec<Call>, LedgerError>(e),
                None => r is Ok,
            },
            r is Err ==> *final(self) == *old(self),
            r is Ok ==> ({
                let loan = old(self).loans@[farmer@];
                let a = old(self).addresses.unwrap();
                &&& installment_recorded(old(self), final(self), farmer@, amount as int)
                &&& r.unwrap()@ == seq![
                    Call::Supply {
                        pool: a.blend_comet,
                        token: a.usdc_token,
                        amount: installment_interest(loan, amount as int) as i128,
                    },
                ]
            }),
    {
        let step = match self.loans.get(farmer.as_str()) {
            Some(l) => l.after_installment(amount),
            None => return Err(LedgerError::NoActiveLoan),
        };
        let (pool, token) = match &self.addresses {
            Some(a) => (a.blend_comet.clone(), a.usdc_token.clone()),
            None => return Err(LedgerError::NotInitialized),
        };
        let (loan, interest) = match step {
            Some(s) => s,
            None => return Err(LedgerError::Overflow),
        };
        if loan.paid_principal >= loan.principal {
            self.loans.remove(farmer.as_str());
        } else {
            self.loans.insert(farmer, loan);
        }
        let mut calls: Vec<Call> = Vec::new();
        calls.push(Call::Supply { pool, token, amount: interest });
        Ok(calls)
    }

    /// Settles the loan of `farmer` in one payment of the unpaid principal
    /// plus the interest charged so far, and removes the loan. Returns that
    /// amount and asks for a transfer of it in the principal token from the
    /// borrower to the engine.
    pub fn pay_off_loan(&mut self, farmer: String) -> (r: Result<(i128, Vec<Call>), LedgerError>)
        ensures
            match payoff_refusal(old(self), farmer@) {
                Some(e) => r == Err::<(i128, Vec<Call>), LedgerError>(e),
                None => r is Ok,
            },
            r is Err ==> *final(self) == *old(self),
            r is Ok ==> ({
                let due = amount_due(old(self).loans@[farmer@]);
                let a = old(self).addresses.unwrap();
                &&& paid_off(old(self), final(self), farmer@)
                &&& r.unwrap().0 == due
                &&& r.unwrap().1@ == seq![
                    Call::Transfer {
                        token: a.usdc_token,
                        from: farmer,
                        to: old(self).contract,
                        amount: due as i128,
                    },
                ]
            }),
    {
        let due = match self.loans.get(farmer.as_str()) {
            Some(l) => l.payoff_amount(),
            None => return Err(LedgerError::NoActiveLoan),
        };
        let token = match &self.addresses {
            Some(a) => a.usdc_token.clone(),
            None => return Err(LedgerError::NotInitialized),
        };
        let due = match due {
            Some(d) => d,
            None => return Err(LedgerError::Overflow),
        };
        self.loans.remove(farmer.as_str());
        let mut calls: Vec<Call> = Vec::new();
        calls.push(Call::Transfer { token, from: farmer, to: self.contract.clone(), amount: due });
        Ok((due, calls))
    }

    /// Puts a request in the ledger under its borrower, replacing any
    /// earlier one; nothing is checked.
    pub fn restore_request(&mut self, req: LoanRequest)
        ensures
            final(self).contract == old(self).contract,
            final(self).addresses == old(self).addresses,
            final(self).loans@ == old(self).loans@,
            final(self).requests@ == old(self).requests@.insert(req.farmer@, req),
    {
        let key = req.farmer.clone();
        self.requests.insert(key, req);
    }

    /// Puts a loan in the ledger under its borrower, replacing any earlier
    /// one; nothing is checked.
    pub fn restore_loan(&mut self, loan: Loan)
        ensures
            final(self).contract == old(self).contract,
            final(self).addresses == old(self).addresses,
            final(self).requests@ == old(self).requests@,
            final(self).loans@ == old(self).loans@.insert(loan.farmer@, loan),
    {
        let key = loan.farmer.clone();
        self.loans.insert(key, loan);
    }

    /// The request of `farmer`.
    pub fn get_loan_request(&self, farmer: &str) -> (r: Result<LoanRequest, LedgerError>)
        ensures
            self.requests@.contains_key(farmer@) ==> r == Ok::<LoanRequest, LedgerError>(
                self.requests@[farmer@],
            ),
            !self.requests@.contains_key(farmer@) ==> r == Err::<LoanRequest, LedgerError>(
                LedgerError::NoLoanRequest,
            ),
    {
        match self.requests.get(farmer) {
            Some(q) => Ok(q.copy()),
            None => Err(LedgerError::NoLoanRequest),
        }
    }

    /// The active loan of `farmer`.
    pub fn get_loan(&self, farmer: &str) -> (r: Result<Loan, LedgerError>)
        ensures
            self.loans@.contains_key(farmer@) ==> r == Ok::<Loan, LedgerError>(self.loans@[farmer@]),
            !self.loans@.contains_key(farmer@) ==> r == Err::<Loan, LedgerError>(
                LedgerError::NoActiveLoan,
            ),
    {
        match self.loans.get(farmer) {
            Some(l) => Ok(l.copy()),
            None => Err(LedgerError::NoActiveLoan),
        }
    }

    /// Whether `farmer` has an entry in the given collection.
    pub fn has_entry(&self, kind: LoanType, farmer: &str) -> (r: bool)
        ensures
            r == match kind {
                LoanType::Request => self.requests@.contains_key(farmer@),
                LoanType::Loan => self.loans@.contains_key(farmer@),
            },
    {
        match kind {
            LoanType::Request => self.requests.contains_key(farmer),
            LoanType::Loan => self.loans.contains_key(farmer),
        }
    }

    /// Whether the given single-valued entry has been set.
    pub fn is_set(&self, key: DataKey) -> (r: bool)
        ensures
            r == match key {
                DataKey::Addresses => self.addresses is Some,
            },
    {
        match key {
            DataKey::Addresses => self.addresses.is_some(),
        }
    }
}

} // verus!
