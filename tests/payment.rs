use tranche_fund::calls::Call;
use tranche_fund::error::LedgerError;
use tranche_fund::payment::{DataKey, Loan, LoanRequest, LoanType, PaymentContract};

fn setup() -> PaymentContract {
    let mut client = PaymentContract::new("payments".to_string());
    client.init("router".to_string(), "comet".to_string(), "usdc".to_string());
    client
}

#[test]
fn test_accept_credit_with_discount() {
    let mut client = setup();
    let farmer = "farmer".to_string();
    let amount = 10000;
    let interest_rate = 5;
    let loan_fee = 2;
    let term_in_months = 12;

    client.request_credit(farmer.clone(), amount, interest_rate, loan_fee);

    client.accept_credit(farmer.clone(), term_in_months, 0).unwrap();

    let loan: Loan = client.get_loan(&farmer).unwrap();
    let loan_request: LoanRequest = client.get_loan_request(&farmer).unwrap();

    let expected_discount = amount * 10 / 100;
    let expected_discounted_amount = amount - expected_discount;
    let expected_total_principal =
        expected_discounted_amount + (expected_discounted_amount * loan_fee / 100);

    assert_eq!(loan.principal, expected_total_principal);
    assert_eq!(loan_request.approved, true);
    assert_eq!(loan.term_in_months, term_in_months);
}

#[test]
fn test_pay_installment() {
    let mut client = setup();
    let farmer = "farmer".to_string();
    let amount = 10000;
    let interest_rate = 5;
    let loan_fee = 2;
    let term_in_months = 12;

    client.request_credit(farmer.clone(), amount, interest_rate, loan_fee);

    client.accept_credit(farmer.clone(), term_in_months, 0).unwrap();

    let payment_amount = 1000;

    client.pay_installment(farmer.clone(), payment_amount).unwrap();

    let loan: Loan = client.get_loan(&farmer).unwrap();
    assert_eq!(loan.paid_principal, payment_amount);
}

#[test]
fn test_pay_off_loan_successfully() {
    let mut client = setup();
    let farmer = "farmer".to_string();
    let amount = 10000;
    let interest_rate = 5;
    let loan_fee = 2;
    let term_in_months = 12;

    client.request_credit(farmer.clone(), amount, interest_rate, loan_fee);
    client.accept_credit(farmer.clone(), term_in_months, 0).unwrap();

    let (paid_amount, _) = client.pay_off_loan(farmer.clone()).unwrap();

    assert_eq!(paid_amount, 9180);

    let result = client.get_loan(&farmer);

    assert!(result.is_err());
}

#[test]
fn test_pay_off_non_existent_loan() {
    let mut client = setup();
    let farmer = "farmer".to_string();

    let r = client.pay_off_loan(farmer);
    assert_eq!(r, Err(LedgerError::NoActiveLoan));
}

fn granted(client: &mut PaymentContract, farmer: &str) -> Vec<Call> {
    client.request_credit(farmer.to_string(), 10000, 5, 2);
    client.accept_credit(farmer.to_string(), 12, 1_700_000_000).unwrap()
}

#[test]
fn accept_pays_out_discounted_amount() {
    let mut client = setup();
    let calls = granted(&mut client, "farmer");
    assert_eq!(
        calls,
        vec![Call::Transfer {
            token: "usdc".to_string(),
            from: "payments".to_string(),
            to: "farmer".to_string(),
            amount: 9000,
        }]
    );
    let loan = client.get_loan("farmer").unwrap();
    assert_eq!(loan.principal, 9180);
    assert_eq!(loan.interest_rate, 5);
    assert_eq!(loan.paid_principal, 0);
    assert_eq!(loan.total_interest_paid, 0);
    assert_eq!(loan.start_date, 1_700_000_000);
    assert_eq!(loan.farmer, "farmer");
}

#[test]
fn request_is_pending_until_accepted() {
    let mut client = setup();
    client.request_credit("farmer".to_string(), 500, 3, 1);
    let req = client.get_loan_request("farmer").unwrap();
    assert_eq!(req.approved, false);
    assert_eq!(req.amount, 500);
    assert_eq!(req.interest_rate, 3);
    assert_eq!(req.loan_fee, 1);
    assert!(client.has_entry(LoanType::Request, "farmer"));
    assert!(!client.has_entry(LoanType::Loan, "farmer"));
    assert_eq!(client.get_loan("farmer").map(|l| l.principal), Err(LedgerError::NoActiveLoan));
}

#[test]
fn accept_twice_is_refused() {
    let mut client = setup();
    granted(&mut client, "farmer");
    let r = client.accept_credit("farmer".to_string(), 12, 0);
    assert_eq!(r, Err(LedgerError::AlreadyApproved));
    assert_eq!(client.get_loan("farmer").unwrap().start_date, 1_700_000_000);
}

#[test]
fn accept_without_request_is_refused() {
    let mut client = setup();
    let r = client.accept_credit("nobody".to_string(), 12, 0);
    assert_eq!(r, Err(LedgerError::NoLoanRequest));
    assert_eq!(client.get_loan_request("nobody").map(|q| q.amount), Err(LedgerError::NoLoanRequest));
}

#[test]
fn accept_out_of_range_is_refused() {
    let mut client = setup();
    client.request_credit("farmer".to_string(), i128::MAX, 5, 2);
    assert_eq!(client.accept_credit("farmer".to_string(), 12, 0), Err(LedgerError::Overflow));
    assert!(!client.get_loan_request("farmer").unwrap().approved);
}

#[test]
fn uninitialized_engine_refuses_loans() {
    let mut client = PaymentContract::new("payments".to_string());
    assert!(!client.is_set(DataKey::Addresses));
    client.request_credit("farmer".to_string(), 10000, 5, 2);
    assert_eq!(client.accept_credit("farmer".to_string(), 12, 0), Err(LedgerError::NotInitialized));
    assert!(!client.get_loan_request("farmer").unwrap().approved);
    client.init("r".to_string(), "c".to_string(), "u".to_string());
    assert!(client.is_set(DataKey::Addresses));
    assert!(client.has_entry(LoanType::Request, "farmer"));
}

#[test]
fn installment_charges_interest_on_remaining_principal() {
    let mut client = setup();
    granted(&mut client, "farmer");
    let calls = client.pay_installment("farmer".to_string(), 1000).unwrap();
    assert_eq!(
        calls,
        vec![Call::Supply { pool: "comet".to_string(), token: "usdc".to_string(), amount: 409 }]
    );
    let loan = client.get_loan("farmer").unwrap();
    assert_eq!(loan.paid_principal, 1000);
    assert_eq!(loan.total_interest_paid, 409);
    let (due, calls) = client.pay_off_loan("farmer".to_string()).unwrap();
    assert_eq!(due, 8589);
    assert_eq!(
        calls,
        vec![Call::Transfer {
            token: "usdc".to_string(),
            from: "farmer".to_string(),
            to: "payments".to_string(),
            amount: 8589,
        }]
    );
    assert!(client.get_loan("farmer").is_err());
    assert!(client.get_loan_request("farmer").unwrap().approved);
}

#[test]
fn full_installment_removes_loan() {
    let mut client = setup();
    granted(&mut client, "farmer");
    let calls = client.pay_installment("farmer".to_string(), 9180).unwrap();
    assert_eq!(
        calls,
        vec![Call::Supply { pool: "comet".to_string(), token: "usdc".to_string(), amount: 0 }]
    );
    assert_eq!(client.get_loan("farmer").map(|l| l.principal), Err(LedgerError::NoActiveLoan));
    assert_eq!(client.pay_installment("farmer".to_string(), 1), Err(LedgerError::NoActiveLoan));
}

#[test]
fn overpayment_is_absorbed() {
    let mut client = setup();
    granted(&mut client, "farmer");
    let calls = client.pay_installment("farmer".to_string(), 10000).unwrap();
    assert_eq!(
        calls,
        vec![Call::Supply { pool: "comet".to_string(), token: "usdc".to_string(), amount: -41 }]
    );
    assert!(!client.has_entry(LoanType::Loan, "farmer"));
}

#[test]
fn installment_out_of_range_is_refused() {
    let mut client = setup();
    granted(&mut client, "farmer");
    assert_eq!(client.pay_installment("farmer".to_string(), i128::MAX), Err(LedgerError::Overflow));
    assert_eq!(client.get_loan("farmer").unwrap().paid_principal, 0);
}

#[test]
fn request_again_after_repayment_replaces_request() {
    let mut client = setup();
    granted(&mut client, "farmer");
    client.pay_off_loan("farmer".to_string()).unwrap();
    client.request_credit("farmer".to_string(), 2000, 4, 0);
    let req = client.get_loan_request("farmer").unwrap();
    assert_eq!(req.amount, 2000);
    assert!(!req.approved);
    client.accept_credit("farmer".to_string(), 6, 5).unwrap();
    assert_eq!(client.get_loan("farmer").unwrap().principal, 1800);
}
