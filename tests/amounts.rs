use tranche_fund::amounts::{checked_percent, originate, split, Origination, Split};

#[test]
fn split_exact_parts() {
    assert_eq!(split(100), Some(Split { senior: 82, subordinated: 15, reserve: 3 }));
    assert_eq!(split(1000), Some(Split { senior: 820, subordinated: 150, reserve: 30 }));
    assert_eq!(split(5500), Some(Split { senior: 4510, subordinated: 825, reserve: 165 }));
    assert_eq!(split(10000), Some(Split { senior: 8200, subordinated: 1500, reserve: 300 }));
    assert_eq!(split(0), Some(Split { senior: 0, subordinated: 0, reserve: 0 }));
}

#[test]
fn split_sum_never_exceeds_amount() {
    for amount in 0..1000_i128 {
        let s = split(amount).unwrap();
        let sum = s.senior + s.subordinated + s.reserve;
        assert!(sum <= amount);
        assert!(sum >= amount - 2);
        assert_eq!(s.senior, amount * 82 / 100);
        assert_eq!(s.subordinated, amount * 15 / 100);
        assert_eq!(s.reserve, amount * 3 / 100);
    }
}

#[test]
fn split_rounds_toward_zero() {
    assert_eq!(split(1), Some(Split { senior: 0, subordinated: 0, reserve: 0 }));
    assert_eq!(split(-101), Some(Split { senior: -82, subordinated: -15, reserve: -3 }));
}

#[test]
fn split_out_of_range() {
    assert_eq!(split(i128::MAX), None);
    assert_eq!(split(i128::MIN), None);
    assert!(split(i128::MAX / 82).is_some());
}

#[test]
fn percent_exact_values() {
    assert_eq!(checked_percent(9000, 2), Some(180));
    assert_eq!(checked_percent(-820, 5), Some(-41));
    assert_eq!(checked_percent(i128::MAX, 2), None);
}

#[test]
fn origination_exact_values() {
    assert_eq!(
        originate(10000, 2),
        Some(Origination { discount: 1000, disbursed: 9000, principal: 9180 })
    );
    assert_eq!(originate(999, 0), Some(Origination { discount: 99, disbursed: 900, principal: 900 }));
    assert_eq!(originate(i128::MAX, 2), None);
}
