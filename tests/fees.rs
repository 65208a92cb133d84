use auto_savings::{
    compute_fee, savings_share, withdrawal_total, ErrorCode, BASIS_POINTS_DIVISOR,
    PLATFORM_FEE_BASIS_POINTS,
};

#[test]
fn fee_rate_is_forty_basis_points() {
    assert_eq!(PLATFORM_FEE_BASIS_POINTS, 40);
    assert_eq!(BASIS_POINTS_DIVISOR, 10000);
}

#[test]
fn fee_on_one_thousand() {
    let s = compute_fee(1000);
    assert_eq!(s.fee, 4);
    assert_eq!(s.net, 996);
}

#[test]
fn fee_rounds_down_to_zero_on_small_amounts() {
    let s = compute_fee(249);
    assert_eq!(s.fee, 0);
    assert_eq!(s.net, 249);
    let s = compute_fee(250);
    assert_eq!(s.fee, 1);
    assert_eq!(s.net, 249);
    let s = compute_fee(1);
    assert_eq!(s.fee, 0);
    assert_eq!(s.net, 1);
}

#[test]
fn fee_and_net_add_up_over_the_stated_range() {
    let top = u64::MAX / 10000;
    for gross in [1u64, 2, 999, 10_000, 123_456_789, top - 1, top] {
        let s = compute_fee(gross);
        assert_eq!(s.fee as u128, (gross as u128) * 40 / 10000);
        assert_eq!(s.net, gross - s.fee);
        assert_eq!(s.fee + s.net, gross);
    }
}

#[test]
fn fee_on_the_largest_amount_does_not_overflow() {
    let s = compute_fee(u64::MAX);
    assert_eq!(s.fee as u128, (u64::MAX as u128) * 40 / 10000);
    assert_eq!(s.fee + s.net, u64::MAX);
}

#[test]
fn withdrawal_total_adds_the_fee() {
    assert_eq!(withdrawal_total(996), Ok(999));
    assert_eq!(withdrawal_total(1000), Ok(1004));
    assert_eq!(withdrawal_total(100), Ok(100));
}

#[test]
fn withdrawal_total_overflows_near_the_top() {
    assert_eq!(withdrawal_total(u64::MAX), Err(ErrorCode::Overflow));
    assert_eq!(withdrawal_total(u64::MAX - 10), Err(ErrorCode::Overflow));
}

#[test]
fn savings_share_rounds_down() {
    assert_eq!(savings_share(1000, 10), 100);
    assert_eq!(savings_share(9, 10), 0);
    assert_eq!(savings_share(999, 33), 329);
    assert_eq!(savings_share(u64::MAX, 100), u64::MAX);
    assert_eq!(savings_share(12345, 0), 0);
}
