use auto_savings::{
    deactivate, initialize_allocations, initialize_token_vault, initialize_treasury,
    initialize_user, reactivate, set_auto_swap, toggle_pause, update_savings_rate,
    update_tvl_cap, Address, ErrorCode, TVL_CAP_LAMPORTS,
};

fn addr(b: u8) -> Address {
    Address::new([b; 32])
}

#[test]
fn treasury_starts_empty_unpaused_with_default_cap() {
    let t = initialize_treasury(&addr(9), 7);
    assert_eq!(t.authority, addr(9));
    assert_eq!(t.total_fees_collected, 0);
    assert_eq!(t.bump, 7);
    assert!(!t.is_paused);
    assert_eq!(t.total_tvl, 0);
    assert_eq!(t.tvl_cap, TVL_CAP_LAMPORTS);
    assert_eq!(TVL_CAP_LAMPORTS, 10_000_000_000);
}

#[test]
fn user_rate_bounds() {
    assert_eq!(initialize_user(&addr(1), 0, 1, 2).unwrap_err(), ErrorCode::InvalidSavingsRate);
    assert_eq!(initialize_user(&addr(1), 91, 1, 2).unwrap_err(), ErrorCode::InvalidSavingsRate);
    let low = initialize_user(&addr(1), 1, 1, 2).unwrap();
    assert_eq!(low.savings_rate, 1);
    let high = initialize_user(&addr(1), 90, 1, 2).unwrap();
    assert_eq!(high.savings_rate, 90);
    assert!(high.is_active);
    assert_eq!(high.total_saved, 0);
    assert_eq!(high.total_withdrawn, 0);
    assert_eq!(high.transaction_count, 0);
    assert_eq!(high.bump, 1);
    assert_eq!(high.vault_bump, 2);
    assert_eq!(high.owner, addr(1));
}

#[test]
fn savings_rate_update_rules() {
    let mut u = initialize_user(&addr(1), 10, 1, 2).unwrap();
    assert_eq!(update_savings_rate(&mut u, &addr(2), 20), Err(ErrorCode::Unauthorized));
    assert_eq!(update_savings_rate(&mut u, &addr(1), 0), Err(ErrorCode::InvalidSavingsRate));
    assert_eq!(update_savings_rate(&mut u, &addr(1), 95), Err(ErrorCode::InvalidSavingsRate));
    assert_eq!(update_savings_rate(&mut u, &addr(1), 25), Ok(()));
    assert_eq!(u.savings_rate, 25);
    u.is_active = false;
    assert_eq!(update_savings_rate(&mut u, &addr(1), 30), Err(ErrorCode::AccountNotActive));
    assert_eq!(u.savings_rate, 25);
}

#[test]
fn deactivate_and_reactivate_toggle_the_flag() {
    let mut u = initialize_user(&addr(1), 10, 1, 2).unwrap();
    assert_eq!(deactivate(&mut u, &addr(2)), Err(ErrorCode::Unauthorized));
    assert!(u.is_active);
    assert_eq!(deactivate(&mut u, &addr(1)), Ok(()));
    assert!(!u.is_active);
    assert_eq!(reactivate(&mut u, &addr(2)), Err(ErrorCode::Unauthorized));
    assert!(!u.is_active);
    assert_eq!(reactivate(&mut u, &addr(1)), Ok(()));
    assert!(u.is_active);
}

#[test]
fn pause_is_authority_only_and_flips() {
    let mut t = initialize_treasury(&addr(9), 7);
    assert_eq!(toggle_pause(&mut t, &addr(1)), Err(ErrorCode::Unauthorized));
    assert!(!t.is_paused);
    assert_eq!(toggle_pause(&mut t, &addr(9)), Ok(()));
    assert!(t.is_paused);
    assert_eq!(toggle_pause(&mut t, &addr(9)), Ok(()));
    assert!(!t.is_paused);
}

#[test]
fn tvl_cap_cannot_fall_below_locked_value() {
    let mut t = initialize_treasury(&addr(9), 7);
    t.total_tvl = 500;
    t.total_fees_collected = 12;
    let before = format!("{:?}", t);
    assert_eq!(update_tvl_cap(&mut t, &addr(9), 499), Err(ErrorCode::InvalidAmount));
    assert_eq!(format!("{:?}", t), before);
    assert_eq!(update_tvl_cap(&mut t, &addr(1), 1000), Err(ErrorCode::Unauthorized));
    assert_eq!(update_tvl_cap(&mut t, &addr(9), 500), Ok(()));
    assert_eq!(t.tvl_cap, 500);
    assert_eq!(update_tvl_cap(&mut t, &addr(9), 20_000_000_000), Ok(()));
    assert_eq!(t.tvl_cap, 20_000_000_000);
    assert_eq!(t.total_tvl, 500);
    assert_eq!(t.total_fees_collected, 12);
    assert_eq!(t.authority, addr(9));
    assert_eq!(t.bump, 7);
    assert!(!t.is_paused);
}

#[test]
fn token_vault_and_swap_settings_are_recorded() {
    let v = initialize_token_vault(&addr(1), &addr(5), &addr(6), 200);
    assert_eq!(v.owner, addr(1));
    assert_eq!(v.mint, addr(5));
    assert_eq!(v.token_account, addr(6));
    assert_eq!(v.total_deposited, 0);
    assert_eq!(v.total_withdrawn, 0);
    assert_eq!(v.bump, 200);
    let s = set_auto_swap(&addr(1), true, &addr(5), 1_000_000, 3);
    assert_eq!(s.user, addr(1));
    assert!(s.auto_swap_enabled);
    assert_eq!(s.target_token_mint, addr(5));
    assert_eq!(s.min_swap_amount, 1_000_000);
    assert_eq!(s.bump, 3);
}

#[test]
fn allocation_ledger_starts_empty() {
    let a = initialize_allocations(&addr(1), 4);
    assert_eq!(a.owner, addr(1));
    assert!(a.allocations.is_empty());
    assert_eq!(a.bump, 4);
}

#[test]
fn error_messages() {
    assert_eq!(ErrorCode::InvalidSavingsRate.message(), "Savings rate must be between 1 and 90");
    assert_eq!(ErrorCode::TvlCapExceeded.message(), "TVL cap exceeded");
    assert_eq!(ErrorCode::ProtocolPaused.message(), "Protocol is paused");
    assert_eq!(ErrorCode::Overflow.message(), "Arithmetic overflow");
}
