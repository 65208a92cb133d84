use auto_savings::{
    deposit_with_allocation, initialize_treasury, initialize_user, withdraw_from_allocation,
    Address, Allocation, AllocationConfig, ErrorCode, Movement, Party,
};

fn addr(b: u8) -> Address {
    Address::new([b; 32])
}

fn bucket(name: &str, percentage: u8, is_active: bool) -> Allocation {
    Allocation {
        name: name.to_string(),
        percentage,
        is_active,
        total_saved: 0,
        total_withdrawn: 0,
    }
}

fn ledger(buckets: Vec<Allocation>) -> AllocationConfig {
    AllocationConfig { owner: addr(1), allocations: buckets, bump: 5 }
}

#[test]
fn deposit_credits_each_active_bucket_its_share() {
    let mut a = ledger(vec![
        bucket("rent", 50, true),
        bucket("fun", 33, true),
        bucket("off", 40, false),
        bucket("zero", 0, true),
    ]);
    let mut u = initialize_user(&addr(1), 10, 1, 2).unwrap();
    let mut t = initialize_treasury(&addr(9), 3);
    let legs = deposit_with_allocation(&mut a, &mut u, &mut t, &addr(1), 1000).unwrap();
    assert_eq!(
        legs,
        vec![
            Movement { from: Party::User, to: Party::Treasury, amount: 4 },
            Movement { from: Party::User, to: Party::Vault, amount: 996 },
        ]
    );
    assert_eq!(a.allocations[0].total_saved, 498);
    assert_eq!(a.allocations[1].total_saved, 328);
    assert_eq!(a.allocations[2].total_saved, 0);
    assert_eq!(a.allocations[3].total_saved, 0);
    assert_eq!(a.allocations[0].name, "rent");
    assert_eq!(u.total_saved, 996);
    assert_eq!(u.transaction_count, 1);
    assert_eq!(t.total_fees_collected, 4);
    assert_eq!(t.total_tvl, 996);
}

#[test]
fn percentages_need_not_sum_to_one_hundred() {
    let mut a = ledger(vec![bucket("a", 100, true), bucket("b", 100, true)]);
    let mut u = initialize_user(&addr(1), 10, 1, 2).unwrap();
    let mut t = initialize_treasury(&addr(9), 3);
    deposit_with_allocation(&mut a, &mut u, &mut t, &addr(1), 100).unwrap();
    assert_eq!(a.allocations[0].total_saved, 100);
    assert_eq!(a.allocations[1].total_saved, 100);
}

#[test]
fn failed_allocation_deposit_changes_nothing() {
    let mut full = bucket("full", 50, true);
    full.total_saved = u64::MAX;
    full.total_withdrawn = 0;
    let mut a = ledger(vec![bucket("ok", 50, true), full]);
    let mut u = initialize_user(&addr(1), 10, 1, 2).unwrap();
    let mut t = initialize_treasury(&addr(9), 3);
    assert_eq!(
        deposit_with_allocation(&mut a, &mut u, &mut t, &addr(1), 1000),
        Err(ErrorCode::Overflow)
    );
    assert_eq!(a.allocations[0].total_saved, 0);
    assert_eq!(u.total_saved, 0);
    assert_eq!(t.total_fees_collected, 0);
    assert_eq!(t.total_tvl, 0);
    t.is_paused = true;
    assert_eq!(
        deposit_with_allocation(&mut a, &mut u, &mut t, &addr(1), 1000),
        Err(ErrorCode::ProtocolPaused)
    );
    assert_eq!(
        deposit_with_allocation(&mut a, &mut u, &mut t, &addr(2), 1000),
        Err(ErrorCode::Unauthorized)
    );
}

#[test]
fn two_buckets_cannot_jointly_overdraw_the_pool() {
    let mut a = ledger(vec![bucket("a", 0, true), bucket("b", 0, true)]);
    a.allocations[0].total_saved = 600;
    a.allocations[1].total_saved = 600;
    let mut u = initialize_user(&addr(1), 10, 1, 2).unwrap();
    let mut vault: u64 = 1000;
    let legs = withdraw_from_allocation(&mut a, &mut u, &addr(1), 0, 600, vault).unwrap();
    assert_eq!(legs, vec![Movement { from: Party::Vault, to: Party::User, amount: 600 }]);
    vault -= 600;
    assert_eq!(a.allocations[0].total_withdrawn, 600);
    assert_eq!(u.total_withdrawn, 600);
    // The second bucket still shows 600 available, but the pool holds 400.
    assert_eq!(
        withdraw_from_allocation(&mut a, &mut u, &addr(1), 1, 600, vault),
        Err(ErrorCode::InsufficientFunds)
    );
    assert_eq!(a.allocations[1].total_withdrawn, 0);
    assert_eq!(u.total_withdrawn, 600);
}

#[test]
fn bucket_balance_bounds_withdrawal_even_with_a_full_vault() {
    let mut a = ledger(vec![bucket("a", 50, true)]);
    a.allocations[0].total_saved = 100;
    a.allocations[0].total_withdrawn = 40;
    let mut u = initialize_user(&addr(1), 10, 1, 2).unwrap();
    assert_eq!(
        withdraw_from_allocation(&mut a, &mut u, &addr(1), 0, 61, 1_000_000),
        Err(ErrorCode::InsufficientFunds)
    );
    assert!(withdraw_from_allocation(&mut a, &mut u, &addr(1), 0, 60, 1_000_000).is_ok());
    assert_eq!(a.allocations[0].total_withdrawn, 100);
}

#[test]
fn withdraw_from_allocation_errors() {
    let mut a = ledger(vec![bucket("a", 50, true), bucket("off", 50, false)]);
    a.allocations[0].total_saved = 100;
    a.allocations[1].total_saved = 100;
    let mut u = initialize_user(&addr(1), 10, 1, 2).unwrap();
    assert_eq!(
        withdraw_from_allocation(&mut a, &mut u, &addr(2), 0, 10, 100),
        Err(ErrorCode::Unauthorized)
    );
    assert_eq!(
        withdraw_from_allocation(&mut a, &mut u, &addr(1), 0, 0, 100),
        Err(ErrorCode::InvalidAmount)
    );
    assert_eq!(
        withdraw_from_allocation(&mut a, &mut u, &addr(1), 2, 10, 100),
        Err(ErrorCode::AllocationNotFound)
    );
    assert_eq!(
        withdraw_from_allocation(&mut a, &mut u, &addr(1), 1, 10, 100),
        Err(ErrorCode::AllocationNotFound)
    );
    u.total_withdrawn = u64::MAX;
    assert_eq!(
        withdraw_from_allocation(&mut a, &mut u, &addr(1), 0, 10, 100),
        Err(ErrorCode::Overflow)
    );
}
