use vstd::prelude::*;

use crate::address::Address;
use crate::error::ErrorCode;
use crate::fee::{compute_fee, net_of, savings_share, share_of};
use crate::guard::require_owner;
use crate::ledger::{Allocation, AllocationConfig, TreasuryConfig, UserConfig};
use crate::transfer::{
    deposit, deposit_error, deposit_movements, treasury_after_deposit, user_after_saving, Movement,
    Party,
};

verus! {

/// Whether the bucket takes a share of each deposit.
pub open spec fn tracks_deposits(a: Allocation) -> bool {
    a.is_active && a.percentage > 0
}

/// The bucket once it is credited its share of a net deposit of `net`.
pub open spec fn credited(a: Allocation, net: int) -> Allocation {
    if tracks_deposits(a) {
        Allocation { total_saved: (a.total_saved + share_of(net, a.percentage as int)) as u64, ..a }
    } else {
        a
    }
}

/// Whether tracking a net deposit of `net` overflows some bucket.
pub open spec fn tracking_overflows(allocations: Seq<Allocation>, net: int) -> bool {
    exists|i: int|
        0 <= i < allocations.len() && tracks_deposits(#[trigger] allocations[i])
            && allocations[i].total_saved + share_of(net, allocations[i].percentage as int)
            > u64::MAX
}

/// The error that a deposit of `gross` with allocation tracking fails with;
/// none where it succeeds.
pub open spec fn deposit_with_allocation_error(
    allocation: AllocationConfig,
    user: UserConfig,
    treasury: TreasuryConfig,
    caller: Address,
    gross: u64,
) -> Option<ErrorCode> {
    if caller@ != allocation.owner@ {
        Some(ErrorCode::Unauthorized)
    } else if deposit_error(user, treasury, caller, gross) is Some {
        deposit_error(user, treasury, caller, gross)
    } else if tracking_overflows(allocation.allocations@, net_of(gross as int)) {
        Some(ErrorCode::Overflow)
    } else {
        None
    }
}

/// The buckets once each one that tracks deposits is credited its share of
/// `net`, rounded down on its own.
fn track_allocations(allocations: &Vec<Allocation>, net: u64) -> (r: Result<
    Vec<Allocation>,
    ErrorCode,
>)
    requires
        forall|i: int| 0 <= i < allocations.len() ==> (#[trigger] allocations@[i]).percentage <= 100,
    ensures
        match r {
            Ok(out) => {
                &&& !tracking_overflows(allocations@, net as int)
                &&& out@ == allocations@.map_values(|a: Allocation| credited(a, net as int))
            },
            Err(e) => {
                &&& tracking_overflows(allocations@, net as int)
                &&& e == ErrorCode::Overflow
            },
        },
{
    let mut out: Vec<Allocation> = Vec::new();
    let mut i: usize = 0;
    while i < allocations.len()
        invariant
            0 <= i <= allocations.len(),
            forall|j: int| 0 <= j < allocations.len() ==> (#[trigger] allocations@[j]).percentage <= 100,
            out@ == allocations@.subrange(0, i as int).map_values(
                |a: Allocation| credited(a, net as int),
            ),
            forall|j: int|
                0 <= j < i && tracks_deposits(#[trigger] allocations@[j]) ==> allocations@[j].total_saved
                    + share_of(net as int, allocations@[j].percentage as int) <= u64::MAX,
        decreases allocations.len() - i,
    {
        let a = &allocations[i];
        let mut total = a.total_saved;
        if a.is_active && a.percentage > 0 {
            let share = savings_share(net, a.percentage);
            match a.total_saved.checked_add(share) {
                Some(t) => {
                    total = t;
                },
                None => {
                    assert(tracks_deposits(allocations@[i as int]));
                    return Err(ErrorCode::Overflow);
                },
            }
        }
        let next = Allocation {
            name: a.name.clone(),
            percentage: a.percentage,
            is_active: a.is_active,
            total_saved: total,
            total_withdrawn: a.total_withdrawn,
        };
        assert(next == credited(allocations@[i as int], net as int));
        out.push(next);
        i = i + 1;
        assert(allocations@.subrange(0, i as int) =~= allocations@.subrange(0, i - 1).push(
            allocations@[i - 1],
        ));
        assert(out@ =~= allocations@.subrange(0, i as int).map_values(
            |a: Allocation| credited(a, net as int),
        ));
    }
    assert(allocations@.subrange(0, i as int) =~= allocations@);
    Ok(out)
}

/// Runs the standard deposit of `gross` against the user's pooled vault, then
/// credits each bucket that tracks deposits its share of the net amount. The
/// buckets only keep account: the funds are not set apart, and rounding may
/// leave their shares a little short of the net amount.
pub fn deposit_with_allocation(
    allocation: &mut AllocationConfig,
    user: &mut UserConfig,
    treasury: &mut TreasuryConfig,
    caller: &Address,
    gross: u64,
) -> (r: Result<Vec<Movement>, ErrorCode>)
    requires
        old(allocation).wf(),
    ensures
        final(allocation).wf(),
        final(allocation).owner == old(allocation).owner,
        final(allocation).bump == old(allocation).bump,
        match r {
            Ok(legs) => {
                &&& deposit_with_allocation_error(
                    *old(allocation),
                    *old(user),
                    *old(treasury),
                    *caller,
                    gross,
                ) is None
                &&& legs@ == deposit_movements(gross)
                &&& *final(user) == user_after_saving(*old(user), net_of(gross as int))
                &&& *final(treasury) == treasury_after_deposit(*old(treasury), gross)
                &&& final(allocation).allocations@ == old(allocation).allocations@.map_values(
                    |a: Allocation| credited(a, net_of(gross as int)),
                )
            },
            Err(e) => {
                &&& deposit_with_allocation_error(
                    *old(allocation),
                    *old(user),
                    *old(treasury),
                    *caller,
                    gross,
                ) == Some(e)
                &&& *final(user) == *old(user)
                &&& *final(treasury) == *old(treasury)
                &&& final(allocation).allocations@ == old(allocation).allocations@
            },
        },
{
    require_owner(&allocation.owner, caller)?;
    let mut next_user = *user;
    let mut next_treasury = *treasury;
    let legs = deposit(&mut next_user, &mut next_treasury, caller, gross)?;
    let net = compute_fee(gross).net;
    let next_allocations = track_allocations(&allocation.allocations, net)?;
    proof {
        assert forall|i: int| 0 <= i < next_allocations.len() implies (
        #[trigger] next_allocations@[i]).wf() by {
            let a = allocation.allocations@[i];
            assert(a.wf());
            if tracks_deposits(a) {
                crate::fee::lemma_share_bounds(net as int, a.percentage as int);
            }
        }
    }
    *user = next_user;
    *treasury = next_treasury;
    allocation.allocations = next_allocations;
    Ok(legs)
}

/// The error that paying `amount` out against bucket `index`, from a pooled
/// vault holding `vault_balance`, fails with, checked in this order; none
/// where it succeeds.
pub open spec fn withdraw_from_allocation_error(
    allocation: AllocationConfig,
    user: UserConfig,
    caller: Address,
    index: u8,
    amount: u64,
    vault_balance: u64,
) -> Option<ErrorCode> {
    let a = allocation.allocations@[index as int];
    if caller@ != allocation.owner@ || caller@ != user.owner@ {
        Some(ErrorCode::Unauthorized)
    } else if amount == 0 {
        Some(ErrorCode::InvalidAmount)
    } else if index >= allocation.allocations.len() || !a.is_active {
        Some(ErrorCode::AllocationNotFound)
    } else if a.available() < amount {
        Some(ErrorCode::InsufficientFunds)
    } else if vault_balance < amount {
        Some(ErrorCode::InsufficientFunds)
    } else if a.total_withdrawn + amount > u64::MAX || user.total_withdrawn + amount > u64::MAX {
        Some(ErrorCode::Overflow)
    } else {
        None
    }
}

/// Pays `amount` out of the user's pooled vault, which holds `vault_balance`,
/// against the balance that bucket `index` tracks. Those balances are no
/// reservations: two buckets may each show enough while the vault cannot pay
/// both, and the second payment then fails at the vault's balance.
pub fn withdraw_from_allocation(
    allocation: &mut AllocationConfig,
    user: &mut UserConfig,
    caller: &Address,
    index: u8,
    amount: u64,
    vault_balance: u64,
) -> (r: Result<Vec<Movement>, ErrorCode>)
    requires
        old(allocation).wf(),
    ensures
        final(allocation).wf(),
        final(allocation).owner == old(allocation).owner,
        final(allocation).bump == old(allocation).bump,
        match r {
            Ok(legs) => {
                let a = old(allocation).allocations@[index as int];
                &&& withdraw_from_allocation_error(
                    *old(allocation),
                    *old(user),
                    *caller,
                    index,
                    amount,
                    vault_balance,
                ) is None
                &&& legs@ == seq![Movement { from: Party::Vault, to: Party::User, amount }]
                &&& final(allocation).allocations@ == old(allocation).allocations@.update(
                    index as int,
                    Allocation { total_withdrawn: (a.total_withdrawn + amount) as u64, ..a },
                )
                &&& *final(user) == (UserConfig {
                    total_withdrawn: (old(user).total_withdrawn + amount) as u64,
                    ..*old(user)
                })
            },
            Err(e) => {
                &&& withdraw_from_allocation_error(
                    *old(allocation),
                    *old(user),
                    *caller,
                    index,
                    amount,
                    vault_balance,
                ) == Some(e)
                &&& final(allocation).allocations@ == old(allocation).allocations@
                &&& *final(user) == *old(user)
            },
        },
{
    if !(*caller == allocation.owner) || !(*caller == user.owner) {
        return Err(ErrorCode::Unauthorized);
    }
    if amount == 0 {
        return Err(ErrorCode::InvalidAmount);
    }
    let i = index as usize;
    if i >= allocation.allocations.len() || !allocation.allocations[i].is_active {
        return Err(ErrorCode::AllocationNotFound);
    }
    let saved = allocation.allocations[i].total_saved;
    let withdrawn = allocation.allocations[i].total_withdrawn;
    if saved < withdrawn || saved - withdrawn < amount {
        return Err(ErrorCode::InsufficientFunds);
    }
    if vault_balance < amount {
        return Err(ErrorCode::InsufficientFunds);
    }
    let bucket_withdrawn = match withdrawn.checked_add(amount) {
        Some(v) => v,
        None => {
            return Err(ErrorCode::Overflow);
        },
    };
    let user_withdrawn = match user.total_withdrawn.checked_add(amount) {
        Some(v) => v,
        None => {
            return Err(ErrorCode::Overflow);
        },
    };
    let mut legs: Vec<Movement> = Vec::new();
    legs.push(Movement { from: Party::Vault, to: Party::User, amount });
    assert(legs@ =~= seq![Movement { from: Party::Vault, to: Party::User, amount }]);
    let ghost before = allocation.allocations@;
    allocation.allocations[i].total_withdrawn = bucket_withdrawn;
    assert(allocation.allocations@ =~= before.update(
        index as int,
        Allocation { total_withdrawn: bucket_withdrawn, ..before[index as int] },
    ));
    user.total_withdrawn = user_withdrawn;
    Ok(legs)
}

} // verus!
