use vstd::prelude::*;

use crate::address::Address;
use crate::admin::update_savings_rate_error;
use crate::allocation::withdraw_from_allocation_error;
use crate::error::ErrorCode;
use crate::fee::{fee_of, lemma_fee_bounds, net_of};
use crate::ledger::{AllocationConfig, TreasuryConfig, UserConfig};
use crate::transfer::{
    deposit_error, deposit_movements, inflow, outflow, withdraw_error, withdraw_movements, Movement,
    Party,
};

verus! {

proof fn lemma_flows_of_one(a: Movement, party: Party)
    ensures
        outflow(seq![a], party) == if a.from == party { a.amount as int } else { 0 },
        inflow(seq![a], party) == if a.to == party { a.amount as int } else { 0 },
{
    assert(seq![a].drop_last() =~= Seq::<Movement>::empty());
    reveal_with_fuel(outflow, 2);
    reveal_with_fuel(inflow, 2);
}

proof fn lemma_flows_of_two(a: Movement, b: Movement, party: Party)
    ensures
        outflow(seq![a, b], party) == (if a.from == party { a.amount as int } else { 0 }) + (
        if b.from == party { b.amount as int } else { 0 }),
        inflow(seq![a, b], party) == (if a.to == party { a.amount as int } else { 0 }) + (
        if b.to == party { b.amount as int } else { 0 }),
{
    assert(seq![a, b].drop_last() =~= seq![a]);
    lemma_flows_of_one(a, party);
}

/// A round trip loses the fee twice: a deposit of `gross` takes all of it from
/// the user and puts only its net amount `x` into the vault, and paying `x`
/// back out to the user takes `x` plus the fee on `x` from the vault.
pub proof fn lemma_round_trip_is_lossy(gross: u64)
    requires
        gross > 0,
    ensures
        outflow(deposit_movements(gross), Party::User) == gross,
        inflow(deposit_movements(gross), Party::Vault) == net_of(gross as int),
        outflow(withdraw_movements(net_of(gross as int) as u64), Party::Vault) == net_of(
            gross as int,
        ) + fee_of(net_of(gross as int)),
        inflow(withdraw_movements(net_of(gross as int) as u64), Party::User) == net_of(
            gross as int,
        ),
{
    let x = net_of(gross as int);
    lemma_fee_bounds(gross as int);
    lemma_fee_bounds(x);
    let fee_leg = Movement {
        from: Party::User,
        to: Party::Treasury,
        amount: fee_of(gross as int) as u64,
    };
    let net_leg = Movement { from: Party::User, to: Party::Vault, amount: x as u64 };
    if fee_of(gross as int) > 0 {
        lemma_flows_of_two(fee_leg, net_leg, Party::User);
        lemma_flows_of_two(fee_leg, net_leg, Party::Vault);
    } else {
        lemma_flows_of_one(net_leg, Party::User);
        lemma_flows_of_one(net_leg, Party::Vault);
    }
    let out_leg = Movement { from: Party::Vault, to: Party::User, amount: x as u64 };
    let back_fee = Movement {
        from: Party::Vault,
        to: Party::Treasury,
        amount: fee_of(x) as u64,
    };
    if fee_of(x) > 0 {
        lemma_flows_of_two(out_leg, back_fee, Party::Vault);
        lemma_flows_of_two(out_leg, back_fee, Party::User);
    } else {
        lemma_flows_of_one(out_leg, Party::Vault);
        lemma_flows_of_one(out_leg, Party::User);
    }
}

/// A vault that holds exactly the amount asked for cannot pay it out once
/// that amount bears a fee: the withdrawal is rejected, for want of funds
/// where the sum fits in 64 bits.
pub proof fn lemma_net_balance_cannot_pay_itself_out(
    user: UserConfig,
    treasury: TreasuryConfig,
    caller: Address,
    amount: u64,
)
    requires
        fee_of(amount as int) > 0,
    ensures
        withdraw_error(user, treasury, caller, amount, amount) is Some,
        caller@ == user.owner@ && user.is_active && amount + fee_of(amount as int) <= u64::MAX
            ==> withdraw_error(user, treasury, caller, amount, amount) == Some(
            ErrorCode::InsufficientFunds,
        ),
{
}

/// A deactivated ledger rejects deposits, withdrawals and changes of the
/// savings rate, whatever their arguments. (Reactivation asks only that the
/// caller own the ledger: see `reactivate`.)
pub proof fn lemma_inactive_rejects(
    user: UserConfig,
    treasury: TreasuryConfig,
    caller: Address,
    amount: u64,
    vault_balance: u64,
    new_rate: u8,
)
    requires
        !user.is_active,
    ensures
        deposit_error(user, treasury, caller, amount) is Some,
        withdraw_error(user, treasury, caller, amount, vault_balance) is Some,
        update_savings_rate_error(user, caller, new_rate) is Some,
{
}

/// A pause rejects every deposit, and leaves withdrawals exactly as they
/// would be without it.
pub proof fn lemma_pause_blocks_deposits_only(
    user: UserConfig,
    treasury: TreasuryConfig,
    caller: Address,
    amount: u64,
    vault_balance: u64,
)
    requires
        treasury.is_paused,
    ensures
        deposit_error(user, treasury, caller, amount) is Some,
        withdraw_error(user, treasury, caller, amount, vault_balance) == withdraw_error(
            user,
            TreasuryConfig { is_paused: false, ..treasury },
            caller,
            amount,
            vault_balance,
        ),
{
}

/// A deposit from the owner that is not paused and whose gross amount would
/// lift the value locked above the cap fails with `TvlCapExceeded`; a failed
/// deposit leaves every ledger as it was (see `deposit`).
pub proof fn lemma_cap_breach_rejected(
    user: UserConfig,
    treasury: TreasuryConfig,
    caller: Address,
    gross: u64,
)
    requires
        caller@ == user.owner@,
        gross > 0,
        !treasury.is_paused,
        treasury.total_tvl + gross > treasury.tvl_cap,
    ensures
        deposit_error(user, treasury, caller, gross) == Some(ErrorCode::TvlCapExceeded),
{
}

/// A withdrawal of more than a bucket shows as available fails with
/// `InsufficientFunds`, however much the pooled vault holds.
pub proof fn lemma_bucket_balance_bounds_withdrawal(
    allocation: AllocationConfig,
    user: UserConfig,
    caller: Address,
    index: u8,
    amount: u64,
    vault_balance: u64,
)
    requires
        caller@ == allocation.owner@,
        caller@ == user.owner@,
        amount > 0,
        index < allocation.allocations.len(),
        allocation.allocations@[index as int].is_active,
        amount > allocation.allocations@[index as int].available(),
    ensures
        withdraw_from_allocation_error(allocation, user, caller, index, amount, vault_balance)
            == Some(ErrorCode::InsufficientFunds),
{
}

/// A withdrawal that a bucket covers still fails with `InsufficientFunds`
/// when the pooled vault holds less than the amount: the buckets' balances
/// reserve nothing.
pub proof fn lemma_pool_balance_bounds_withdrawal(
    allocation: AllocationConfig,
    user: UserConfig,
    caller: Address,
    index: u8,
    amount: u64,
    vault_balance: u64,
)
    requires
        caller@ == allocation.owner@,
        caller@ == user.owner@,
        amount > 0,
        index < allocation.allocations.len(),
        allocation.allocations@[index as int].is_active,
        vault_balance < amount,
    ensures
        withdraw_from_allocation_error(allocation, user, caller, index, amount, vault_balance)
            == Some(ErrorCode::InsufficientFunds),
{
}

} // verus!
