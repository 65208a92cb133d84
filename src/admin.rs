use vstd::prelude::*;

use crate::address::Address;
use crate::error::ErrorCode;
use crate::guard::{require_active, require_authority, require_owner};
use crate::ledger::{
    valid_rate, AllocationConfig, SwapConfig, TokenVaultConfig, TreasuryConfig, UserConfig,
    MAX_SAVINGS_RATE, MIN_SAVINGS_RATE, TVL_CAP_LAMPORTS,
};

verus! {

/// Creates the protocol treasury's ledger, with `authority` as its authority:
/// nothing collected or locked, not paused, and the default cap.
pub fn initialize_treasury(authority: &Address, bump: u8) -> (r: TreasuryConfig)
    ensures
        r == (TreasuryConfig {
            authority: *authority,
            total_fees_collected: 0,
            bump,
            is_paused: false,
            total_tvl: 0,
            tvl_cap: TVL_CAP_LAMPORTS,
        }),
{
    TreasuryConfig {
        authority: *authority,
        total_fees_collected: 0,
        bump,
        is_paused: false,
        total_tvl: 0,
        tvl_cap: TVL_CAP_LAMPORTS,
    }
}

/// Creates an active user ledger with no history, owned by `owner`. Fails
/// with `InvalidSavingsRate` when the rate is outside `1..=90`.
pub fn initialize_user(owner: &Address, savings_rate: u8, bump: u8, vault_bump: u8) -> (r: Result<
    UserConfig,
    ErrorCode,
>)
    ensures
        match r {
            Ok(user) => {
                &&& valid_rate(savings_rate)
                &&& user.wf()
                &&& user == (UserConfig {
                    owner: *owner,
                    savings_rate,
                    total_saved: 0,
                    total_withdrawn: 0,
                    transaction_count: 0,
                    is_active: true,
                    bump,
                    vault_bump,
                })
            },
            Err(e) => !valid_rate(savings_rate) && e == ErrorCode::InvalidSavingsRate,
        },
{
    if savings_rate < MIN_SAVINGS_RATE || savings_rate > MAX_SAVINGS_RATE {
        return Err(ErrorCode::InvalidSavingsRate);
    }
    Ok(
        UserConfig {
            owner: *owner,
            savings_rate,
            total_saved: 0,
            total_withdrawn: 0,
            transaction_count: 0,
            is_active: true,
            bump,
            vault_bump,
        },
    )
}

/// The error that changing the savings rate to `new_rate` fails with,
/// checked in this order; none where it succeeds.
pub open spec fn update_savings_rate_error(user: UserConfig, caller: Address, new_rate: u8) -> Option<
    ErrorCode,
> {
    if caller@ != user.owner@ {
        Some(ErrorCode::Unauthorized)
    } else if !valid_rate(new_rate) {
        Some(ErrorCode::InvalidSavingsRate)
    } else if !user.is_active {
        Some(ErrorCode::AccountNotActive)
    } else {
        None
    }
}

/// Changes the user's savings rate; owner only, on an active ledger.
pub fn update_savings_rate(user: &mut UserConfig, caller: &Address, new_rate: u8) -> (r: Result<
    (),
    ErrorCode,
>)
    ensures
        match r {
            Ok(()) => {
                &&& update_savings_rate_error(*old(user), *caller, new_rate) is None
                &&& *final(user) == (UserConfig { savings_rate: new_rate, ..*old(user) })
            },
            Err(e) => {
                &&& update_savings_rate_error(*old(user), *caller, new_rate) == Some(e)
                &&& *final(user) == *old(user)
            },
        },
{
    require_owner(&user.owner, caller)?;
    if new_rate < MIN_SAVINGS_RATE || new_rate > MAX_SAVINGS_RATE {
        return Err(ErrorCode::InvalidSavingsRate);
    }
    require_active(user)?;
    user.savings_rate = new_rate;
    Ok(())
}

/// Deactivates the user's ledger; owner only.
pub fn deactivate(user: &mut UserConfig, caller: &Address) -> (r: Result<(), ErrorCode>)
    ensures
        match r {
            Ok(()) => {
                &&& caller@ == old(user).owner@
                &&& *final(user) == (UserConfig { is_active: false, ..*old(user) })
            },
            Err(e) => {
                &&& caller@ != old(user).owner@
                &&& e == ErrorCode::Unauthorized
                &&& *final(user) == *old(user)
            },
        },
{
    require_owner(&user.owner, caller)?;
    user.is_active = false;
    Ok(())
}

/// Reactivates the user's ledger; owner only, whatever its state.
pub fn reactivate(user: &mut UserConfig, caller: &Address) -> (r: Result<(), ErrorCode>)
    ensures
        match r {
            Ok(()) => {
                &&& caller@ == old(user).owner@
                &&& *final(user) == (UserConfig { is_active: true, ..*old(user) })
            },
            Err(e) => {
                &&& caller@ != old(user).owner@
                &&& e == ErrorCode::Unauthorized
                &&& *final(user) == *old(user)
            },
        },
{
    require_owner(&user.owner, caller)?;
    user.is_active = true;
    Ok(())
}

/// Flips the protocol-wide pause on deposits; authority only.
pub fn toggle_pause(treasury: &mut TreasuryConfig, caller: &Address) -> (r: Result<(), ErrorCode>)
    ensures
        match r {
            Ok(()) => {
                &&& caller@ == old(treasury).authority@
                &&& *final(treasury) == (TreasuryConfig {
                    is_paused: !old(treasury).is_paused,
                    ..*old(treasury)
                })
            },
            Err(e) => {
                &&& caller@ != old(treasury).authority@
                &&& e == ErrorCode::Unauthorized
                &&& *final(treasury) == *old(treasury)
            },
        },
{
    require_authority(treasury, caller)?;
    treasury.is_paused = !treasury.is_paused;
    Ok(())
}

/// The error that setting the cap to `new_cap` fails with, checked in this
/// order; none where it succeeds.
pub open spec fn update_tvl_cap_error(treasury: TreasuryConfig, caller: Address, new_cap: u64) -> Option<
    ErrorCode,
> {
    if caller@ != treasury.authority@ {
        Some(ErrorCode::Unauthorized)
    } else if new_cap < treasury.total_tvl {
        Some(ErrorCode::InvalidAmount)
    } else {
        None
    }
}

/// Sets the cap on total value locked; authority only, and never below the
/// value locked now.
pub fn update_tvl_cap(treasury: &mut TreasuryConfig, caller: &Address, new_cap: u64) -> (r: Result<
    (),
    ErrorCode,
>)
    ensures
        match r {
            Ok(()) => {
                &&& update_tvl_cap_error(*old(treasury), *caller, new_cap) is None
                &&& *final(treasury) == (TreasuryConfig { tvl_cap: new_cap, ..*old(treasury) })
            },
            Err(e) => {
                &&& update_tvl_cap_error(*old(treasury), *caller, new_cap) == Some(e)
                &&& *final(treasury) == *old(treasury)
            },
        },
{
    require_authority(treasury, caller)?;
    if new_cap < treasury.total_tvl {
        return Err(ErrorCode::InvalidAmount);
    }
    treasury.tvl_cap = new_cap;
    Ok(())
}

/// Creates the ledger of `owner`'s vault for the asset `mint`, held in
/// `token_account`, with no history.
pub fn initialize_token_vault(
    owner: &Address,
    mint: &Address,
    token_account: &Address,
    bump: u8,
) -> (r: TokenVaultConfig)
    ensures
        r == (TokenVaultConfig {
            owner: *owner,
            mint: *mint,
            token_account: *token_account,
            total_deposited: 0,
            total_withdrawn: 0,
            bump,
        }),
{
    TokenVaultConfig {
        owner: *owner,
        mint: *mint,
        token_account: *token_account,
        total_deposited: 0,
        total_withdrawn: 0,
        bump,
    }
}

/// Records `user`'s auto-exchange settings, replacing any earlier ones.
pub fn set_auto_swap(
    user: &Address,
    enabled: bool,
    target_token_mint: &Address,
    min_swap_amount: u64,
    bump: u8,
) -> (r: SwapConfig)
    ensures
        r == (SwapConfig {
            user: *user,
            auto_swap_enabled: enabled,
            target_token_mint: *target_token_mint,
            min_swap_amount,
            bump,
        }),
{
    SwapConfig {
        user: *user,
        auto_swap_enabled: enabled,
        target_token_mint: *target_token_mint,
        min_swap_amount,
        bump,
    }
}

/// Creates `owner`'s allocation ledger with no buckets, as happens on the
/// first deposit that tracks allocations.
pub fn initialize_allocations(owner: &Address, bump: u8) -> (r: AllocationConfig)
    ensures
        r.wf(),
        r.owner == *owner,
        r.allocations@.len() == 0,
        r.bump == bump,
{
    AllocationConfig { owner: *owner, allocations: Vec::new(), bump }
}

} // verus!
