use vstd::prelude::*;

use crate::address::Address;
use crate::error::ErrorCode;
use crate::fee::{compute_fee, fee_of, net_of, savings_share, share_of, withdrawal_total};
use crate::guard::{
    require_active, require_authority, require_not_paused, require_owner, require_within_cap,
};
use crate::ledger::{TokenVaultConfig, TreasuryConfig, UserConfig};

verus! {

/// A holder of funds that an operation moves money between.
#[derive(Clone, Copy, Debug, PartialEq, Eq, Structural)]
pub enum Party {
    /// The requesting user's own wallet.
    User,
    /// The user's program-controlled vault.
    Vault,
    /// The protocol's fee vault.
    Treasury,
    /// The treasury authority's wallet.
    Authority,
    /// The program-controlled account that holds a user's secondary asset.
    TokenVault,
    /// The user's own account for that secondary asset.
    UserTokenAccount,
}

/// One leg of a fund movement, which the host carries out in order. Out of a
/// program-controlled party the program signs with that party's seeds.
#[derive(Clone, Copy, Debug, PartialEq, Eq, Structural)]
pub struct Movement {
    pub from: Party,
    pub to: Party,
    pub amount: u64,
}

/// The legs of a deposit of `gross`: the fee to the treasury where there is
/// one, then the net amount to the vault.
pub open spec fn deposit_movements(gross: u64) -> Seq<Movement> {
    let net = Movement { from: Party::User, to: Party::Vault, amount: net_of(gross as int) as u64 };
    if fee_of(gross as int) > 0 {
        seq![
            Movement { from: Party::User, to: Party::Treasury, amount: fee_of(gross as int) as u64 },
            net,
        ]
    } else {
        seq![net]
    }
}

/// The legs of a withdrawal of `amount`: the amount to the user, then the fee
/// on it to the treasury where there is one. Both leave the vault.
pub open spec fn withdraw_movements(amount: u64) -> Seq<Movement> {
    let out = Movement { from: Party::Vault, to: Party::User, amount };
    if fee_of(amount as int) > 0 {
        seq![
            out,
            Movement { from: Party::Vault, to: Party::Treasury, amount: fee_of(amount as int) as u64 },
        ]
    } else {
        seq![out]
    }
}

/// The total that the legs move out of `party`.
pub open spec fn outflow(legs: Seq<Movement>, party: Party) -> int
    decreases legs.len(),
{
    if legs.len() == 0 {
        0
    } else {
        outflow(legs.drop_last(), party) + if legs.last().from == party {
            legs.last().amount as int
        } else {
            0
        }
    }
}

/// The total that the legs move into `party`.
pub open spec fn inflow(legs: Seq<Movement>, party: Party) -> int
    decreases legs.len(),
{
    if legs.len() == 0 {
        0
    } else {
        inflow(legs.drop_last(), party) + if legs.last().to == party {
            legs.last().amount as int
        } else {
            0
        }
    }
}

/// The user ledger once `saved` more is credited to it by one transaction.
pub open spec fn user_after_saving(user: UserConfig, saved: int) -> UserConfig {
    UserConfig {
        total_saved: (user.total_saved + saved) as u64,
        transaction_count: (user.transaction_count + 1) as u64,
        ..user
    }
}

/// The user ledger once `amount` is paid out to it by one transaction.
pub open spec fn user_after_withdrawal(user: UserConfig, amount: int) -> UserConfig {
    UserConfig {
        total_withdrawn: (user.total_withdrawn + amount) as u64,
        transaction_count: (user.transaction_count + 1) as u64,
        ..user
    }
}

/// The treasury once a deposit of `gross` is booked: the fee is collected and
/// the net amount is locked.
pub open spec fn treasury_after_deposit(treasury: TreasuryConfig, gross: u64) -> TreasuryConfig {
    TreasuryConfig {
        total_fees_collected: (treasury.total_fees_collected + fee_of(gross as int)) as u64,
        total_tvl: (treasury.total_tvl + net_of(gross as int)) as u64,
        ..treasury
    }
}

/// The treasury once a withdrawal of `amount` is booked: the fee on it is
/// collected and the amount is released.
pub open spec fn treasury_after_withdrawal(treasury: TreasuryConfig, amount: u64) -> TreasuryConfig {
    TreasuryConfig {
        total_fees_collected: (treasury.total_fees_collected + fee_of(amount as int)) as u64,
        total_tvl: (treasury.total_tvl - amount) as u64,
        ..treasury
    }
}

/// The error that a deposit of `gross` fails with, checked in this order;
/// none where it succeeds.
pub open spec fn deposit_error(
    user: UserConfig,
    treasury: TreasuryConfig,
    caller: Address,
    gross: u64,
) -> Option<ErrorCode> {
    if caller@ != user.owner@ {
        Some(ErrorCode::Unauthorized)
    } else if gross == 0 {
        Some(ErrorCode::InvalidAmount)
    } else if treasury.is_paused {
        Some(ErrorCode::ProtocolPaused)
    } else if treasury.total_tvl + gross > treasury.tvl_cap {
        Some(ErrorCode::TvlCapExceeded)
    } else if !user.is_active {
        Some(ErrorCode::AccountNotActive)
    } else if treasury.total_fees_collected + fee_of(gross as int) > u64::MAX
        || user.total_saved + net_of(gross as int) > u64::MAX
        || user.transaction_count + 1 > u64::MAX {
        Some(ErrorCode::Overflow)
    } else {
        None
    }
}

/// The error that a withdrawal of `amount` from a vault holding
/// `vault_balance` fails with, checked in this order; none where it succeeds.
pub open spec fn withdraw_error(
    user: UserConfig,
    treasury: TreasuryConfig,
    caller: Address,
    amount: u64,
    vault_balance: u64,
) -> Option<ErrorCode> {
    if caller@ != user.owner@ {
        Some(ErrorCode::Unauthorized)
    } else if amount == 0 {
        Some(ErrorCode::InvalidAmount)
    } else if !user.is_active {
        Some(ErrorCode::AccountNotActive)
    } else if amount + fee_of(amount as int) > u64::MAX {
        Some(ErrorCode::Overflow)
    } else if vault_balance < amount + fee_of(amount as int) {
        Some(ErrorCode::InsufficientFunds)
    } else if treasury.total_fees_collected + fee_of(amount as int) > u64::MAX
        || user.total_withdrawn + amount > u64::MAX
        || treasury.total_tvl < amount
        || user.transaction_count + 1 > u64::MAX {
        Some(ErrorCode::Overflow)
    } else {
        None
    }
}

fn checked_add(a: u64, b: u64) -> (r: Result<u64, ErrorCode>)
    ensures
        match r {
            Ok(v) => v == a + b,
            Err(e) => a + b > u64::MAX && e == ErrorCode::Overflow,
        },
{
    match a.checked_add(b) {
        Some(v) => Ok(v),
        None => Err(ErrorCode::Overflow),
    }
}

/// Deposits `gross` from the user's wallet: the protocol fee goes to the
/// treasury and the rest to the user's vault. Pause and the cap on total
/// value locked are checked first, the cap against the gross amount, while
/// the treasury locks only the net amount.
pub fn deposit(
    user: &mut UserConfig,
    treasury: &mut TreasuryConfig,
    caller: &Address,
    gross: u64,
) -> (r: Result<Vec<Movement>, ErrorCode>)
    ensures
        match r {
            Ok(legs) => {
                &&& deposit_error(*old(user), *old(treasury), *caller, gross) is None
                &&& legs@ == deposit_movements(gross)
                &&& *final(user) == user_after_saving(*old(user), net_of(gross as int))
                &&& *final(treasury) == treasury_after_deposit(*old(treasury), gross)
                &&& final(treasury).total_tvl <= final(treasury).tvl_cap
            },
            Err(e) => {
                &&& deposit_error(*old(user), *old(treasury), *caller, gross) == Some(e)
                &&& *final(user) == *old(user)
                &&& *final(treasury) == *old(treasury)
            },
        },
{
    require_owner(&user.owner, caller)?;
    if gross == 0 {
        return Err(ErrorCode::InvalidAmount);
    }
    require_not_paused(treasury)?;
    require_within_cap(treasury, gross)?;
    require_active(user)?;
    let split = compute_fee(gross);
    let fees = checked_add(treasury.total_fees_collected, split.fee)?;
    let saved = checked_add(user.total_saved, split.net)?;
    let count = checked_add(user.transaction_count, 1)?;
    let mut legs: Vec<Movement> = Vec::new();
    if split.fee > 0 {
        legs.push(Movement { from: Party::User, to: Party::Treasury, amount: split.fee });
    }
    legs.push(Movement { from: Party::User, to: Party::Vault, amount: split.net });
    assert(legs@ =~= deposit_movements(gross));
    user.total_saved = saved;
    user.transaction_count = count;
    treasury.total_fees_collected = fees;
    treasury.total_tvl = treasury.total_tvl + split.net;
    Ok(legs)
}

/// Pays `amount` out of the user's vault, which holds `vault_balance`, and
/// the fee on it to the treasury. Pause does not block a withdrawal.
pub fn withdraw(
    user: &mut UserConfig,
    treasury: &mut TreasuryConfig,
    caller: &Address,
    amount: u64,
    vault_balance: u64,
) -> (r: Result<Vec<Movement>, ErrorCode>)
    ensures
        match r {
            Ok(legs) => {
                &&& withdraw_error(*old(user), *old(treasury), *caller, amount, vault_balance) is None
                &&& legs@ == withdraw_movements(amount)
                &&& *final(user) == user_after_withdrawal(*old(user), amount as int)
                &&& *final(treasury) == treasury_after_withdrawal(*old(treasury), amount)
            },
            Err(e) => {
                &&& withdraw_error(*old(user), *old(treasury), *caller, amount, vault_balance)
                    == Some(e)
                &&& *final(user) == *old(user)
                &&& *final(treasury) == *old(treasury)
            },
        },
{
    require_owner(&user.owner, caller)?;
    if amount == 0 {
        return Err(ErrorCode::InvalidAmount);
    }
    require_active(user)?;
    let needed = withdrawal_total(amount)?;
    if vault_balance < needed {
        return Err(ErrorCode::InsufficientFunds);
    }
    let split = compute_fee(amount);
    let fees = checked_add(treasury.total_fees_collected, split.fee)?;
    let withdrawn = checked_add(user.total_withdrawn, amount)?;
    if treasury.total_tvl < amount {
        return Err(ErrorCode::Overflow);
    }
    let count = checked_add(user.transaction_count, 1)?;
    let mut legs: Vec<Movement> = Vec::new();
    legs.push(Movement { from: Party::Vault, to: Party::User, amount });
    if split.fee > 0 {
        legs.push(Movement { from: Party::Vault, to: Party::Treasury, amount: split.fee });
    }
    assert(legs@ =~= withdraw_movements(amount));
    user.total_withdrawn = withdrawn;
    user.transaction_count = count;
    treasury.total_fees_collected = fees;
    treasury.total_tvl = treasury.total_tvl - amount;
    Ok(legs)
}

/// The error that saving the user's share of a transfer of `amount` fails
/// with, checked in this order; none where it succeeds.
pub open spec fn process_transfer_error(user: UserConfig, caller: Address, amount: u64) -> Option<
    ErrorCode,
> {
    if caller@ != user.owner@ {
        Some(ErrorCode::Unauthorized)
    } else if amount == 0 {
        Some(ErrorCode::InvalidAmount)
    } else if !user.is_active {
        Some(ErrorCode::AccountNotActive)
    } else if share_of(amount as int, user.savings_rate as int) == 0 {
        Some(ErrorCode::InvalidAmount)
    } else if user.total_saved + share_of(amount as int, user.savings_rate as int) > u64::MAX
        || user.transaction_count + 1 > u64::MAX {
        Some(ErrorCode::Overflow)
    } else {
        None
    }
}

/// Saves the user's configured share of a transfer of `amount`: that
/// percentage, rounded down, moves from the wallet to the vault, with no fee.
pub fn process_transfer(user: &mut UserConfig, caller: &Address, amount: u64) -> (r: Result<
    Vec<Movement>,
    ErrorCode,
>)
    requires
        old(user).wf(),
    ensures
        match r {
            Ok(legs) => {
                let saved = share_of(amount as int, old(user).savings_rate as int);
                &&& process_transfer_error(*old(user), *caller, amount) is None
                &&& legs@ == seq![Movement { from: Party::User, to: Party::Vault, amount: saved as u64 }]
                &&& *final(user) == user_after_saving(*old(user), saved)
            },
            Err(e) => {
                &&& process_transfer_error(*old(user), *caller, amount) == Some(e)
                &&& *final(user) == *old(user)
            },
        },
{
    require_owner(&user.owner, caller)?;
    if amount == 0 {
        return Err(ErrorCode::InvalidAmount);
    }
    require_active(user)?;
    let saved = savings_share(amount, user.savings_rate);
    if saved == 0 {
        return Err(ErrorCode::InvalidAmount);
    }
    let total = checked_add(user.total_saved, saved)?;
    let count = checked_add(user.transaction_count, 1)?;
    let mut legs: Vec<Movement> = Vec::new();
    legs.push(Movement { from: Party::User, to: Party::Vault, amount: saved });
    assert(legs@ =~= seq![Movement { from: Party::User, to: Party::Vault, amount: saved }]);
    user.total_saved = total;
    user.transaction_count = count;
    Ok(legs)
}

/// The error that draining `amount` from a treasury vault holding
/// `treasury_balance` fails with, checked in this order; none where it
/// succeeds.
pub open spec fn withdraw_treasury_error(
    treasury: TreasuryConfig,
    caller: Address,
    amount: u64,
    treasury_balance: u64,
) -> Option<ErrorCode> {
    if amount == 0 {
        Some(ErrorCode::InvalidAmount)
    } else if caller@ != treasury.authority@ {
        Some(ErrorCode::Unauthorized)
    } else if treasury_balance < amount {
        Some(ErrorCode::InsufficientFunds)
    } else {
        None
    }
}

/// Drains `amount` of collected fees from the treasury vault, which holds
/// `treasury_balance`, to the authority. The ledger is left as it is.
pub fn withdraw_treasury(
    treasury: &TreasuryConfig,
    caller: &Address,
    amount: u64,
    treasury_balance: u64,
) -> (r: Result<Vec<Movement>, ErrorCode>)
    ensures
        match r {
            Ok(legs) => {
                &&& withdraw_treasury_error(*treasury, *caller, amount, treasury_balance) is None
                &&& legs@ == seq![Movement { from: Party::Treasury, to: Party::Authority, amount }]
            },
            Err(e) => withdraw_treasury_error(*treasury, *caller, amount, treasury_balance)
                == Some(e),
        },
{
    if amount == 0 {
        return Err(ErrorCode::InvalidAmount);
    }
    require_authority(treasury, caller)?;
    if treasury_balance < amount {
        return Err(ErrorCode::InsufficientFunds);
    }
    let mut legs: Vec<Movement> = Vec::new();
    legs.push(Movement { from: Party::Treasury, to: Party::Authority, amount });
    assert(legs@ =~= seq![Movement { from: Party::Treasury, to: Party::Authority, amount }]);
    Ok(legs)
}

/// The error that paying out `amount` of a secondary asset from an account
/// holding `token_balance` fails with, checked in this order; none where it
/// succeeds.
pub open spec fn withdraw_token_error(
    user: UserConfig,
    token_vault: TokenVaultConfig,
    caller: Address,
    amount: u64,
    token_balance: u64,
) -> Option<ErrorCode> {
    if caller@ != user.owner@ || caller@ != token_vault.owner@ {
        Some(ErrorCode::Unauthorized)
    } else if amount == 0 {
        Some(ErrorCode::InvalidAmount)
    } else if !user.is_active {
        Some(ErrorCode::AccountNotActive)
    } else if token_balance < amount {
        Some(ErrorCode::InsufficientFunds)
    } else if token_vault.total_withdrawn + amount > u64::MAX {
        Some(ErrorCode::Overflow)
    } else {
        None
    }
}

/// Pays `amount` of a secondary asset out of the user's token vault, whose
/// account holds `token_balance`, to the user's own account for it.
pub fn withdraw_token(
    user: &UserConfig,
    token_vault: &mut TokenVaultConfig,
    caller: &Address,
    amount: u64,
    token_balance: u64,
) -> (r: Result<Vec<Movement>, ErrorCode>)
    ensures
        match r {
            Ok(legs) => {
                &&& withdraw_token_error(*user, *old(token_vault), *caller, amount, token_balance)
                    is None
                &&& legs@ == seq![
                    Movement { from: Party::TokenVault, to: Party::UserTokenAccount, amount },
                ]
                &&& *final(token_vault) == (TokenVaultConfig {
                    total_withdrawn: (old(token_vault).total_withdrawn + amount) as u64,
                    ..*old(token_vault)
                })
            },
            Err(e) => {
                &&& withdraw_token_error(*user, *old(token_vault), *caller, amount, token_balance)
                    == Some(e)
                &&& *final(token_vault) == *old(token_vault)
            },
        },
{
    if !(*caller == user.owner) || !(*caller == token_vault.owner) {
        return Err(ErrorCode::Unauthorized);
    }
    if amount == 0 {
        return Err(ErrorCode::InvalidAmount);
    }
    require_active(user)?;
    if token_balance < amount {
        return Err(ErrorCode::InsufficientFunds);
    }
    let withdrawn = checked_add(token_vault.total_withdrawn, amount)?;
    let mut legs: Vec<Movement> = Vec::new();
    legs.push(Movement { from: Party::TokenVault, to: Party::UserTokenAccount, amount });
    assert(legs@ =~= seq![Movement { from: Party::TokenVault, to: Party::UserTokenAccount, amount }]);
    token_vault.total_withdrawn = withdrawn;
    Ok(legs)
}

} // verus!
