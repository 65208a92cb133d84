//! A custodial savings ledger: users deposit into a program-controlled vault,
//! a fixed protocol fee is skimmed into a shared treasury, and per-user,
//! per-protocol and per-allocation statistics are kept.
//!
//! Every operation is a state transition on plain ledger records. It either
//! fails with an [`ErrorCode`] and leaves every record untouched, or commits
//! all of its updates and returns the fund movements that the host must carry
//! out for it.

pub mod address;
pub mod admin;
pub mod allocation;
pub mod derive;
pub mod error;
pub mod fee;
pub mod guard;
pub mod lemmas;
pub mod ledger;
pub mod transfer;

pub use address::Address;
pub use admin::{
    deactivate, initialize_allocations, initialize_token_vault, initialize_treasury,
    initialize_user, reactivate, set_auto_swap, toggle_pause, update_savings_rate,
    update_tvl_cap,
};
pub use allocation::{deposit_with_allocation, withdraw_from_allocation};
pub use derive::{
    address_seeds, derive_address, is_derived_address, signer_seeds, Namespace,
};
pub use error::ErrorCode;
pub use fee::{
    compute_fee, savings_share, withdrawal_total, FeeSplit, BASIS_POINTS_DIVISOR,
    PLATFORM_FEE_BASIS_POINTS,
};
pub use guard::{
    require_active, require_authority, require_not_paused, require_owner, require_within_cap,
};
pub use lemmas::{
    lemma_bucket_balance_bounds_withdrawal, lemma_cap_breach_rejected, lemma_inactive_rejects,
    lemma_net_balance_cannot_pay_itself_out, lemma_pause_blocks_deposits_only,
    lemma_pool_balance_bounds_withdrawal, lemma_round_trip_is_lossy,
};
pub use ledger::{
    Allocation, AllocationConfig, SwapConfig, TokenVaultConfig, TreasuryConfig, UserConfig,
    MAX_ALLOCATIONS, MAX_NAME_LEN, MAX_SAVINGS_RATE, MIN_SAVINGS_RATE, TVL_CAP_LAMPORTS,
};
pub use transfer::{
    deposit, process_transfer, withdraw, withdraw_token, withdraw_treasury, Movement, Party,
};
