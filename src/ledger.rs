use vstd::prelude::*;

use vstd::string::StrSliceExecFns;

use crate::address::Address;

verus! {

/// The cap on total value locked that a new treasury starts with
/// (ten whole units of the native currency, in its smallest unit).
pub const TVL_CAP_LAMPORTS: u64 = 10_000_000_000;

/// The lowest savings rate, in percent.
pub const MIN_SAVINGS_RATE: u8 = 1;

/// The highest savings rate, in percent.
pub const MAX_SAVINGS_RATE: u8 = 90;

/// The most allocations that one allocation ledger holds.
pub const MAX_ALLOCATIONS: usize = 10;

/// The longest allocation name, in characters.
pub const MAX_NAME_LEN: usize = 32;

/// Whether `rate` is an accepted savings rate.
pub open spec fn valid_rate(rate: u8) -> bool {
    MIN_SAVINGS_RATE <= rate <= MAX_SAVINGS_RATE
}

/// A user's savings ledger.
#[derive(Clone, Copy, Debug)]
pub struct UserConfig {
    pub owner: Address,
    /// The share of each processed transfer that is saved, in percent.
    pub savings_rate: u8,
    pub total_saved: u64,
    pub total_withdrawn: u64,
    pub transaction_count: u64,
    /// Gates every mutating operation but reactivation.
    pub is_active: bool,
    /// The discriminant of the ledger's own address.
    pub bump: u8,
    /// The discriminant of the user's vault address.
    pub vault_bump: u8,
}

impl UserConfig {
    /// The ledger's invariant: the savings rate stays within its range.
    pub open spec fn wf(&self) -> bool {
        valid_rate(self.savings_rate)
    }

    /// Tests the ledger's invariant, for records read from outside.
    pub fn is_well_formed(&self) -> (r: bool)
        ensures
            r == self.wf(),
    {
        MIN_SAVINGS_RATE <= self.savings_rate && self.savings_rate <= MAX_SAVINGS_RATE
    }
}

/// The protocol treasury's ledger.
#[derive(Clone, Copy, Debug)]
pub struct TreasuryConfig {
    pub authority: Address,
    pub total_fees_collected: u64,
    pub bump: u8,
    /// Blocks deposits, and nothing else.
    pub is_paused: bool,
    /// The net value deposited and not yet withdrawn.
    pub total_tvl: u64,
    /// The bound that a deposit may not lift `total_tvl + gross` above.
    pub tvl_cap: u64,
}

/// A user's ledger for one secondary asset.
#[derive(Clone, Copy, Debug)]
pub struct TokenVaultConfig {
    pub owner: Address,
    pub mint: Address,
    pub token_account: Address,
    pub total_deposited: u64,
    pub total_withdrawn: u64,
    pub bump: u8,
}

/// A user's auto-exchange settings. The exchange itself is not part of this
/// library: these settings are recorded and nothing acts on them.
#[derive(Clone, Copy, Debug)]
pub struct SwapConfig {
    pub user: Address,
    pub auto_swap_enabled: bool,
    pub target_token_mint: Address,
    pub min_swap_amount: u64,
    pub bump: u8,
}

/// A named virtual bucket that tracks a percentage of each net deposit into
/// the user's pooled vault. It holds no funds of its own.
#[derive(Clone, Debug)]
pub struct Allocation {
    pub name: String,
    pub percentage: u8,
    pub is_active: bool,
    pub total_saved: u64,
    pub total_withdrawn: u64,
}

impl Allocation {
    /// The bucket's invariant: a bounded name, a percentage of at most one
    /// hundred, and no more withdrawn than saved.
    pub open spec fn wf(&self) -> bool {
        &&& self.name@.len() <= MAX_NAME_LEN
        &&& self.percentage <= 100
        &&& self.total_withdrawn <= self.total_saved
    }

    /// Tests the bucket's invariant, for records read from outside.
    pub fn is_well_formed(&self) -> (r: bool)
        ensures
            r == self.wf(),
    {
        self.name.as_str().unicode_len() <= MAX_NAME_LEN && self.percentage <= 100
            && self.total_withdrawn <= self.total_saved
    }

    /// What the bucket still shows as available.
    pub open spec fn available(&self) -> int {
        self.total_saved - self.total_withdrawn
    }
}

/// A user's allocation ledger. The percentages are labels: nothing requires
/// them to add up to one hundred.
#[derive(Clone, Debug)]
pub struct AllocationConfig {
    pub owner: Address,
    pub allocations: Vec<Allocation>,
    pub bump: u8,
}

impl AllocationConfig {
    /// The ledger's invariant: a bounded list of well-formed buckets.
    pub open spec fn wf(&self) -> bool {
        &&& self.allocations.len() <= MAX_ALLOCATIONS
        &&& forall|i: int| 0 <= i < self.allocations.len() ==> (#[trigger] self.allocations@[i]).wf()
    }

    /// Tests the ledger's invariant, for records read from outside.
    pub fn is_well_formed(&self) -> (r: bool)
        ensures
            r == self.wf(),
    {
        if self.allocations.len() > MAX_ALLOCATIONS {
            return false;
        }
        let mut i: usize = 0;
        while i < self.allocations.len()
            invariant
                0 <= i <= self.allocations.len(),
                forall|j: int| 0 <= j < i ==> (#[trigger] self.allocations@[j]).wf(),
            decreases self.allocations.len() - i,
        {
            if !self.allocations[i].is_well_formed() {
                return false;
            }
            i = i + 1;
        }
        true
    }
}

} // verus!
