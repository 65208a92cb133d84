use vstd::prelude::*;

verus! {

/// The stable error identifiers that every operation of the ledger reports.
#[derive(Clone, Copy, Debug, PartialEq, Eq, Structural)]
pub enum ErrorCode {
    /// A savings rate outside `1..=90`.
    InvalidSavingsRate,
    /// A zero amount, a share that rounds to zero, or a cap below the locked value.
    InvalidAmount,
    /// A vault or treasury balance, or an allocation's recorded balance, that cannot
    /// cover the request.
    InsufficientFunds,
    /// The user's ledger is deactivated.
    AccountNotActive,
    /// The caller is not the owner or the authority of the record.
    Unauthorized,
    /// A checked arithmetic step overflowed.
    Overflow,
    /// Deposits are paused protocol-wide.
    ProtocolPaused,
    /// The deposit would lift the total value locked above the cap.
    TvlCapExceeded,
    /// The allocation index is out of range or the allocation is inactive.
    AllocationNotFound,
}

impl ErrorCode {
    /// The human-readable message attached to the error.
    pub fn message(&self) -> (r: &'static str) {
        match self {
            ErrorCode::InvalidSavingsRate => "Savings rate must be between 1 and 90",
            ErrorCode::InvalidAmount => "Amount must be greater than 0",
            ErrorCode::InsufficientFunds => "Insufficient funds in vault",
            ErrorCode::AccountNotActive => "Account is not active",
            ErrorCode::Unauthorized => "Unauthorized access",
            ErrorCode::Overflow => "Arithmetic overflow",
            ErrorCode::ProtocolPaused => "Protocol is paused",
            ErrorCode::TvlCapExceeded => "TVL cap exceeded",
            ErrorCode::AllocationNotFound => "Allocation not found",
        }
    }
}

} // verus!
