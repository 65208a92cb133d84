use vstd::prelude::*;

use crate::address::Address;
use crate::error::ErrorCode;
use crate::ledger::{TreasuryConfig, UserConfig};

verus! {

/// Rejects a caller that is not the record's owner.
pub fn require_owner(owner: &Address, caller: &Address) -> (r: Result<(), ErrorCode>)
    ensures
        r is Ok <==> caller@ == owner@,
        r matches Err(e) ==> e == ErrorCode::Unauthorized,
{
    if *caller == *owner {
        Ok(())
    } else {
        Err(ErrorCode::Unauthorized)
    }
}

/// Rejects a caller that is not the treasury's authority.
pub fn require_authority(treasury: &TreasuryConfig, caller: &Address) -> (r: Result<(), ErrorCode>)
    ensures
        r is Ok <==> caller@ == treasury.authority@,
        r matches Err(e) ==> e == ErrorCode::Unauthorized,
{
    require_owner(&treasury.authority, caller)
}

/// Rejects a deactivated user ledger.
pub fn require_active(user: &UserConfig) -> (r: Result<(), ErrorCode>)
    ensures
        r is Ok <==> user.is_active,
        r matches Err(e) ==> e == ErrorCode::AccountNotActive,
{
    if user.is_active {
        Ok(())
    } else {
        Err(ErrorCode::AccountNotActive)
    }
}

/// Rejects a deposit while the protocol is paused.
pub fn require_not_paused(treasury: &TreasuryConfig) -> (r: Result<(), ErrorCode>)
    ensures
        r is Ok <==> !treasury.is_paused,
        r matches Err(e) ==> e == ErrorCode::ProtocolPaused,
{
    if treasury.is_paused {
        Err(ErrorCode::ProtocolPaused)
    } else {
        Ok(())
    }
}

/// Rejects a deposit of `gross` that would lift the total value locked above
/// the cap; the projection is taken on the gross, pre-fee amount. A projection
/// too large for 64 bits lies above every cap. Returns the projection.
pub fn require_within_cap(treasury: &TreasuryConfig, gross: u64) -> (r: Result<u64, ErrorCode>)
    ensures
        match r {
            Ok(projected) => {
                &&& projected == treasury.total_tvl + gross
                &&& projected <= treasury.tvl_cap
            },
            Err(e) => {
                &&& treasury.total_tvl + gross > treasury.tvl_cap
                &&& e == ErrorCode::TvlCapExceeded
            },
        },
{
    match treasury.total_tvl.checked_add(gross) {
        None => Err(ErrorCode::TvlCapExceeded),
        Some(projected) => {
            if projected <= treasury.tvl_cap {
                Ok(projected)
            } else {
                Err(ErrorCode::TvlCapExceeded)
            }
        },
    }
}

} // verus!
