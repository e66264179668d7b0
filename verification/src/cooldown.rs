//! The cooldown rule: a mount redeems only while it has uses left, only
//! after its cooldown has passed, and only with its own record.
use vstd::prelude::*;
use crate::account::Account;
use crate::address::{cooldown_address, spec_cooldown_address};
use crate::config::ProtocolConfig;
use crate::error::EscrowError;
use crate::identity::Identity;
use crate::state::Data;

verus! {

/// What the cooldown rule makes of a mount's record at `now`:
/// `UsageCapExceeded` where the mount has no uses left, `CooldownNotElapsed`
/// where no more than the cooldown has passed since its last redemption,
/// `AccountMismatch` where the record does not stand at the address derived
/// from the mount's identity and the record's bump, in that order.
pub open spec fn spec_check_cooldown(
    program_id: Identity,
    config: ProtocolConfig,
    record: Account<Data>,
    mint: Identity,
    now: i64,
) -> Result<(), EscrowError> {
    if !record.data.spec_has_uses_left(config) {
        Err(EscrowError::UsageCapExceeded)
    } else if !record.data.spec_cooled_down(config, now) {
        Err(EscrowError::CooldownNotElapsed)
    } else if spec_cooldown_address(mint, record.data.bump, program_id) != Some(record.key@) {
        Err(EscrowError::AccountMismatch)
    } else {
        Ok(())
    }
}

/// Checks the record of `mint` against the cooldown rule at `now`.
pub fn check_cooldown(
    program_id: &Identity,
    config: &ProtocolConfig,
    record: &Account<Data>,
    mint: &Identity,
    now: i64,
) -> (r: Result<(), EscrowError>)
    ensures
        r == spec_check_cooldown(*program_id, *config, *record, *mint, now),
{
    if !record.data.has_uses_left(config) {
        return Err(EscrowError::UsageCapExceeded);
    }
    if !record.data.cooled_down(config, now) {
        return Err(EscrowError::CooldownNotElapsed);
    }
    match cooldown_address(mint, record.data.bump, program_id) {
        Some(address) => {
            if record.key.same(&address) {
                Ok(())
            } else {
                Err(EscrowError::AccountMismatch)
            }
        },
        None => Err(EscrowError::AccountMismatch),
    }
}

} // verus!
