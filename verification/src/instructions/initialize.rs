//! Initialize: creates the cooldown record of a mount.
use vstd::prelude::*;
use crate::account::{Account, Slot};
use crate::address::{new_cooldown_address, spec_new_cooldown_address};
use crate::error::EscrowError;
use crate::holding::{check_holding, spec_check_holding};
use crate::identity::Identity;
use crate::ledger::TokenAccount;
use crate::state::Data;

verus! {

/// The accounts of an initialize.
#[derive(Clone, Copy, Debug, PartialEq, Eq)]
pub struct Initialize {
    /// The caller.
    pub user: Identity,
    /// Where the mount's cooldown record lives.
    pub mount_data_account: Slot<Account<Data>>,
    /// The mount.
    pub mount_mint_account: Identity,
    /// The caller's holding of the mount.
    pub mount_token_account: Account<TokenAccount>,
}

/// What an initialize comes to, before anything is created. The caller must
/// hold the mount. A record must have an address to live at: the one derived
/// from the mount's identity. Where a record exists already it must be the
/// one at that address; a closed slot takes no record.
pub open spec fn initialize_check(program_id: Identity, accounts: Initialize) -> Result<
    (),
    EscrowError,
> {
    let holding = spec_check_holding(
        accounts.mount_token_account,
        accounts.mount_mint_account,
        accounts.user,
    );
    if holding is Err {
        holding
    } else {
        match spec_new_cooldown_address(accounts.mount_mint_account, program_id) {
            None => Err(EscrowError::AccountMismatch),
            Some((address, _)) => match accounts.mount_data_account {
                Slot::Vacant => Ok(()),
                Slot::Occupied(record) => if record.key@ == address {
                    Ok(())
                } else {
                    Err(EscrowError::AccountMismatch)
                },
                Slot::Closed => Err(EscrowError::AccountMismatch),
            },
        }
    }
}

/// Creates the cooldown record of a mount that the caller holds: no uses,
/// never redeemed, at the address derived from the mount's identity, with
/// `data_bump` stored in it. Where the record exists already, the call
/// succeeds and leaves it as it is. A call that fails changes nothing.
pub fn handler(program_id: &Identity, accounts: &mut Initialize, data_bump: u8) -> (r: Result<
    (),
    EscrowError,
>)
    ensures
        r == initialize_check(*program_id, *old(accounts)),
        r is Err ==> *final(accounts) == *old(accounts),
        r is Ok && old(accounts).mount_data_account is Occupied ==> *final(accounts) == *old(accounts),
        r is Ok && old(accounts).mount_data_account is Vacant ==> {
            &&& final(accounts).mount_data_account matches Slot::Occupied(record)
            &&& spec_new_cooldown_address(old(accounts).mount_mint_account, *program_id)
                matches Some((address, _))
            &&& record.key@ == address
            &&& record.data == (Data { count: 0, bump: data_bump, timestamp: 0 })
            &&& final(accounts).user == old(accounts).user
            &&& final(accounts).mount_mint_account == old(accounts).mount_mint_account
            &&& final(accounts).mount_token_account == old(accounts).mount_token_account
        },
{
    let holding = check_holding(
        &accounts.mount_token_account,
        &accounts.mount_mint_account,
        &accounts.user,
    );
    if holding.is_err() {
        return holding;
    }
    let address = match new_cooldown_address(&accounts.mount_mint_account, program_id) {
        Some((address, _)) => address,
        None => {
            return Err(EscrowError::AccountMismatch);
        },
    };
    match accounts.mount_data_account {
        Slot::Vacant => {
            accounts.mount_data_account = Slot::Occupied(
                Account { key: address, data: Data::new(data_bump) },
            );
            Ok(())
        },
        Slot::Occupied(record) => {
            if record.key.same(&address) {
                Ok(())
            } else {
                Err(EscrowError::AccountMismatch)
            }
        },
        Slot::Closed => Err(EscrowError::AccountMismatch),
    }
}

} // verus!
