//! Escrow and redemption rules for a mount-breeding game.
//!
//! A depositor locks a fungible token in a vault that only a derived,
//! keyless authority can move. Holders of two distinct mount tokens whose
//! recorded creators are on the escrow's whitelist may redeem one unit from
//! the vault by burning a fixed amount of a reward token, subject to a
//! per-mount cooldown and usage cap.
//!
//! The four operations below run under the protocol's standard parameters.
//! The handlers in `instructions` take the parameters as an argument.
use vstd::prelude::*;

pub mod account;
pub mod address;
pub mod config;
pub mod cooldown;
pub mod error;
pub mod holding;
pub mod identity;
pub mod instructions;
pub mod laws;
pub mod ledger;
pub mod provenance;
pub mod seeds;
pub mod state;
pub mod whitelist;

pub use crate::instructions::cancel::Cancel;
pub use crate::instructions::genesis::Genesis;
pub use crate::instructions::initialize::Initialize;
pub use crate::instructions::redeem::Redeem;
pub use crate::state::{Data, EscrowAccount};

use crate::config::ProtocolConfig;
use crate::error::EscrowError;
use crate::identity::Identity;
use crate::instructions::cancel::{cancel_check, cancelled, is_depositor};
use crate::instructions::genesis::{genesis_check, genesis_done};
use crate::instructions::initialize::initialize_check;
use crate::instructions::redeem::{redeem_check, redeemed};
use crate::ledger::balance;

verus! {

/// Opens an escrow: creates the vault and the escrow record, hands the vault
/// to the derived authority and moves 2202 units into it from the deposit
/// account. A deposit account that holds less than 2202 is refused with
/// `InsufficientDeposit`. A call that fails changes nothing.
pub fn genesis(
    program_id: &Identity,
    accounts: &mut Genesis,
    _vault_account_bump: u8,
    escrow_account_bump: u8,
) -> (r: Result<(), EscrowError>)
    ensures
        r == genesis_check(*program_id, ProtocolConfig::standard(), *old(accounts)),
        old(accounts).initializer_deposit_token_account.data.amount < 2202 ==> r == Err::<
            (),
            EscrowError,
        >(EscrowError::InsufficientDeposit),
        r is Ok ==> genesis_done(
            *program_id,
            ProtocolConfig::standard(),
            *old(accounts),
            escrow_account_bump,
            *final(accounts),
        ),
        r is Ok ==> balance(final(accounts).vault_account) == 2202 && final(accounts).initializer_deposit_token_account.data.amount == old(accounts).initializer_deposit_token_account.data.amount - 2202,
        r is Err ==> *final(accounts) == *old(accounts),
{
    let config = ProtocolConfig::standard();
    crate::instructions::genesis::handler(
        program_id,
        &config,
        accounts,
        _vault_account_bump,
        escrow_account_bump,
    )
}

/// Ends an escrow: refunds all that the vault holds to the recorded deposit
/// account and destroys the vault and the escrow record. Any caller but the
/// recorded depositor is refused with `Unauthorized`. A call that fails
/// changes nothing.
pub fn cancel(program_id: &Identity, accounts: &mut Cancel) -> (r: Result<(), EscrowError>)
    ensures
        r == cancel_check(*program_id, *old(accounts)),
        !is_depositor(*old(accounts)) ==> r == Err::<(), EscrowError>(EscrowError::Unauthorized),
        r is Ok ==> *final(accounts) == cancelled(*old(accounts)),
        r is Ok ==> balance(final(accounts).vault_account) == 0 && final(accounts).escrow_account
            is Closed,
        r is Err ==> *final(accounts) == *old(accounts),
{
    crate::instructions::cancel::handler(program_id, accounts)
}

/// Creates the cooldown record of a mount that the caller holds, with no
/// uses and no redemption yet. Where the record exists already, the call
/// succeeds and leaves it as it is. A call that fails changes nothing.
pub fn initialize(program_id: &Identity, accounts: &mut Initialize, data_bump: u8) -> (r: Result<
    (),
    EscrowError,
>)
    ensures
        r == initialize_check(*program_id, *old(accounts)),
        r is Err ==> *final(accounts) == *old(accounts),
        r is Ok && old(accounts).mount_data_account is Occupied ==> *final(accounts) == *old(accounts),
        r is Ok && old(accounts).mount_data_account is Vacant ==> {
            &&& final(accounts).mount_data_account matches crate::account::Slot::Occupied(record)
            &&& crate::address::spec_new_cooldown_address(
                old(accounts).mount_mint_account,
                *program_id,
            ) matches Some((address, _))
            &&& record.key@ == address
            &&& record.data == (Data { count: 0, bump: data_bump, timestamp: 0 })
            &&& final(accounts).user == old(accounts).user
            &&& final(accounts).mount_mint_account == old(accounts).mount_mint_account
            &&& final(accounts).mount_token_account == old(accounts).mount_token_account
        },
{
    crate::instructions::initialize::handler(program_id, accounts, data_bump)
}

/// Redeems at `now`: pays 1 unit out of the vault to the caller's payout
/// account, burns 200 000 000 000 units of the caller's reward holding, and
/// counts one more use, the last at `now`, on the record of each of the two
/// mounts. One mount named twice is refused with `DuplicateNftReference`. A
/// call that fails changes nothing.
pub fn redeem(program_id: &Identity, accounts: &mut Redeem, now: i64) -> (r: Result<(), EscrowError>)
    ensures
        r == redeem_check(*program_id, ProtocolConfig::standard(), *old(accounts), now),
        old(accounts).user_mount_mint_account_a == old(accounts).user_mount_mint_account_b ==> r
            == Err::<(), EscrowError>(EscrowError::DuplicateNftReference),
        r is Ok ==> *final(accounts) == redeemed(ProtocolConfig::standard(), *old(accounts), now),
        r is Ok ==> {
            &&& final(accounts).vault_account.data.amount == old(accounts).vault_account.data.amount
                - 1
            &&& final(accounts).user_custom_token_account.data.amount == old(accounts).user_custom_token_account.data.amount + 1
            &&& final(accounts).user_mtm_token_account.data.amount == old(accounts).user_mtm_token_account.data.amount - 200_000_000_000
            &&& final(accounts).mount_data_account_a.data.count == old(accounts).mount_data_account_a.data.count + 1
            &&& final(accounts).mount_data_account_b.data.count == old(accounts).mount_data_account_b.data.count + 1
            &&& final(accounts).mount_data_account_a.data.timestamp == now
            &&& final(accounts).mount_data_account_b.data.timestamp == now
        },
        r is Err ==> *final(accounts) == *old(accounts),
{
    let config = ProtocolConfig::standard();
    crate::instructions::redeem::handler(program_id, &config, accounts, now)
}

} // verus!
