//! What holds of the operations, whatever the accounts.
use vstd::prelude::*;
use crate::account::{Account, Slot};
use crate::address::spec_vault_authority;
use crate::config::ProtocolConfig;
use crate::cooldown::spec_check_cooldown;
use crate::error::EscrowError;
use crate::holding::spec_check_holding;
use crate::identity::Identity;
use crate::instructions::cancel::{cancel_check, cancelled, is_depositor, Cancel};
use crate::instructions::genesis::{genesis_check, genesis_done, Genesis};
use crate::instructions::redeem::{
    creators_a, creators_b, redeem_check, redeemed, spec_check_moves, spec_check_reward, used,
    whitelisted, Redeem,
};
use crate::ledger::balance;
use crate::state::Data;
use crate::whitelist::eligible;

verus! {

/// A deposit account that holds less than the deposit minimum cannot open
/// an escrow: genesis fails with `InsufficientDeposit`, whatever else is
/// handed in.
pub proof fn lemma_genesis_needs_minimum(
    program_id: Identity,
    config: ProtocolConfig,
    accounts: Genesis,
)
    requires
        accounts.initializer_deposit_token_account.data.amount < config.deposit_minimum,
    ensures
        genesis_check(program_id, config, accounts) == Err::<(), EscrowError>(
            EscrowError::InsufficientDeposit,
        ),
{
}

/// A genesis that succeeds moves exactly the deposit minimum, however much
/// the deposit account holds: the vault holds the minimum, and the deposit
/// account the minimum less.
pub proof fn lemma_genesis_moves_minimum(
    program_id: Identity,
    config: ProtocolConfig,
    before: Genesis,
    escrow_account_bump: u8,
    after: Genesis,
)
    requires
        genesis_check(program_id, config, before) is Ok,
        genesis_done(program_id, config, before, escrow_account_bump, after),
    ensures
        balance(after.vault_account) == config.deposit_minimum,
        after.initializer_deposit_token_account.data.amount
            == before.initializer_deposit_token_account.data.amount - config.deposit_minimum,
        balance(after.vault_account) + after.initializer_deposit_token_account.data.amount
            == before.initializer_deposit_token_account.data.amount,
{
}

/// A genesis that succeeds leaves vault and record alive together, and the
/// vault in the hands of the derived authority, not of the depositor's key.
pub proof fn lemma_genesis_makes_the_vault_custodial(
    program_id: Identity,
    config: ProtocolConfig,
    before: Genesis,
    escrow_account_bump: u8,
    after: Genesis,
)
    requires
        genesis_done(program_id, config, before, escrow_account_bump, after),
    ensures
        after.vault_account is Occupied,
        after.escrow_account is Occupied,
        spec_vault_authority(program_id) matches Some((authority, _))
            && after.vault_account->Occupied_0.data.owner@ == authority,
        after.escrow_account->Occupied_0.data.initializer_key == before.initializer,
        after.escrow_account->Occupied_0.data.initializer_deposit_token_account
            == before.initializer_deposit_token_account.key,
{
}

/// Only the recorded depositor can cancel: for any other caller, and where
/// there is no record, cancel fails with `Unauthorized`, whatever else is
/// handed in.
pub proof fn lemma_cancel_needs_depositor(program_id: Identity, accounts: Cancel)
    requires
        !is_depositor(accounts),
    ensures
        cancel_check(program_id, accounts) == Err::<(), EscrowError>(EscrowError::Unauthorized),
{
}

/// A cancel that succeeds leaves nothing behind: the vault holds nothing,
/// the escrow record is gone, and what the vault held is in the refund
/// account.
pub proof fn lemma_cancel_leaves_nothing(program_id: Identity, accounts: Cancel)
    requires
        cancel_check(program_id, accounts) is Ok,
    ensures
        balance(cancelled(accounts).vault_account) == 0,
        !(cancelled(accounts).escrow_account is Occupied),
        !(cancelled(accounts).vault_account is Occupied),
        cancelled(accounts).initializer_deposit_token_account.data.amount
            == accounts.initializer_deposit_token_account.data.amount + balance(
            accounts.vault_account,
        ),
{
}

/// Nothing leaves the vault but on the derived authority: a cancel or a
/// redeem succeeds only where the vault belongs to the authority derived for
/// the program, and a redeem leaves the vault in its hands.
pub proof fn lemma_vault_moves_on_derived_authority(
    program_id: Identity,
    config: ProtocolConfig,
    cancel: Cancel,
    redeem: Redeem,
    now: i64,
)
    ensures
        cancel_check(program_id, cancel) is Ok ==> (spec_vault_authority(program_id) matches Some(
            (authority, _),
        ) && cancel.vault_account matches Slot::Occupied(vault) && vault.data.owner@ == authority),
        redeem_check(program_id, config, redeem, now) is Ok ==> (spec_vault_authority(program_id)
            matches Some((authority, _)) && redeem.vault_account.data.owner@ == authority
            && redeemed(config, redeem, now).vault_account.data.owner
            == redeem.vault_account.data.owner && redeemed(config, redeem, now).vault_account.key
            == redeem.vault_account.key),
{
}

/// Creators that did not sign count for nothing: a token none of whose
/// creators is verified is not eligible, whoever its creators are.
pub proof fn lemma_unverified_creators_count_for_nothing(
    creators: Seq<(Seq<u8>, bool)>,
    whitelist_a: Seq<u8>,
    whitelist_b: Seq<u8>,
)
    requires
        forall|i: int| 0 <= i < creators.len() ==> !(#[trigger] creators[i]).1,
    ensures
        !eligible(creators, whitelist_a, whitelist_b),
{
}

/// One verified creator that is the first or the second whitelisted one
/// makes a token eligible, whatever its other creators are.
pub proof fn lemma_one_verified_creator_is_enough(
    creators: Seq<(Seq<u8>, bool)>,
    whitelist_a: Seq<u8>,
    whitelist_b: Seq<u8>,
    i: int,
)
    requires
        0 <= i < creators.len(),
        creators[i].1,
        creators[i].0 == whitelist_a || creators[i].0 == whitelist_b,
    ensures
        eligible(creators, whitelist_a, whitelist_b),
{
}

/// One mount named twice never redeems: redeem fails with
/// `DuplicateNftReference`, whatever else is handed in.
pub proof fn lemma_redeem_needs_two_mounts(
    program_id: Identity,
    config: ProtocolConfig,
    accounts: Redeem,
    now: i64,
)
    requires
        accounts.user_mount_mint_account_a == accounts.user_mount_mint_account_b,
    ensures
        redeem_check(program_id, config, accounts, now) == Err::<(), EscrowError>(
            EscrowError::DuplicateNftReference,
        ),
{
}

/// A record that was redeemed with at `earlier` fails the cooldown rule at
/// any `later` that is no more than the cooldown after it: with
/// `CooldownNotElapsed` while the mount has uses left, with
/// `UsageCapExceeded` once it has none.
pub proof fn lemma_used_record_rests(
    program_id: Identity,
    config: ProtocolConfig,
    record: Account<Data>,
    mint: Identity,
    earlier: i64,
    later: i64,
)
    requires
        record.data.spec_has_uses_left(config),
        later - earlier <= config.cooldown_seconds,
    ensures
        spec_check_cooldown(program_id, config, used(record, earlier), mint, later) == Err::<
            (),
            EscrowError,
        >(
            if used(record, earlier).data.spec_has_uses_left(config) {
                EscrowError::CooldownNotElapsed
            } else {
                EscrowError::UsageCapExceeded
            },
        ),
{
}

/// After a redeem at `earlier` that succeeded, no redeem at a `later` that
/// is no more than the cooldown after it succeeds with the record of either
/// of its mounts, in either place. With two mounts named and uses left on
/// the record, the refusal is `CooldownNotElapsed`: for a record in the
/// first place always, for one in the second place when the first record
/// passes the cooldown rule.
pub proof fn lemma_redeem_rests_mounts(
    program_id: Identity,
    config: ProtocolConfig,
    first: Redeem,
    earlier: i64,
    second: Redeem,
    later: i64,
)
    requires
        redeem_check(program_id, config, first, earlier) is Ok,
        later - earlier <= config.cooldown_seconds,
        ({
            let after = redeemed(config, first, earlier);
            ||| second.mount_data_account_a == after.mount_data_account_a
            ||| second.mount_data_account_a == after.mount_data_account_b
            ||| second.mount_data_account_b == after.mount_data_account_a
            ||| second.mount_data_account_b == after.mount_data_account_b
        }),
    ensures
        redeem_check(program_id, config, second, later) is Err,
        ({
            let after = redeemed(config, first, earlier);
            &&& second.user_mount_mint_account_a != second.user_mount_mint_account_b
                && second.mount_data_account_a.data.spec_has_uses_left(config) && (
            second.mount_data_account_a == after.mount_data_account_a
                || second.mount_data_account_a == after.mount_data_account_b) ==> redeem_check(
                program_id,
                config,
                second,
                later,
            ) == Err::<(), EscrowError>(EscrowError::CooldownNotElapsed)
            &&& second.user_mount_mint_account_a != second.user_mount_mint_account_b
                && spec_check_cooldown(
                program_id,
                config,
                second.mount_data_account_a,
                second.user_mount_mint_account_a,
                later,
            ) is Ok && second.mount_data_account_b.data.spec_has_uses_left(config) && (
            second.mount_data_account_b == after.mount_data_account_a
                || second.mount_data_account_b == after.mount_data_account_b) ==> redeem_check(
                program_id,
                config,
                second,
                later,
            ) == Err::<(), EscrowError>(EscrowError::CooldownNotElapsed)
        }),
{
    let after = redeemed(config, first, earlier);
    assert(after.mount_data_account_a == used(first.mount_data_account_a, earlier));
    assert(after.mount_data_account_b == used(first.mount_data_account_b, earlier));
    lemma_used_record_rests(
        program_id,
        config,
        first.mount_data_account_a,
        second.user_mount_mint_account_a,
        earlier,
        later,
    );
    lemma_used_record_rests(
        program_id,
        config,
        first.mount_data_account_b,
        second.user_mount_mint_account_a,
        earlier,
        later,
    );
    lemma_used_record_rests(
        program_id,
        config,
        first.mount_data_account_a,
        second.user_mount_mint_account_b,
        earlier,
        later,
    );
    lemma_used_record_rests(
        program_id,
        config,
        first.mount_data_account_b,
        second.user_mount_mint_account_b,
        earlier,
        later,
    );
}

/// A mount that has used up its uses never redeems again, at any time. With
/// two mounts named the refusal is `UsageCapExceeded`: for a record in the
/// first place always, for one in the second place when the first record
/// passes the cooldown rule.
pub proof fn lemma_redeem_keeps_cap(
    program_id: Identity,
    config: ProtocolConfig,
    accounts: Redeem,
    now: i64,
)
    requires
        accounts.mount_data_account_a.data.count >= config.max_uses
            || accounts.mount_data_account_b.data.count >= config.max_uses,
    ensures
        redeem_check(program_id, config, accounts, now) is Err,
        accounts.user_mount_mint_account_a != accounts.user_mount_mint_account_b
            && accounts.mount_data_account_a.data.count >= config.max_uses ==> redeem_check(
            program_id,
            config,
            accounts,
            now,
        ) == Err::<(), EscrowError>(EscrowError::UsageCapExceeded),
        accounts.user_mount_mint_account_a != accounts.user_mount_mint_account_b
            && spec_check_cooldown(
            program_id,
            config,
            accounts.mount_data_account_a,
            accounts.user_mount_mint_account_a,
            now,
        ) is Ok && accounts.mount_data_account_b.data.count >= config.max_uses ==> redeem_check(
            program_id,
            config,
            accounts,
            now,
        ) == Err::<(), EscrowError>(EscrowError::UsageCapExceeded),
{
}

/// No record ever counts more uses than are allowed: a redeem that succeeds
/// leaves both records within the cap.
pub proof fn lemma_redeem_stays_within_cap(
    program_id: Identity,
    config: ProtocolConfig,
    accounts: Redeem,
    now: i64,
)
    requires
        redeem_check(program_id, config, accounts, now) is Ok,
    ensures
        redeemed(config, accounts, now).mount_data_account_a.data.well_formed(config),
        redeemed(config, accounts, now).mount_data_account_b.data.well_formed(config),
{
}

/// The checks that come before the whitelist pass: two mounts are named,
/// both records pass the cooldown rule, the caller holds both mounts, and
/// the payout account and the reward pass their checks.
pub open spec fn reaches_whitelist(
    program_id: Identity,
    config: ProtocolConfig,
    accounts: Redeem,
    now: i64,
) -> bool {
    &&& accounts.user_mount_mint_account_a != accounts.user_mount_mint_account_b
    &&& spec_check_cooldown(
        program_id,
        config,
        accounts.mount_data_account_a,
        accounts.user_mount_mint_account_a,
        now,
    ) is Ok
    &&& spec_check_cooldown(
        program_id,
        config,
        accounts.mount_data_account_b,
        accounts.user_mount_mint_account_b,
        now,
    ) is Ok
    &&& spec_check_holding(
        accounts.user_mount_token_account_a,
        accounts.user_mount_mint_account_a,
        accounts.user,
    ) is Ok
    &&& spec_check_holding(
        accounts.user_mount_token_account_b,
        accounts.user_mount_mint_account_b,
        accounts.user,
    ) is Ok
    &&& spec_check_reward(program_id, config, accounts) is Ok
}

/// A redeem never succeeds unless each mount has authentic metadata with a
/// verified creator on the escrow's whitelist.
/// Where the earlier checks pass and both mounts are authentic, a mount
/// without such a creator is refused with `CreatorNotWhitelisted`; where
/// both have one, the redeem goes on to the ledger and succeeds exactly
/// when the ledger makes both moves.
pub proof fn lemma_redeem_needs_whitelisted_mounts(
    program_id: Identity,
    config: ProtocolConfig,
    accounts: Redeem,
    now: i64,
)
    ensures
        redeem_check(program_id, config, accounts, now) is Ok ==> whitelisted(
            creators_a(accounts),
            accounts.escrow_account.data,
        ) && whitelisted(creators_b(accounts), accounts.escrow_account.data),
        reaches_whitelist(program_id, config, accounts, now) && creators_a(accounts) is Some
            && creators_b(accounts) is Some && !(whitelisted(
            creators_a(accounts),
            accounts.escrow_account.data,
        ) && whitelisted(creators_b(accounts), accounts.escrow_account.data)) ==> redeem_check(
            program_id,
            config,
            accounts,
            now,
        ) == Err::<(), EscrowError>(EscrowError::CreatorNotWhitelisted),
        reaches_whitelist(program_id, config, accounts, now) && whitelisted(
            creators_a(accounts),
            accounts.escrow_account.data,
        ) && whitelisted(creators_b(accounts), accounts.escrow_account.data) ==> redeem_check(
            program_id,
            config,
            accounts,
            now,
        ) == spec_check_moves(program_id, config, accounts),
{
}

/// A redeem that succeeds moves exactly the payout from the vault to the
/// payout account, burns exactly the reward cost, and counts exactly one
/// more use on each of the two records, the last at `now`. It touches
/// nothing else.
pub proof fn lemma_redeem_effects(
    program_id: Identity,
    config: ProtocolConfig,
    accounts: Redeem,
    now: i64,
)
    requires
        redeem_check(program_id, config, accounts, now) is Ok,
    ensures
        ({
            let after = redeemed(config, accounts, now);
            &&& after.vault_account.data.amount == accounts.vault_account.data.amount
                - config.payout
            &&& after.user_custom_token_account.data.amount
                == accounts.user_custom_token_account.data.amount + config.payout
            &&& after.user_mtm_token_account.data.amount
                == accounts.user_mtm_token_account.data.amount - config.reward_cost
            &&& after.mount_data_account_a.data.count == accounts.mount_data_account_a.data.count
                + 1
            &&& after.mount_data_account_b.data.count == accounts.mount_data_account_b.data.count
                + 1
            &&& after.mount_data_account_a.data.timestamp == now
            &&& after.mount_data_account_b.data.timestamp == now
            &&& after.escrow_account == accounts.escrow_account
            &&& after.user_mount_token_account_a == accounts.user_mount_token_account_a
            &&& after.user_mount_token_account_b == accounts.user_mount_token_account_b
        }),
{
}

} // verus!
