//! Redeem: pays one unit out of the vault to the holder of two distinct,
//! whitelisted, rested mounts, and burns the reward token that this costs.
use vstd::prelude::*;
use crate::account::Account;
use crate::address::{escrow_address, spec_escrow_address, spec_vault_authority, vault_authority};
use crate::config::ProtocolConfig;
use crate::cooldown::{check_cooldown, spec_check_cooldown};
use crate::error::EscrowError;
use crate::holding::{check_holding, spec_check_holding};
use crate::identity::{lemma_same_bytes, Identity};
use crate::ledger::{burn, burn_allowed, transfer, with_amount, Burn, TokenAccount, Transfer};
use crate::provenance::{assert_valid_metadata, provenance, MetadataAccount};
use crate::state::{Data, EscrowAccount};
use crate::whitelist::{assert_creators, eligible, listed};

verus! {

/// The accounts of a redeem.
#[derive(Clone, Debug, PartialEq, Eq)]
pub struct Redeem {
    /// The caller, who signs.
    pub user: Identity,
    /// The cooldown record of the first mount.
    pub mount_data_account_a: Account<Data>,
    /// The cooldown record of the second mount.
    pub mount_data_account_b: Account<Data>,
    /// The first mount.
    pub user_mount_mint_account_a: Identity,
    /// The caller's holding of the first mount.
    pub user_mount_token_account_a: Account<TokenAccount>,
    /// The metadata account handed in for the first mount.
    pub metadata_mount_a: MetadataAccount,
    /// The second mount.
    pub user_mount_mint_account_b: Identity,
    /// The caller's holding of the second mount.
    pub user_mount_token_account_b: Account<TokenAccount>,
    /// The metadata account handed in for the second mount.
    pub metadata_mount_b: MetadataAccount,
    /// The account that the payout goes to.
    pub user_custom_token_account: Account<TokenAccount>,
    /// The caller's holding of the reward token.
    pub user_mtm_token_account: Account<TokenAccount>,
    /// The vault.
    pub vault_account: Account<TokenAccount>,
    /// The escrow record.
    pub escrow_account: Account<EscrowAccount>,
    /// The reward token.
    pub mint_mtm: Identity,
    /// The authority that the caller names for the vault.
    pub vault_authority: Identity,
}

/// One of two checks in order: the first refusal, if there is one.
pub open spec fn in_order(first: Result<(), EscrowError>, second: Result<(), EscrowError>) -> Result<
    (),
    EscrowError,
> {
    if first is Err {
        first
    } else {
        second
    }
}

/// What is checked of the payout account and of the reward. The payout
/// account must be the caller's, else `Unauthorized`. The caller's reward
/// holding must cover the cost, else `InsufficientRewardBalance`. That
/// holding must be of the escrow's reward token, the escrow record must
/// stand at its derived address, the reward token handed in must be the
/// escrow's, and the reward holding must be another account than the payout
/// account and the vault: else `AccountMismatch`.
pub open spec fn spec_check_reward(
    program_id: Identity,
    config: ProtocolConfig,
    accounts: Redeem,
) -> Result<(), EscrowError> {
    if accounts.user_custom_token_account.data.owner != accounts.user {
        Err(EscrowError::Unauthorized)
    } else if accounts.user_mtm_token_account.data.amount < config.reward_cost {
        Err(EscrowError::InsufficientRewardBalance)
    } else if accounts.user_mtm_token_account.data.mint
        != accounts.escrow_account.data.mtm_token_mint {
        Err(EscrowError::AccountMismatch)
    } else if spec_escrow_address(program_id, accounts.escrow_account.data.bump) != Some(
        accounts.escrow_account.key@,
    ) {
        Err(EscrowError::AccountMismatch)
    } else if accounts.mint_mtm != accounts.escrow_account.data.mtm_token_mint {
        Err(EscrowError::AccountMismatch)
    } else if accounts.user_mtm_token_account.key == accounts.user_custom_token_account.key
        || accounts.user_mtm_token_account.key == accounts.vault_account.key {
        Err(EscrowError::AccountMismatch)
    } else {
        Ok(())
    }
}

/// The creators that the registry names for a mount, read from the account
/// handed in, or nothing where that account is not authentic.
pub open spec fn creators_a(accounts: Redeem) -> Option<Option<Seq<(Seq<u8>, bool)>>> {
    provenance(accounts.metadata_mount_a, accounts.user_mount_mint_account_a)
}

/// The same for the second mount.
pub open spec fn creators_b(accounts: Redeem) -> Option<Option<Seq<(Seq<u8>, bool)>>> {
    provenance(accounts.metadata_mount_b, accounts.user_mount_mint_account_b)
}

/// The mount's creators, as given by `creators_a` or `creators_b`, hold one
/// who signed for the mount and is whitelisted by the escrow.
pub open spec fn whitelisted(
    creators: Option<Option<Seq<(Seq<u8>, bool)>>>,
    escrow: EscrowAccount,
) -> bool {
    creators matches Some(named) && eligible(
        listed(named),
        escrow.whitelist_creator_a@,
        escrow.whitelist_creator_b@,
    )
}

/// What the whitelist makes of the two mounts: `InvalidProvenance` where
/// the metadata of the first or of the second is not authentic, then
/// `CreatorNotWhitelisted` where the first or the second has no verified
/// creator on the escrow's whitelist.
pub open spec fn spec_whitelisted(accounts: Redeem) -> Result<(), EscrowError> {
    if creators_a(accounts) is None || creators_b(accounts) is None {
        Err(EscrowError::InvalidProvenance)
    } else if !whitelisted(creators_a(accounts), accounts.escrow_account.data) || !whitelisted(
        creators_b(accounts),
        accounts.escrow_account.data,
    ) {
        Err(EscrowError::CreatorNotWhitelisted)
    } else {
        Ok(())
    }
}

/// The ledger pays out of the vault: the authority that the caller names is
/// the derived one and owns the vault; the payout account is not the vault,
/// holds the vault's token and has room; the vault holds the payout.
pub open spec fn payout_allowed(program_id: Identity, config: ProtocolConfig, accounts: Redeem) -> bool {
    &&& spec_vault_authority(program_id) matches Some((authority, _))
    &&& accounts.vault_authority@ == authority
    &&& accounts.vault_account.data.owner == accounts.vault_authority
    &&& accounts.vault_account.key != accounts.user_custom_token_account.key
    &&& accounts.vault_account.data.mint == accounts.user_custom_token_account.data.mint
    &&& accounts.vault_account.data.amount >= config.payout
    &&& accounts.user_custom_token_account.data.amount + config.payout <= u64::MAX
}

/// The ledger burns the reward: the reward holding is the caller's, is of
/// the reward token handed in and covers the cost.
pub open spec fn cost_allowed(config: ProtocolConfig, accounts: Redeem) -> bool {
    burn_allowed(
        Burn {
            mint: accounts.mint_mtm,
            from: accounts.user_mtm_token_account.key,
            authority: accounts.user,
        },
        accounts.user,
        accounts.user_mtm_token_account,
        config.reward_cost,
    )
}

/// What the ledger makes of the two moves: `AuthorizationFailure` where it
/// refuses one of them.
pub open spec fn spec_check_moves(
    program_id: Identity,
    config: ProtocolConfig,
    accounts: Redeem,
) -> Result<(), EscrowError> {
    if payout_allowed(program_id, config, accounts) && cost_allowed(config, accounts) {
        Ok(())
    } else {
        Err(EscrowError::AuthorizationFailure)
    }
}

/// What a redeem comes to at `now`: the first refusal among these, in this
/// order. The two mounts must be two, else `DuplicateNftReference`, whatever
/// else holds. The record of the first mount, then that of the second, must
/// pass the cooldown rule. The caller must hold the first mount, then the
/// second. The payout account and the reward must pass their checks. Both
/// mounts must be authentic and whitelisted. The ledger must make both
/// moves.
pub open spec fn redeem_check(
    program_id: Identity,
    config: ProtocolConfig,
    accounts: Redeem,
    now: i64,
) -> Result<(), EscrowError> {
    if accounts.user_mount_mint_account_a == accounts.user_mount_mint_account_b {
        Err(EscrowError::DuplicateNftReference)
    } else {
        in_order(
            spec_check_cooldown(
                program_id,
                config,
                accounts.mount_data_account_a,
                accounts.user_mount_mint_account_a,
                now,
            ),
            in_order(
                spec_check_cooldown(
                    program_id,
                    config,
                    accounts.mount_data_account_b,
                    accounts.user_mount_mint_account_b,
                    now,
                ),
                in_order(
                    spec_check_holding(
                        accounts.user_mount_token_account_a,
                        accounts.user_mount_mint_account_a,
                        accounts.user,
                    ),
                    in_order(
                        spec_check_holding(
                            accounts.user_mount_token_account_b,
                            accounts.user_mount_mint_account_b,
                            accounts.user,
                        ),
                        in_order(
                            spec_check_reward(program_id, config, accounts),
                            in_order(
                                spec_whitelisted(accounts),
                                spec_check_moves(program_id, config, accounts),
                            ),
                        ),
                    ),
                ),
            ),
        )
    }
}

/// The record after a redemption at `now`, at the same address.
pub open spec fn used(record: Account<Data>, now: i64) -> Account<Data> {
    Account { key: record.key, data: record.data.spec_redeemed(now) }
}

/// The accounts after a redeem at `now` that succeeds: the vault holds the
/// payout less and the payout account the payout more; the reward holding
/// holds the cost less; each of the two records counts one more use, the
/// last at `now`; the rest is as it was.
pub open spec fn redeemed(config: ProtocolConfig, accounts: Redeem, now: i64) -> Redeem {
    Redeem {
        mount_data_account_a: used(accounts.mount_data_account_a, now),
        mount_data_account_b: used(accounts.mount_data_account_b, now),
        user_custom_token_account: with_amount(
            accounts.user_custom_token_account,
            (accounts.user_custom_token_account.data.amount + config.payout) as u64,
        ),
        user_mtm_token_account: with_amount(
            accounts.user_mtm_token_account,
            (accounts.user_mtm_token_account.data.amount - config.reward_cost) as u64,
        ),
        vault_account: with_amount(
            accounts.vault_account,
            (accounts.vault_account.data.amount - config.payout) as u64,
        ),
        ..accounts
    }
}

impl Redeem {
    /// The accounts of the payout: from the vault to the payout account, on
    /// the authority that the caller names.
    fn into_transfer_to_user_context(&self) -> (accounts: Transfer)
        ensures
            accounts.from == self.vault_account.key,
            accounts.to == self.user_custom_token_account.key,
            accounts.authority == self.vault_authority,
    {
        Transfer {
            from: self.vault_account.key,
            to: self.user_custom_token_account.key,
            authority: self.vault_authority,
        }
    }

    /// The accounts of the burn: the reward token and the caller's holding
    /// of it, on the caller's authority.
    fn into_burn_from_user_context(&self) -> (accounts: Burn)
        ensures
            accounts.mint == self.mint_mtm,
            accounts.from == self.user_mtm_token_account.key,
            accounts.authority == self.user,
    {
        Burn { mint: self.mint_mtm, from: self.user_mtm_token_account.key, authority: self.user }
    }
}

/// Checks the payout account and the reward.
pub fn check_reward(program_id: &Identity, config: &ProtocolConfig, accounts: &Redeem) -> (r: Result<
    (),
    EscrowError,
>)
    ensures
        r == spec_check_reward(*program_id, *config, *accounts),
{
    if !accounts.user_custom_token_account.data.owner.same(&accounts.user) {
        return Err(EscrowError::Unauthorized);
    }
    if accounts.user_mtm_token_account.data.amount < config.reward_cost {
        return Err(EscrowError::InsufficientRewardBalance);
    }
    if !accounts.user_mtm_token_account.data.mint.same(&accounts.escrow_account.data.mtm_token_mint) {
        return Err(EscrowError::AccountMismatch);
    }
    match escrow_address(program_id, accounts.escrow_account.data.bump) {
        Some(address) => {
            if !accounts.escrow_account.key.same(&address) {
                return Err(EscrowError::AccountMismatch);
            }
        },
        None => {
            return Err(EscrowError::AccountMismatch);
        },
    }
    if !accounts.mint_mtm.same(&accounts.escrow_account.data.mtm_token_mint) {
        return Err(EscrowError::AccountMismatch);
    }
    if accounts.user_mtm_token_account.key.same(&accounts.user_custom_token_account.key)
        || accounts.user_mtm_token_account.key.same(&accounts.vault_account.key) {
        return Err(EscrowError::AccountMismatch);
    }
    Ok(())
}

/// Authenticates the metadata of both mounts, then looks on each for a
/// verified creator that the escrow whitelists. Fails with
/// `InvalidProvenance` where the metadata of either is not authentic, else
/// with `CreatorNotWhitelisted` where either has no such creator.
pub fn assert_whitelisted(accounts: &Redeem) -> (r: Result<(), EscrowError>)
    ensures
        r == spec_whitelisted(*accounts),
{
    let metadata_mount_a = match assert_valid_metadata(
        &accounts.metadata_mount_a,
        &accounts.user_mount_mint_account_a,
    ) {
        Ok(metadata) => metadata,
        Err(e) => {
            return Err(e);
        },
    };
    let metadata_mount_b = match assert_valid_metadata(
        &accounts.metadata_mount_b,
        &accounts.user_mount_mint_account_b,
    ) {
        Ok(metadata) => metadata,
        Err(e) => {
            return Err(e);
        },
    };
    let listed_a = assert_creators(&metadata_mount_a, &accounts.escrow_account.data);
    if listed_a.is_err() {
        return listed_a;
    }
    let listed_b = assert_creators(&metadata_mount_b, &accounts.escrow_account.data);
    if listed_b.is_err() {
        return listed_b;
    }
    Ok(())
}

/// Redeems under `config` at `now`. Where every check passes, the derived
/// authority pays the payout out of the vault to the caller's payout
/// account, the reward cost is burnt from the caller's reward holding, and
/// each of the two mounts' records counts one more use, the last at `now`.
/// A call that fails changes nothing.
pub fn handler(program_id: &Identity, config: &ProtocolConfig, accounts: &mut Redeem, now: i64) -> (r:
    Result<(), EscrowError>)
    ensures
        r == redeem_check(*program_id, *config, *old(accounts), now),
        r is Ok ==> *final(accounts) == redeemed(*config, *old(accounts), now),
        r is Err ==> *final(accounts) == *old(accounts),
{
    if accounts.user_mount_mint_account_a.same(&accounts.user_mount_mint_account_b) {
        return Err(EscrowError::DuplicateNftReference);
    }
    let rested_a = check_cooldown(
        program_id,
        config,
        &accounts.mount_data_account_a,
        &accounts.user_mount_mint_account_a,
        now,
    );
    if rested_a.is_err() {
        return rested_a;
    }
    let rested_b = check_cooldown(
        program_id,
        config,
        &accounts.mount_data_account_b,
        &accounts.user_mount_mint_account_b,
        now,
    );
    if rested_b.is_err() {
        return rested_b;
    }
    let held_a = check_holding(
        &accounts.user_mount_token_account_a,
        &accounts.user_mount_mint_account_a,
        &accounts.user,
    );
    if held_a.is_err() {
        return held_a;
    }
    let held_b = check_holding(
        &accounts.user_mount_token_account_b,
        &accounts.user_mount_mint_account_b,
        &accounts.user,
    );
    if held_b.is_err() {
        return held_b;
    }
    let reward_checked = check_reward(program_id, config, accounts);
    if reward_checked.is_err() {
        return reward_checked;
    }
    let listed = assert_whitelisted(accounts);
    if listed.is_err() {
        return listed;
    }
    let signer = match vault_authority(program_id) {
        Some((signer, _)) => signer,
        None => {
            return Err(EscrowError::AuthorizationFailure);
        },
    };
    proof {
        lemma_same_bytes(accounts.vault_authority, signer);
    }
    let pay = accounts.into_transfer_to_user_context();
    let mut vault = accounts.vault_account;
    let mut payout = accounts.user_custom_token_account;
    let paid = transfer(&pay, &signer, &mut vault, &mut payout, config.payout);
    if paid.is_err() {
        return paid;
    }
    let spend = accounts.into_burn_from_user_context();
    let mut reward = accounts.user_mtm_token_account;
    let burnt = burn(&spend, &accounts.user, &mut reward, config.reward_cost);
    if burnt.is_err() {
        return burnt;
    }
    accounts.mount_data_account_a.data = accounts.mount_data_account_a.data.redeemed(now);
    accounts.mount_data_account_b.data = accounts.mount_data_account_b.data.redeemed(now);
    accounts.vault_account = vault;
    accounts.user_custom_token_account = payout;
    accounts.user_mtm_token_account = reward;
    Ok(())
}

} // verus!
