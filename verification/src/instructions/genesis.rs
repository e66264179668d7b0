//! Genesis: creates the vault and the escrow record, hands the vault to the
//! derived authority and funds it.
use vstd::prelude::*;
use crate::account::{Account, Slot};
use crate::address::{
    new_escrow_address, spec_new_escrow_address, spec_vault_address, spec_vault_authority,
    vault_address, vault_authority,
};
use crate::config::ProtocolConfig;
use crate::error::EscrowError;
use crate::identity::{lemma_same_bytes, Identity};
use crate::ledger::{set_authority, transfer, SetAuthority, TokenAccount, Transfer};
use crate::state::EscrowAccount;

verus! {

/// The accounts of a genesis.
#[derive(Clone, Copy, Debug, PartialEq, Eq)]
pub struct Genesis {
    /// The depositor, who signs.
    pub initializer: Identity,
    /// The token that the vault holds.
    pub mint: Identity,
    /// Where the vault lives.
    pub vault_account: Slot<Account<TokenAccount>>,
    /// Where the escrow record lives.
    pub escrow_account: Slot<Account<EscrowAccount>>,
    /// The account that the deposit comes from.
    pub initializer_deposit_token_account: Account<TokenAccount>,
    /// The reward token.
    pub mint_mtm: Identity,
    /// The first whitelisted creator.
    pub creator_a: Identity,
    /// The second whitelisted creator.
    pub creator_b: Identity,
}

/// The vault as it is created: empty, of the deposit's token, and for the
/// moment the depositor's.
pub open spec fn new_vault(accounts: Genesis, key: Identity) -> Account<TokenAccount> {
    Account {
        key,
        data: TokenAccount { mint: accounts.mint, owner: accounts.initializer, amount: 0 },
    }
}

/// The record that genesis writes.
pub open spec fn new_escrow(accounts: Genesis, escrow_account_bump: u8) -> EscrowAccount {
    EscrowAccount {
        initializer_key: accounts.initializer,
        initializer_deposit_token_account: accounts.initializer_deposit_token_account.key,
        mtm_token_mint: accounts.mint_mtm,
        whitelist_creator_a: accounts.creator_a,
        whitelist_creator_b: accounts.creator_b,
        bump: escrow_account_bump,
    }
}

/// The ledger lets the depositor fund a vault at the address `vault` with
/// `amount`: the deposit account is the depositor's, is not the vault, holds
/// the vault's token and holds the amount.
pub open spec fn deposit_allowed(accounts: Genesis, vault: Seq<u8>, amount: u64) -> bool {
    &&& accounts.initializer_deposit_token_account.data.owner == accounts.initializer
    &&& accounts.initializer_deposit_token_account.key@ != vault
    &&& accounts.initializer_deposit_token_account.data.mint == accounts.mint
    &&& accounts.initializer_deposit_token_account.data.amount >= amount
}

/// What a genesis comes to, before anything is created. The deposit account
/// must hold the deposit minimum, else `InsufficientDeposit`, whatever else
/// holds. Vault and record must not exist yet and must each have an address
/// to live at, and the vault an authority, else `AccountMismatch`. The
/// ledger must let the depositor fund the vault, else
/// `AuthorizationFailure`.
pub open spec fn genesis_check(program_id: Identity, config: ProtocolConfig, accounts: Genesis) -> Result<
    (),
    EscrowError,
> {
    if accounts.initializer_deposit_token_account.data.amount < config.deposit_minimum {
        Err(EscrowError::InsufficientDeposit)
    } else if !(accounts.vault_account is Vacant) || !(accounts.escrow_account is Vacant) {
        Err(EscrowError::AccountMismatch)
    } else {
        match (
            spec_vault_address(program_id),
            spec_new_escrow_address(program_id),
            spec_vault_authority(program_id),
        ) {
            (Some((vault, _)), Some(_), Some(_)) => if deposit_allowed(
                accounts,
                vault,
                config.deposit_minimum,
            ) {
                Ok(())
            } else {
                Err(EscrowError::AuthorizationFailure)
            },
            _ => Err(EscrowError::AccountMismatch),
        }
    }
}

/// The accounts after a genesis that succeeds: the vault exists at its
/// derived address, belongs to the derived authority and holds exactly the
/// deposit minimum; the record exists at its derived address and holds what
/// was handed in; the deposit account holds the deposit minimum less; the
/// rest is as it was.
pub open spec fn genesis_done(
    program_id: Identity,
    config: ProtocolConfig,
    before: Genesis,
    escrow_account_bump: u8,
    after: Genesis,
) -> bool {
    &&& after.vault_account matches Slot::Occupied(vault)
    &&& after.escrow_account matches Slot::Occupied(escrow)
    &&& spec_vault_address(program_id) matches Some((vault_address, _))
    &&& spec_vault_authority(program_id) matches Some((authority, _))
    &&& spec_new_escrow_address(program_id) matches Some((escrow_address, _))
    &&& vault.key@ == vault_address
    &&& vault.data.mint == before.mint
    &&& vault.data.owner@ == authority
    &&& vault.data.amount == config.deposit_minimum
    &&& escrow.key@ == escrow_address
    &&& escrow.data == new_escrow(before, escrow_account_bump)
    &&& after.initializer_deposit_token_account.key == before.initializer_deposit_token_account.key
    &&& after.initializer_deposit_token_account.data.mint
        == before.initializer_deposit_token_account.data.mint
    &&& after.initializer_deposit_token_account.data.owner
        == before.initializer_deposit_token_account.data.owner
    &&& after.initializer_deposit_token_account.data.amount
        == before.initializer_deposit_token_account.data.amount - config.deposit_minimum
    &&& after.initializer == before.initializer
    &&& after.mint == before.mint
    &&& after.mint_mtm == before.mint_mtm
    &&& after.creator_a == before.creator_a
    &&& after.creator_b == before.creator_b
}

impl Genesis {
    /// The accounts of the move that funds the vault: from the deposit
    /// account to the vault, on the depositor's authority.
    fn into_transfer_to_pda_context(&self) -> (accounts: Transfer)
        requires
            self.vault_account is Occupied,
        ensures
            accounts.from == self.initializer_deposit_token_account.key,
            accounts.to == self.vault_account->Occupied_0.key,
            accounts.authority == self.initializer,
    {
        let to = match self.vault_account {
            Slot::Occupied(vault) => vault.key,
            _ => self.initializer,
        };
        Transfer { from: self.initializer_deposit_token_account.key, to, authority: self.initializer }
    }

    /// The accounts of the move that hands the vault over: the vault, on
    /// the depositor's authority.
    fn into_set_authority_context(&self) -> (accounts: SetAuthority)
        requires
            self.vault_account is Occupied,
        ensures
            accounts.account_or_mint == self.vault_account->Occupied_0.key,
            accounts.current_authority == self.initializer,
    {
        let account_or_mint = match self.vault_account {
            Slot::Occupied(vault) => vault.key,
            _ => self.initializer,
        };
        SetAuthority { account_or_mint, current_authority: self.initializer }
    }
}

/// Creates the vault and the escrow record under `config`. The record takes
/// the depositor, the deposit account, the reward token, the two creators and
/// `escrow_account_bump`. The vault is handed to the derived authority, and
/// then the deposit minimum, no more and no less, moves into it from the
/// deposit account. A call that fails changes nothing.
pub fn handler(
    program_id: &Identity,
    config: &ProtocolConfig,
    accounts: &mut Genesis,
    _vault_account_bump: u8,
    escrow_account_bump: u8,
) -> (r: Result<(), EscrowError>)
    ensures
        r == genesis_check(*program_id, *config, *old(accounts)),
        r is Ok ==> genesis_done(
            *program_id,
            *config,
            *old(accounts),
            escrow_account_bump,
            *final(accounts),
        ),
        r is Err ==> *final(accounts) == *old(accounts),
{
    if accounts.initializer_deposit_token_account.data.amount < config.deposit_minimum {
        return Err(EscrowError::InsufficientDeposit);
    }
    if !accounts.vault_account.is_vacant() || !accounts.escrow_account.is_vacant() {
        return Err(EscrowError::AccountMismatch);
    }
    let (vault_key, escrow_key, authority) = match (
        vault_address(program_id),
        new_escrow_address(program_id),
        vault_authority(program_id),
    ) {
        (Some((vault_key, _)), Some((escrow_key, _)), Some((authority, _))) => (
            vault_key,
            escrow_key,
            authority,
        ),
        _ => {
            return Err(EscrowError::AccountMismatch);
        },
    };
    let mut staged: Genesis = *accounts;
    let mut vault = Account {
        key: vault_key,
        data: TokenAccount { mint: accounts.mint, owner: accounts.initializer, amount: 0 },
    };
    staged.vault_account = Slot::Occupied(vault);
    staged.escrow_account = Slot::Occupied(
        Account {
            key: escrow_key,
            data: EscrowAccount {
                initializer_key: accounts.initializer,
                initializer_deposit_token_account: accounts.initializer_deposit_token_account.key,
                mtm_token_mint: accounts.mint_mtm,
                whitelist_creator_a: accounts.creator_a,
                whitelist_creator_b: accounts.creator_b,
                bump: escrow_account_bump,
            },
        },
    );
    let hand_over = staged.into_set_authority_context();
    let handed = set_authority(&hand_over, &accounts.initializer, &mut vault, authority);
    if handed.is_err() {
        return handed;
    }
    let fund = staged.into_transfer_to_pda_context();
    let mut deposit = accounts.initializer_deposit_token_account;
    proof {
        lemma_same_bytes(deposit.key, vault_key);
    }
    let funded = transfer(
        &fund,
        &accounts.initializer,
        &mut deposit,
        &mut vault,
        config.deposit_minimum,
    );
    if funded.is_err() {
        return funded;
    }
    staged.vault_account = Slot::Occupied(vault);
    staged.initializer_deposit_token_account = deposit;
    *accounts = staged;
    Ok(())
}

} // verus!
