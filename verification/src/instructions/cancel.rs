//! Cancel: refunds the whole vault to the depositor and destroys the vault
//! and the escrow record.
use vstd::prelude::*;
use crate::account::{Account, Slot};
use crate::address::{spec_vault_authority, vault_authority};
use crate::error::EscrowError;
use crate::identity::{lemma_same_bytes, Identity};
use crate::ledger::{balance, close_account, transfer, CloseAccount, TokenAccount, Transfer};
use crate::state::EscrowAccount;

verus! {

/// The accounts of a cancel.
#[derive(Clone, Copy, Debug, PartialEq, Eq)]
pub struct Cancel {
    /// The caller, who signs.
    pub initializer: Identity,
    /// Where the vault lives.
    pub vault_account: Slot<Account<TokenAccount>>,
    /// The authority that the caller names for the vault.
    pub vault_authority: Identity,
    /// The account that the refund goes to.
    pub initializer_deposit_token_account: Account<TokenAccount>,
    /// Where the escrow record lives.
    pub escrow_account: Slot<Account<EscrowAccount>>,
}

/// The caller is the depositor that the escrow record names. Where there is
/// no record, nobody is.
pub open spec fn is_depositor(accounts: Cancel) -> bool {
    accounts.escrow_account matches Slot::Occupied(escrow) && escrow.data.initializer_key
        == accounts.initializer
}

/// The refund account is the deposit account that the escrow record names.
pub open spec fn is_deposit_account(accounts: Cancel) -> bool {
    accounts.escrow_account matches Slot::Occupied(escrow)
        && escrow.data.initializer_deposit_token_account
        == accounts.initializer_deposit_token_account.key
}

/// The ledger lets the derived authority empty the vault into the refund
/// account and close it: the vault exists and belongs to the authority that
/// the caller names, which is the derived one; the refund account is not the
/// vault, holds the vault's token and has room for what the vault holds.
pub open spec fn refund_allowed(program_id: Identity, accounts: Cancel) -> bool {
    &&& spec_vault_authority(program_id) matches Some((authority, _))
    &&& accounts.vault_account matches Slot::Occupied(vault)
    &&& accounts.vault_authority@ == authority
    &&& vault.data.owner == accounts.vault_authority
    &&& vault.key != accounts.initializer_deposit_token_account.key
    &&& vault.data.mint == accounts.initializer_deposit_token_account.data.mint
    &&& accounts.initializer_deposit_token_account.data.amount + vault.data.amount <= u64::MAX
}

/// What a cancel comes to. The caller must be the recorded depositor, else
/// `Unauthorized`, whatever else holds. The refund account must be the
/// recorded deposit account, else `AccountMismatch`. The ledger must make
/// the refund and the close, else `AuthorizationFailure`.
pub open spec fn cancel_check(program_id: Identity, accounts: Cancel) -> Result<(), EscrowError> {
    if !is_depositor(accounts) {
        Err(EscrowError::Unauthorized)
    } else if !is_deposit_account(accounts) {
        Err(EscrowError::AccountMismatch)
    } else if !refund_allowed(program_id, accounts) {
        Err(EscrowError::AuthorizationFailure)
    } else {
        Ok(())
    }
}

/// The accounts after a cancel that succeeds: vault and record are
/// destroyed, and the refund account holds what it held and what the vault
/// held.
pub open spec fn cancelled(accounts: Cancel) -> Cancel {
    Cancel {
        initializer: accounts.initializer,
        vault_account: Slot::Closed,
        vault_authority: accounts.vault_authority,
        initializer_deposit_token_account: Account {
            key: accounts.initializer_deposit_token_account.key,
            data: TokenAccount {
                mint: accounts.initializer_deposit_token_account.data.mint,
                owner: accounts.initializer_deposit_token_account.data.owner,
                amount: (accounts.initializer_deposit_token_account.data.amount + balance(
                    accounts.vault_account,
                )) as u64,
            },
        },
        escrow_account: Slot::Closed,
    }
}

impl Cancel {
    /// The accounts of the refund: from the vault to the refund account, on
    /// the authority that the caller names.
    fn into_transfer_to_initializer_context(&self) -> (accounts: Transfer)
        requires
            self.vault_account is Occupied,
        ensures
            accounts.from == self.vault_account->Occupied_0.key,
            accounts.to == self.initializer_deposit_token_account.key,
            accounts.authority == self.vault_authority,
    {
        let from = match self.vault_account {
            Slot::Occupied(vault) => vault.key,
            _ => self.vault_authority,
        };
        Transfer {
            from,
            to: self.initializer_deposit_token_account.key,
            authority: self.vault_authority,
        }
    }

    /// The accounts of the close: the vault, to the caller, on the
    /// authority that the caller names.
    fn into_close_context(&self) -> (accounts: CloseAccount)
        requires
            self.vault_account is Occupied,
        ensures
            accounts.account == self.vault_account->Occupied_0.key,
            accounts.destination == self.initializer,
            accounts.authority == self.vault_authority,
    {
        let account = match self.vault_account {
            Slot::Occupied(vault) => vault.key,
            _ => self.vault_authority,
        };
        CloseAccount { account, destination: self.initializer, authority: self.vault_authority }
    }
}

/// Ends the escrow. Only the recorded depositor may cancel, and only into
/// the recorded deposit account. The derived authority moves all that the
/// vault holds to that account and closes the vault, and the record is
/// destroyed with it. A call that fails changes nothing.
pub fn handler(program_id: &Identity, accounts: &mut Cancel) -> (r: Result<(), EscrowError>)
    ensures
        r == cancel_check(*program_id, *old(accounts)),
        r is Ok ==> *final(accounts) == cancelled(*old(accounts)),
        r is Ok ==> balance(final(accounts).vault_account) == 0 && final(accounts).escrow_account
            is Closed,
        r is Err ==> *final(accounts) == *old(accounts),
{
    let escrow = match accounts.escrow_account {
        Slot::Occupied(escrow) => escrow,
        _ => {
            return Err(EscrowError::Unauthorized);
        },
    };
    if !escrow.data.initializer_key.same(&accounts.initializer) {
        return Err(EscrowError::Unauthorized);
    }
    if !escrow.data.initializer_deposit_token_account.same(
        &accounts.initializer_deposit_token_account.key,
    ) {
        return Err(EscrowError::AccountMismatch);
    }
    let signer = match vault_authority(program_id) {
        Some((signer, _)) => signer,
        None => {
            return Err(EscrowError::AuthorizationFailure);
        },
    };
    let mut vault = match accounts.vault_account {
        Slot::Occupied(vault) => vault,
        _ => {
            return Err(EscrowError::AuthorizationFailure);
        },
    };
    proof {
        lemma_same_bytes(accounts.vault_authority, signer);
    }
    let refund = accounts.into_transfer_to_initializer_context();
    let mut deposit = accounts.initializer_deposit_token_account;
    let amount = vault.data.amount;
    let refunded = transfer(&refund, &signer, &mut vault, &mut deposit, amount);
    if refunded.is_err() {
        return refunded;
    }
    let close = accounts.into_close_context();
    let mut slot = Slot::Occupied(vault);
    let closed = close_account(&close, &signer, &mut slot);
    if closed.is_err() {
        return closed;
    }
    accounts.vault_account = slot;
    accounts.initializer_deposit_token_account = deposit;
    accounts.escrow_account = Slot::Closed;
    Ok(())
}

} // verus!
