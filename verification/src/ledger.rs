//! The token ledger as the protocol relies on it: accounts that hold an
//! amount of one token for one owner, and the four moves the protocol asks
//! of the ledger. A move names its accounts and its authority; the ledger
//! makes it only when that authority signed and is the owner of the account
//! that the move takes from or changes.
use vstd::prelude::*;
use crate::account::{Account, Slot};
use crate::error::EscrowError;
use crate::identity::Identity;

verus! {

/// A holding of `amount` units of the token `mint`, owned by `owner`.
#[derive(Clone, Copy, Debug, PartialEq, Eq)]
pub struct TokenAccount {
    pub mint: Identity,
    pub owner: Identity,
    pub amount: u64,
}

/// The accounts of a transfer.
#[derive(Clone, Copy, Debug, PartialEq, Eq)]
pub struct Transfer {
    pub from: Identity,
    pub to: Identity,
    pub authority: Identity,
}

/// The accounts of a burn.
#[derive(Clone, Copy, Debug, PartialEq, Eq)]
pub struct Burn {
    pub mint: Identity,
    pub from: Identity,
    pub authority: Identity,
}

/// The accounts of a change of owner.
#[derive(Clone, Copy, Debug, PartialEq, Eq)]
pub struct SetAuthority {
    pub account_or_mint: Identity,
    pub current_authority: Identity,
}

/// The accounts of a close.
#[derive(Clone, Copy, Debug, PartialEq, Eq)]
pub struct CloseAccount {
    pub account: Identity,
    pub destination: Identity,
    pub authority: Identity,
}

/// The units held in a slot: those of the account in it, and none where
/// there is no account.
pub open spec fn balance(slot: Slot<Account<TokenAccount>>) -> nat {
    match slot {
        Slot::Occupied(account) => account.data.amount as nat,
        _ => 0,
    }
}

/// The account with another amount.
pub open spec fn with_amount(account: Account<TokenAccount>, amount: u64) -> Account<TokenAccount> {
    Account {
        key: account.key,
        data: TokenAccount { mint: account.data.mint, owner: account.data.owner, amount },
    }
}

/// The account with another owner.
pub open spec fn with_owner(account: Account<TokenAccount>, owner: Identity) -> Account<
    TokenAccount,
> {
    Account {
        key: account.key,
        data: TokenAccount { mint: account.data.mint, owner, amount: account.data.amount },
    }
}

/// The ledger makes this transfer: the move names these two accounts, which
/// are two and hold the same token; its authority signed and owns the
/// source; the source holds the amount and the destination has room for it.
pub open spec fn transfer_allowed(
    accounts: Transfer,
    signer: Identity,
    from: Account<TokenAccount>,
    to: Account<TokenAccount>,
    amount: u64,
) -> bool {
    &&& accounts.from == from.key
    &&& accounts.to == to.key
    &&& accounts.authority == signer
    &&& from.data.owner == accounts.authority
    &&& from.key != to.key
    &&& from.data.mint == to.data.mint
    &&& from.data.amount >= amount
    &&& to.data.amount + amount <= u64::MAX
}

/// The ledger makes this burn: the move names this account and its token;
/// its authority signed and owns the account; the account holds the amount.
pub open spec fn burn_allowed(
    accounts: Burn,
    signer: Identity,
    from: Account<TokenAccount>,
    amount: u64,
) -> bool {
    &&& accounts.from == from.key
    &&& accounts.mint == from.data.mint
    &&& accounts.authority == signer
    &&& from.data.owner == accounts.authority
    &&& from.data.amount >= amount
}

/// The ledger makes this change of owner: the move names this account; the
/// current authority signed and owns it.
pub open spec fn set_authority_allowed(
    accounts: SetAuthority,
    signer: Identity,
    account: Account<TokenAccount>,
) -> bool {
    &&& accounts.account_or_mint == account.key
    &&& accounts.current_authority == signer
    &&& account.data.owner == accounts.current_authority
}

/// The ledger makes this close: the slot holds the account that the move
/// names; its authority signed and owns the account; the account is empty.
pub open spec fn close_allowed(
    accounts: CloseAccount,
    signer: Identity,
    slot: Slot<Account<TokenAccount>>,
) -> bool {
    match slot {
        Slot::Occupied(account) => {
            &&& accounts.account == account.key
            &&& accounts.authority == signer
            &&& account.data.owner == accounts.authority
            &&& account.data.amount == 0
        },
        _ => false,
    }
}

/// Moves `amount` units from `from` to `to`. Where the ledger does not make
/// the move, it fails with `AuthorizationFailure` and changes nothing.
pub fn transfer(
    accounts: &Transfer,
    signer: &Identity,
    from: &mut Account<TokenAccount>,
    to: &mut Account<TokenAccount>,
    amount: u64,
) -> (r: Result<(), EscrowError>)
    ensures
        r is Ok <==> transfer_allowed(*accounts, *signer, *old(from), *old(to), amount),
        r is Ok ==> *final(from) == with_amount(*old(from), (old(from).data.amount - amount) as u64)
            && *final(to) == with_amount(*old(to), (old(to).data.amount + amount) as u64),
        r is Err ==> r == Err::<(), EscrowError>(EscrowError::AuthorizationFailure) && *final(from)
            == *old(from) && *final(to) == *old(to),
{
    if !accounts.from.same(&from.key) || !accounts.to.same(&to.key) || !accounts.authority.same(
        signer,
    ) || !from.data.owner.same(&accounts.authority) || from.key.same(&to.key)
        || !from.data.mint.same(&to.data.mint) {
        return Err(EscrowError::AuthorizationFailure);
    }
    if from.data.amount < amount || amount > u64::MAX - to.data.amount {
        return Err(EscrowError::AuthorizationFailure);
    }
    from.data.amount = from.data.amount - amount;
    to.data.amount = to.data.amount + amount;
    Ok(())
}

/// Destroys `amount` units held in `from`. Where the ledger does not make
/// the move, it fails with `AuthorizationFailure` and changes nothing.
pub fn burn(accounts: &Burn, signer: &Identity, from: &mut Account<TokenAccount>, amount: u64) -> (r:
    Result<(), EscrowError>)
    ensures
        r is Ok <==> burn_allowed(*accounts, *signer, *old(from), amount),
        r is Ok ==> *final(from) == with_amount(*old(from), (old(from).data.amount - amount) as u64),
        r is Err ==> r == Err::<(), EscrowError>(EscrowError::AuthorizationFailure) && *final(from)
            == *old(from),
{
    if !accounts.from.same(&from.key) || !accounts.mint.same(&from.data.mint)
        || !accounts.authority.same(signer) || !from.data.owner.same(&accounts.authority)
        || from.data.amount < amount {
        return Err(EscrowError::AuthorizationFailure);
    }
    from.data.amount = from.data.amount - amount;
    Ok(())
}

/// Hands the account to `new_authority`. Where the ledger does not make the
/// move, it fails with `AuthorizationFailure` and changes nothing.
pub fn set_authority(
    accounts: &SetAuthority,
    signer: &Identity,
    account: &mut Account<TokenAccount>,
    new_authority: Identity,
) -> (r: Result<(), EscrowError>)
    ensures
        r is Ok <==> set_authority_allowed(*accounts, *signer, *old(account)),
        r is Ok ==> *final(account) == with_owner(*old(account), new_authority),
        r is Err ==> r == Err::<(), EscrowError>(EscrowError::AuthorizationFailure)
            && *final(account) == *old(account),
{
    if !accounts.account_or_mint.same(&account.key) || !accounts.current_authority.same(signer)
        || !account.data.owner.same(&accounts.current_authority) {
        return Err(EscrowError::AuthorizationFailure);
    }
    account.data.owner = new_authority;
    Ok(())
}

/// Destroys the empty account in `slot`. Where the ledger does not make the
/// move, it fails with `AuthorizationFailure` and changes nothing.
pub fn close_account(
    accounts: &CloseAccount,
    signer: &Identity,
    slot: &mut Slot<Account<TokenAccount>>,
) -> (r: Result<(), EscrowError>)
    ensures
        r is Ok <==> close_allowed(*accounts, *signer, *old(slot)),
        r is Ok ==> *final(slot) == Slot::<Account<TokenAccount>>::Closed,
        r is Err ==> r == Err::<(), EscrowError>(EscrowError::AuthorizationFailure) && *final(slot)
            == *old(slot),
{
    let allowed = match slot {
        Slot::Occupied(account) => accounts.account.same(&account.key) && accounts.authority.same(
            signer,
        ) && account.data.owner.same(&accounts.authority) && account.data.amount == 0,
        _ => false,
    };
    if !allowed {
        return Err(EscrowError::AuthorizationFailure);
    }
    *slot = Slot::Closed;
    Ok(())
}

} // verus!
