//! Holding a mount: the caller's token account holds the one unit of the
//! mount that exists.
use vstd::prelude::*;
use crate::account::Account;
use crate::error::EscrowError;
use crate::identity::Identity;
use crate::ledger::TokenAccount;

verus! {

/// What the holding check makes of a token account: `AccountMismatch` where
/// it holds another token than `mint`, `Unauthorized` where it does not hold
/// exactly one unit or is not owned by `holder`, in that order.
pub open spec fn spec_check_holding(
    token_account: Account<TokenAccount>,
    mint: Identity,
    holder: Identity,
) -> Result<(), EscrowError> {
    if token_account.data.mint != mint {
        Err(EscrowError::AccountMismatch)
    } else if token_account.data.amount != 1 {
        Err(EscrowError::Unauthorized)
    } else if token_account.data.owner != holder {
        Err(EscrowError::Unauthorized)
    } else {
        Ok(())
    }
}

/// Checks that `token_account` holds exactly one unit of `mint` for
/// `holder`.
pub fn check_holding(token_account: &Account<TokenAccount>, mint: &Identity, holder: &Identity) -> (r:
    Result<(), EscrowError>)
    ensures
        r == spec_check_holding(*token_account, *mint, *holder),
{
    if !token_account.data.mint.same(mint) {
        Err(EscrowError::AccountMismatch)
    } else if token_account.data.amount != 1 {
        Err(EscrowError::Unauthorized)
    } else if !token_account.data.owner.same(holder) {
        Err(EscrowError::Unauthorized)
    } else {
        Ok(())
    }
}

} // verus!
