//! The ways an operation can be refused.
use vstd::prelude::*;

verus! {

/// Why an operation was refused. Every refusal is final for the call that
/// met it, and a refused call changes nothing.
#[derive(Clone, Copy, Debug, PartialEq, Eq, Structural)]
pub enum EscrowError {
    /// The deposit account holds less than the deposit minimum.
    InsufficientDeposit,
    /// The caller is not the one the operation is reserved for.
    Unauthorized,
    /// A supplied account is not the one the operation calls for.
    AccountMismatch,
    /// A metadata account is not the registry's record for the token.
    InvalidProvenance,
    /// No verified creator of the token is on the whitelist.
    CreatorNotWhitelisted,
    /// The token was redeemed with too recently.
    CooldownNotElapsed,
    /// The token has been redeemed with as often as is allowed.
    UsageCapExceeded,
    /// One token was named for both mounts.
    DuplicateNftReference,
    /// The caller holds less of the reward token than a redemption costs.
    InsufficientRewardBalance,
    /// The token ledger refused a move.
    AuthorizationFailure,
}

} // verus!
