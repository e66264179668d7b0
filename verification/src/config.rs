//! The protocol's parameters.
use vstd::prelude::*;

verus! {

/// The least a deposit account must hold at genesis, and the amount that
/// genesis moves into the vault.
pub const DEPOSIT_MINIMUM: u64 = 2202;

/// The seconds that must have passed since a mount's last redemption.
pub const COOLDOWN_SECONDS: i64 = 60;

/// How often one mount can take part in a redemption.
pub const MAX_USES: u8 = 5;

/// The amount of reward token that one redemption burns.
pub const REWARD_COST: u64 = 200_000_000_000;

/// The amount that one redemption pays out of the vault.
pub const PAYOUT: u64 = 1;

/// The parameters that the operations run under, held in one value so that
/// a caller can run them under others.
#[derive(Clone, Copy, Debug, PartialEq, Eq, Structural)]
pub struct ProtocolConfig {
    pub deposit_minimum: u64,
    pub cooldown_seconds: i64,
    pub max_uses: u8,
    pub reward_cost: u64,
    pub payout: u64,
}

impl ProtocolConfig {
    /// The parameters of the protocol as it is deployed.
    pub open spec fn spec_standard() -> ProtocolConfig {
        ProtocolConfig {
            deposit_minimum: DEPOSIT_MINIMUM,
            cooldown_seconds: COOLDOWN_SECONDS,
            max_uses: MAX_USES,
            reward_cost: REWARD_COST,
            payout: PAYOUT,
        }
    }

    /// The parameters of the protocol as it is deployed.
    #[verifier::when_used_as_spec(spec_standard)]
    pub fn standard() -> (config: ProtocolConfig)
        ensures
            config == Self::spec_standard(),
            config.deposit_minimum == 2202,
            config.cooldown_seconds == 60,
            config.max_uses == 5,
            config.reward_cost == 200_000_000_000,
            config.payout == 1,
    {
        ProtocolConfig {
            deposit_minimum: DEPOSIT_MINIMUM,
            cooldown_seconds: COOLDOWN_SECONDS,
            max_uses: MAX_USES,
            reward_cost: REWARD_COST,
            payout: PAYOUT,
        }
    }
}

} // verus!
