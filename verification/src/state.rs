//! What the protocol keeps: the escrow record and the per-mount cooldown
//! record.
use vstd::prelude::*;
use crate::config::ProtocolConfig;
use crate::identity::Identity;

verus! {

/// The record of an active escrow. It names the depositor, the account the
/// deposit came from and returns to, the reward token that a redemption
/// burns, and the two creators whose mounts may redeem.
#[derive(Clone, Copy, Debug, PartialEq, Eq)]
pub struct EscrowAccount {
    /// The depositor: the one who funded the vault and may cancel.
    pub initializer_key: Identity,
    /// The account the deposit came from, to which a cancel refunds.
    pub initializer_deposit_token_account: Identity,
    /// The reward token.
    pub mtm_token_mint: Identity,
    /// The first whitelisted creator.
    pub whitelist_creator_a: Identity,
    /// The second whitelisted creator.
    pub whitelist_creator_b: Identity,
    /// The bump that completes the seed of the record's own address.
    pub bump: u8,
}

/// The cooldown record of one mount: how often it has redeemed, and when
/// last. A `timestamp` of 0 stands for "never".
#[derive(Clone, Copy, Debug, PartialEq, Eq)]
pub struct Data {
    /// How many redemptions the mount has taken part in.
    pub count: u8,
    /// The bump that completes the seed of the record's own address.
    pub bump: u8,
    /// The time of the last redemption, in seconds; 0 before the first.
    pub timestamp: i64,
}

impl Data {
    /// A record that has never redeemed.
    pub fn new(bump: u8) -> (data: Data)
        ensures
            data == (Data { count: 0, bump, timestamp: 0 }),
    {
        Data { count: 0, bump, timestamp: 0 }
    }

    /// The mount has not been used more often than `config` allows.
    pub open spec fn well_formed(&self, config: ProtocolConfig) -> bool {
        self.count <= config.max_uses
    }

    /// The mount has uses left under `config`.
    pub open spec fn spec_has_uses_left(&self, config: ProtocolConfig) -> bool {
        self.count < config.max_uses
    }

    /// Whether the mount has uses left under `config`.
    pub fn has_uses_left(&self, config: &ProtocolConfig) -> (r: bool)
        ensures
            r == self.spec_has_uses_left(*config),
    {
        self.count < config.max_uses
    }

    /// More than the cooldown has passed between the last redemption and
    /// `now`.
    pub open spec fn spec_cooled_down(&self, config: ProtocolConfig, now: i64) -> bool {
        now - self.timestamp > config.cooldown_seconds
    }

    /// Whether more than the cooldown has passed between the last
    /// redemption and `now`. The difference is taken exactly, whatever the
    /// two times are.
    pub fn cooled_down(&self, config: &ProtocolConfig, now: i64) -> (r: bool)
        ensures
            r == self.spec_cooled_down(*config, now),
    {
        let elapsed: i128 = (now as i128) - (self.timestamp as i128);
        elapsed > (config.cooldown_seconds as i128)
    }

    /// The record after a redemption at `now`.
    pub open spec fn spec_redeemed(&self, now: i64) -> Data {
        Data { count: (self.count + 1) as u8, bump: self.bump, timestamp: now }
    }

    /// The record after a redemption at `now`: one more use, last at `now`.
    pub fn redeemed(&self, now: i64) -> (data: Data)
        requires
            self.count < u8::MAX,
        ensures
            data == self.spec_redeemed(now),
            data.count == self.count + 1,
            data.timestamp == now,
            data.bump == self.bump,
    {
        Data { count: self.count + 1, bump: self.bump, timestamp: now }
    }
}

} // verus!
