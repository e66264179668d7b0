//! The four operations: genesis, cancel, initialize and redeem.
pub mod cancel;
pub mod genesis;
pub mod initialize;
pub mod redeem;
