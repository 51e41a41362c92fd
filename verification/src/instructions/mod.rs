//! The faucet's instructions: the accounts each reads, the constraints they
//! must meet, and the steps each takes.

pub mod initialize;
pub mod fund;
pub mod airdrop;
pub mod refund;
pub mod close_faucet;
