//! The rules of a token faucet: its state, the checks its instructions make,
//! and the transitions they cause.

pub mod error;
pub mod key;
pub mod address;
pub mod instruction;
pub mod state;
pub mod constraints;
pub mod instructions;
pub mod faucet;
pub mod laws;
pub mod accounts_laws;
