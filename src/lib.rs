//! Multi-chain key derivation from one mnemonic, and the decision logic of a
//! borrow / repay lifecycle run against an external loan tool.
pub mod error;
pub mod contract_id;
pub mod keys;
pub mod state;
pub mod lifecycle;
pub mod funding;
