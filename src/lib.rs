//! Outbound transaction lifecycle for an ERC20 payment driver: gas policy,
//! nonce choice, transaction building, send/resend decisions and
//! reconciliation of on-chain receipts, each with a verified contract.

pub mod network;
pub mod gas;
pub mod packing;
pub mod chain;
pub mod lifecycle;
pub mod nonce;
pub mod text;
pub mod abi;
pub mod builder;
pub mod wallet;
pub mod provider;
