//! Key management and liquidity decisions for a Lightning node's companion
//! on-chain wallet.
//!
//! The crate derives deterministic key material for an on-chain wallet and a
//! Lightning node from a single mnemonic, encodes and re-checks the stored key
//! record, decides whether outputs released by a channel close need a sweep
//! transaction, and sizes the channel a pending payment requires.

pub mod convert;
pub mod errors;
pub mod hexcodec;
pub mod keys;
pub mod keystore;
pub mod liquidity;
pub mod network;
pub mod sweep;
pub mod wallet;
