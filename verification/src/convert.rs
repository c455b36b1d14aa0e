//! Plain data carried between the on-chain RPC edge and the wallet logic.
//!
//! The RPC transport and its JSON decoding are collaborators outside this
//! library; they hand these values in and take them back. Amounts cross the
//! boundary as whole satoshis: the edge converts the fractional
//! bitcoin-denominated amounts its RPC reports before anything here sees them.

use vstd::prelude::*;

verus! {

/// A freshly generated receiving address, as the RPC edge reports it.
pub struct NewAddress(pub String);

/// A fee-rate estimate, already converted by the RPC edge to satoshis per
/// 1000 weight units; `errored` is set when the estimator reported a problem.
pub struct FeeResponse {
    pub feerate_sat_per_kw: Option<u32>,
    pub errored: bool,
}

/// One unspent transaction output owned by the wallet.
pub struct Utxo {
    pub tx_id: String,
    pub vout: u32,
    pub address: String,
    /// Output value in whole satoshis.
    pub amount_sat: u64,
    pub confirmations: u32,
    /// The output's locking script, hex-encoded.
    pub script_pub_key: String,
    /// The redeem script when the locking script is pay-to-script-hash (hex).
    pub redeem_script: String,
    /// The witness script for pay-to-witness-script-hash outputs (hex).
    pub witness_script: String,
}

/// The wallet's current unspent-output snapshot.
pub struct Unspents {
    pub utxos: Vec<Utxo>,
}

} // verus!
