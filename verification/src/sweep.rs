//! The sweep-necessity decision for outputs released by a channel close.
//!
//! When a channel closes, the channel manager reports a batch of newly
//! spendable output descriptors. If every destination script already equals
//! the wallet's own shutdown script, the funds sit at a wallet-controlled
//! address and building a second transaction would be redundant; if any
//! destination differs, a sweep is needed. The decision is made once per
//! batch, and it is total over the three descriptor kinds.

use vstd::prelude::*;

use crate::hexcodec::bytes_eq;

verus! {

/// The witness-pubkey-hash script (`OP_0 <20-byte key hash>`) a node uses as
/// its shutdown script for a compressed public key, or `None` when the bytes
/// are not a valid compressed public key. A pure function of the key bytes.
pub uninterp spec fn p2wpkh_script_of(public_key: Seq<u8>) -> Option<Seq<u8>>;

/// Relies on bitcoin's `CompressedPublicKey::from_slice` and `wpubkey_hash`,
/// and on lightning's `ShutdownScript::new_p2wpkh` with its conversion to a
/// script: the script bytes are a function of the public key alone.
#[verifier::external_body]
pub fn shutdown_script_for_pubkey(public_key: &Vec<u8>) -> (r: Option<Vec<u8>>)
    ensures
        r is Some <==> p2wpkh_script_of(public_key@) is Some,
        r matches Some(v) ==> Some(v@) == p2wpkh_script_of(public_key@),
{
    let cpk = match bitcoin::CompressedPublicKey::from_slice(public_key.as_slice()) {
        Ok(c) => c,
        Err(_) => return None,
    };
    let script = lightning::ln::script::ShutdownScript::new_p2wpkh(
        &cpk.wpubkey_hash(),
    ).into_inner();
    Some(script.into_bytes())
}

/// One transaction output: its locking script and its value.
pub struct TxOut {
    /// The destination locking script, as raw script bytes.
    pub script_pubkey: Vec<u8>,
    /// Output value in satoshis.
    pub value_sat: u64,
}

/// A newly spendable output a channel close released, as the channel manager
/// describes it: a closed union of three kinds, each carrying a destination
/// script and an amount.
pub enum SpendableOutput {
    /// Immediately spendable, paid straight to a wallet address.
    Static { output: TxOut },
    /// Spendable only after the channel's to-self delay.
    DelayedPayment { output: TxOut },
    /// The counterparty-payment form, claimable through a nested output.
    StaticPayment { output: TxOut },
}

impl SpendableOutput {
    /// The destination script of this descriptor, whichever kind it is.
    pub open spec fn spec_dest_script(self) -> Seq<u8> {
        match self {
            SpendableOutput::Static { output } => output.script_pubkey@,
            SpendableOutput::DelayedPayment { output } => output.script_pubkey@,
            SpendableOutput::StaticPayment { output } => output.script_pubkey@,
        }
    }

    /// The amount of this descriptor, whichever kind it is.
    pub open spec fn spec_amount_sat(self) -> u64 {
        match self {
            SpendableOutput::Static { output } => output.value_sat,
            SpendableOutput::DelayedPayment { output } => output.value_sat,
            SpendableOutput::StaticPayment { output } => output.value_sat,
        }
    }

    /// Extracts the destination script; the rule is the same for every kind,
    /// and the match is exhaustive over the closed union.
    pub fn dest_script(&self) -> (r: &Vec<u8>)
        ensures
            r@ == self.spec_dest_script(),
    {
        match self {
            SpendableOutput::Static { output } => &output.script_pubkey,
            SpendableOutput::DelayedPayment { output } => &output.script_pubkey,
            SpendableOutput::StaticPayment { output } => &output.script_pubkey,
        }
    }
}

/// Decides whether a batch of newly spendable outputs warrants a sweep
/// transaction: true exactly when at least one destination script differs
/// from the wallet's shutdown script. The decision is binary for the whole
/// batch; in particular an empty batch needs no sweep, and a batch paid
/// entirely to the wallet's own shutdown script needs none.
pub fn needs_sweep(descriptors: &Vec<SpendableOutput>, wallet_shutdown_script: &Vec<u8>) -> (r:
    bool)
    ensures
        r == exists|i: int|
            0 <= i < descriptors@.len() && (#[trigger] descriptors@[i]).spec_dest_script()
                != wallet_shutdown_script@,
{
    let mut is_any_different = false;
    let mut idx: usize = 0;
    while idx < descriptors.len()
        invariant
            idx <= descriptors@.len(),
            is_any_different == exists|i: int|
                0 <= i < idx && (#[trigger] descriptors@[i]).spec_dest_script()
                    != wallet_shutdown_script@,
        decreases descriptors@.len() - idx,
    {
        let differs = !bytes_eq(descriptors[idx].dest_script(), wallet_shutdown_script);
        proof {
            if differs {
                assert(descriptors@[idx as int].spec_dest_script() != wallet_shutdown_script@);
            }
        }
        is_any_different = is_any_different || differs;
        idx += 1;
    }
    is_any_different
}

/// Law: a batch whose destinations all equal the wallet's shutdown script
/// needs no sweep, and a batch with any differing destination needs one —
/// the two directions of `needs_sweep`'s contract, stated positively.
pub proof fn lemma_sweep_totality(descriptors: Seq<SpendableOutput>, shutdown: Seq<u8>, r: bool)
    requires
        r == exists|i: int|
            0 <= i < descriptors.len() && (#[trigger] descriptors[i]).spec_dest_script()
                != shutdown,
    ensures
        (forall|i: int|
            0 <= i < descriptors.len() ==> (#[trigger] descriptors[i]).spec_dest_script()
                == shutdown) ==> !r,
        (exists|i: int|
            0 <= i < descriptors.len() && (#[trigger] descriptors[i]).spec_dest_script()
                != shutdown) ==> r,
{
}

} // verus!
