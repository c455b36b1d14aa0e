//! Deterministic hierarchical key derivation.
//!
//! A mnemonic phrase yields a 64-byte master seed (empty passphrase), and the
//! master seed yields two independent 32-byte secrets along fixed,
//! network-selected derivation paths: one for the on-chain wallet key, a
//! second, disjoint one for the Lightning node seed. Both derivations are pure
//! functions of seed and network, so re-importing the same mnemonic
//! reproduces the same secrets byte for byte.

use vstd::prelude::*;

use crate::errors::WalletError;
use crate::keystore::KeyRecord;
use crate::network::Network;

verus! {

/// The 64-byte master seed that a mnemonic phrase encodes (empty passphrase),
/// or `None` when the phrase fails validation. A pure function of the phrase.
pub uninterp spec fn seed_of_phrase(phrase: Seq<char>) -> Option<Seq<u8>>;

/// The 32-byte child private key that hierarchical derivation produces from a
/// master seed along a derivation path, or `None` when the path is malformed,
/// the seed has an unusable length, or child derivation fails. A pure
/// function of seed and path.
pub uninterp spec fn hd_child_key(seed: Seq<u8>, path: Seq<char>) -> Option<Seq<u8>>;

/// Relies on bip39's `Mnemonic::parse` — word-count, word-list and checksum
/// validation — and `Mnemonic::to_seed` with the empty passphrase, whose
/// 64-byte result depends on the phrase alone.
#[verifier::external_body]
fn mnemonic_to_seed(phrase: &str) -> (r: Option<Vec<u8>>)
    ensures
        r is Some <==> seed_of_phrase(phrase@) is Some,
        r matches Some(v) ==> Some(v@) == seed_of_phrase(phrase@) && v@.len() == 64,
{
    match bip39::Mnemonic::parse(phrase) {
        Ok(m) => Some(m.to_seed("").to_vec()),
        Err(_) => None,
    }
}

/// Relies on bip32's `DerivationPath::from_str` and `XPrv::derive_from_path`:
/// the child key is derived by folding the path's child numbers over the
/// master key, and depends on the seed bytes and the path string alone.
/// `XPrv::new` rejects any seed whose length is not 16, 32 or 64 bytes.
#[verifier::external_body]
fn derive_child_key(seed: &Vec<u8>, path: &str) -> (r: Option<Vec<u8>>)
    ensures
        r is Some <==> hd_child_key(seed@, path@) is Some,
        r matches Some(v) ==> Some(v@) == hd_child_key(seed@, path@) && v@.len() == 32,
        seed@.len() != 16 && seed@.len() != 32 && seed@.len() != 64 ==> r is None,
{
    let parsed: bip32::DerivationPath = match path.parse() {
        Ok(d) => d,
        Err(_) => return None,
    };
    match bip32::XPrv::derive_from_path(seed.as_slice(), &parsed) {
        Ok(key) => Some(key.to_bytes().to_vec()),
        Err(_) => None,
    }
}

/// The derivation path of the on-chain wallet key for a network.
pub open spec fn spec_l1_path(net: Network) -> Seq<char> {
    if net.spec_is_testnet_like() {
        "m/84'/1'/0'/0/0"@
    } else {
        "m/84'/0'/0'/0/0"@
    }
}

/// The derivation path of the Lightning node seed for a network, disjoint
/// from the on-chain path.
pub open spec fn spec_node_seed_path(net: Network) -> Seq<char> {
    if net.spec_is_testnet_like() {
        "m/2121'/9735'/1'/0/0"@
    } else {
        "m/2121'/9735'/0'/0/0"@
    }
}

/// The on-chain wallet key a master seed determines on a network.
pub open spec fn spec_l1_key(seed: Seq<u8>, net: Network) -> Option<Seq<u8>> {
    hd_child_key(seed, spec_l1_path(net))
}

/// The Lightning node seed a master seed determines on a network.
pub open spec fn spec_node_seed(seed: Seq<u8>, net: Network) -> Option<Seq<u8>> {
    hd_child_key(seed, spec_node_seed_path(net))
}

/// Derives the 32-byte child private key for an explicit derivation path.
/// Fails — with `DerivationFailed`, not a panic — exactly when the path is
/// malformed or child-key derivation rejects the seed.
pub fn priv_key_from_hdwallet_with_derivation(seed: &Vec<u8>, derivation_path: &str) -> (r: Result<
    Vec<u8>,
    WalletError,
>)
    ensures
        r is Ok <==> hd_child_key(seed@, derivation_path@) is Some,
        r matches Ok(v) ==> Some(v@) == hd_child_key(seed@, derivation_path@) && v@.len() == 32,
        r matches Err(e) ==> e == WalletError::DerivationFailed,
{
    match derive_child_key(seed, derivation_path) {
        Some(v) => Ok(v),
        None => Err(WalletError::DerivationFailed),
    }
}

/// Derives the on-chain wallet signing key from a master seed, along the
/// fixed path that the network family selects.
pub fn priv_key_from_hdwallet(seed: &Vec<u8>, network: Network) -> (r: Result<
    Vec<u8>,
    WalletError,
>)
    ensures
        r is Ok <==> spec_l1_key(seed@, network) is Some,
        r matches Ok(v) ==> Some(v@) == spec_l1_key(seed@, network) && v@.len() == 32,
        r matches Err(e) ==> e == WalletError::DerivationFailed,
{
    let path: &str = if network.is_testnet_like() {
        "m/84'/1'/0'/0/0"
    } else {
        "m/84'/0'/0'/0/0"
    };
    priv_key_from_hdwallet_with_derivation(seed, path)
}

/// Derives the Lightning node seed from a master seed, along the second,
/// disjoint fixed path that the network family selects.
pub fn ldk_seed_from_hdwallet(seed: &Vec<u8>, network: Network) -> (r: Result<
    Vec<u8>,
    WalletError,
>)
    ensures
        r is Ok <==> spec_node_seed(seed@, network) is Some,
        r matches Ok(v) ==> Some(v@) == spec_node_seed(seed@, network) && v@.len() == 32,
        r matches Err(e) ==> e == WalletError::DerivationFailed,
{
    let path: &str = if network.is_testnet_like() {
        "m/2121'/9735'/1'/0/0"
    } else {
        "m/2121'/9735'/0'/0/0"
    };
    priv_key_from_hdwallet_with_derivation(seed, path)
}

/// Validates a mnemonic phrase and derives the full key record from it: the
/// master seed (ephemeral, never returned), then both 32-byte secrets.
/// `InvalidMnemonic` reports a phrase that fails validation; `DerivationFailed`
/// reports a derivation the master seed cannot support. No partial record is
/// ever produced.
pub fn derive_record_from_mnemonic(phrase: &str, network: Network) -> (r: Result<
    KeyRecord,
    WalletError,
>)
    ensures
        seed_of_phrase(phrase@) is None <==> r == Err::<KeyRecord, WalletError>(
            WalletError::InvalidMnemonic,
        ),
        r is Ok <==> (seed_of_phrase(phrase@) matches Some(seed) && spec_l1_key(seed, network)
            is Some && spec_node_seed(seed, network) is Some),
        r matches Ok(rec) ==> (seed_of_phrase(phrase@) matches Some(seed) && Some(rec.l1_key@)
            == spec_l1_key(seed, network) && Some(rec.node_seed@) == spec_node_seed(seed, network)
            && rec.wf()),
        r matches Err(e) ==> (e == WalletError::InvalidMnemonic || e
            == WalletError::DerivationFailed),
{
    let seed = match mnemonic_to_seed(phrase) {
        None => {
            return Err(WalletError::InvalidMnemonic);
        },
        Some(s) => s,
    };
    let l1_key = match priv_key_from_hdwallet(&seed, network) {
        Err(e) => {
            return Err(e);
        },
        Ok(k) => k,
    };
    let node_seed = match ldk_seed_from_hdwallet(&seed, network) {
        Err(e) => {
            return Err(e);
        },
        Ok(k) => k,
    };
    Ok(KeyRecord { l1_key, node_seed })
}

/// Law: derivation is deterministic — the same master seed and network give
/// byte-identical results, across repeated invocations and across restarts,
/// for both the on-chain key and the node seed.
pub proof fn lemma_derivation_deterministic(
    seed1: Seq<u8>,
    net1: Network,
    seed2: Seq<u8>,
    net2: Network,
)
    requires
        seed1 == seed2,
        net1 == net2,
    ensures
        spec_l1_key(seed1, net1) == spec_l1_key(seed2, net2),
        spec_node_seed(seed1, net1) == spec_node_seed(seed2, net2),
{
}

/// Law: the on-chain path and the node-seed path are disjoint on every
/// network, so the two secrets never come from the same derivation.
pub proof fn lemma_derivation_paths_disjoint(net: Network)
    ensures
        spec_l1_path(net) != spec_node_seed_path(net),
{
    reveal_strlit("m/84'/1'/0'/0/0");
    reveal_strlit("m/84'/0'/0'/0/0");
    reveal_strlit("m/2121'/9735'/1'/0/0");
    reveal_strlit("m/2121'/9735'/0'/0/0");
    assert(spec_l1_path(net).len() == 15);
    assert(spec_node_seed_path(net).len() == 20);
}

} // verus!
