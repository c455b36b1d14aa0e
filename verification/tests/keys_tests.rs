use lnwallet::errors::WalletError;
use lnwallet::keys::{
    derive_record_from_mnemonic, ldk_seed_from_hdwallet, priv_key_from_hdwallet,
    priv_key_from_hdwallet_with_derivation,
};
use lnwallet::network::Network;

const PHRASE: &str = "abandon abandon abandon abandon abandon abandon abandon abandon abandon abandon abandon about";

#[test]
fn derivation_is_deterministic_mainnet() {
    let a = derive_record_from_mnemonic(PHRASE, Network::Bitcoin).ok().unwrap();
    let b = derive_record_from_mnemonic(PHRASE, Network::Bitcoin).ok().unwrap();
    assert_eq!(a.l1_key, b.l1_key);
    assert_eq!(a.node_seed, b.node_seed);
    assert_eq!(a.l1_key.len(), 32);
    assert_eq!(a.node_seed.len(), 32);
}

#[test]
fn derivation_is_deterministic_testnet() {
    let a = derive_record_from_mnemonic(PHRASE, Network::Testnet).ok().unwrap();
    let b = derive_record_from_mnemonic(PHRASE, Network::Testnet).ok().unwrap();
    assert_eq!(a.l1_key, b.l1_key);
    assert_eq!(a.node_seed, b.node_seed);
}

#[test]
fn l1_key_and_node_seed_differ() {
    let mainnet = derive_record_from_mnemonic(PHRASE, Network::Bitcoin).ok().unwrap();
    assert_ne!(mainnet.l1_key, mainnet.node_seed);
    let testnet = derive_record_from_mnemonic(PHRASE, Network::Testnet).ok().unwrap();
    assert_ne!(testnet.l1_key, testnet.node_seed);
}

#[test]
fn networks_use_distinct_paths() {
    let mainnet = derive_record_from_mnemonic(PHRASE, Network::Bitcoin).ok().unwrap();
    let testnet = derive_record_from_mnemonic(PHRASE, Network::Testnet).ok().unwrap();
    assert_ne!(mainnet.l1_key, testnet.l1_key);
    assert_ne!(mainnet.node_seed, testnet.node_seed);
}

#[test]
fn regtest_and_signet_share_the_testnet_paths() {
    let testnet = derive_record_from_mnemonic(PHRASE, Network::Testnet).ok().unwrap();
    let regtest = derive_record_from_mnemonic(PHRASE, Network::Regtest).ok().unwrap();
    let signet = derive_record_from_mnemonic(PHRASE, Network::Signet).ok().unwrap();
    assert_eq!(testnet.l1_key, regtest.l1_key);
    assert_eq!(testnet.node_seed, regtest.node_seed);
    assert_eq!(testnet.l1_key, signet.l1_key);
    assert_eq!(testnet.node_seed, signet.node_seed);
}

#[test]
fn invalid_mnemonic_is_rejected() {
    let r = derive_record_from_mnemonic("definitely not a valid phrase", Network::Bitcoin);
    assert!(matches!(r, Err(WalletError::InvalidMnemonic)));
    let r2 = derive_record_from_mnemonic("", Network::Bitcoin);
    assert!(matches!(r2, Err(WalletError::InvalidMnemonic)));
}

#[test]
fn bad_checksum_is_rejected() {
    // Valid words, wrong checksum word.
    let phrase = "abandon abandon abandon abandon abandon abandon abandon abandon abandon abandon abandon abandon";
    let r = derive_record_from_mnemonic(phrase, Network::Bitcoin);
    assert!(matches!(r, Err(WalletError::InvalidMnemonic)));
}

#[test]
fn short_seed_fails_derivation() {
    let seed = vec![0u8; 10];
    let r = priv_key_from_hdwallet(&seed, Network::Bitcoin);
    assert!(matches!(r, Err(WalletError::DerivationFailed)));
    let r2 = ldk_seed_from_hdwallet(&seed, Network::Testnet);
    assert!(matches!(r2, Err(WalletError::DerivationFailed)));
}

#[test]
fn malformed_path_fails_derivation() {
    let seed = vec![7u8; 64];
    let r = priv_key_from_hdwallet_with_derivation(&seed, "x/0/0");
    assert!(matches!(r, Err(WalletError::DerivationFailed)));
}

#[test]
fn explicit_path_matches_network_selection() {
    let rec = derive_record_from_mnemonic(PHRASE, Network::Bitcoin).ok().unwrap();
    // The master seed is ephemeral and never exposed, so check the explicit
    // path entry point against the network selection on a raw seed instead.
    let seed = vec![7u8; 64];
    let via_network = priv_key_from_hdwallet(&seed, Network::Bitcoin).ok().unwrap();
    let via_path = priv_key_from_hdwallet_with_derivation(&seed, "m/84'/0'/0'/0/0").ok().unwrap();
    assert_eq!(via_network, via_path);
    assert_eq!(via_path.len(), 32);
    assert_ne!(rec.l1_key, via_path);
}
