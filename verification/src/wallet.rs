//! The on-chain wallet: key pair, address, and the unspent-output snapshot.
//!
//! A wallet is constructed once, either from a freshly imported mnemonic or
//! from the persisted key record, and after that only its UTXO snapshot and
//! balance change. The balance is never patched incrementally: every refresh
//! replaces the whole snapshot and recomputes the exact sum, so repeated
//! refreshes with the same listing cannot drift.

use vstd::prelude::*;

use crate::convert::{Unspents, Utxo};
use crate::errors::WalletError;
use crate::keystore::spec_parse_record;
use crate::network::Network;

verus! {

/// The 33-byte compressed public key for a 32-byte secret key, or `None` when
/// the bytes are not a valid secret key (wrong length, zero, or not below the
/// curve order). A pure function of the secret-key bytes.
pub uninterp spec fn secp_pubkey_of(priv_key: Seq<u8>) -> Option<Seq<u8>>;

/// The bech32 string of the witness-pubkey-hash address for a compressed
/// public key on a network (tagged by `Network::spec_id`), or `None` when the
/// bytes are not a valid compressed public key. A pure function of both.
pub uninterp spec fn p2wpkh_addr_of(public_key: Seq<u8>, network_id: int) -> Option<Seq<char>>;

/// Relies on secp256k1's `SecretKey::from_slice` — which accepts exactly the
/// 32-byte encodings of scalars in curve order — and `PublicKey::from_secret_key`
/// with compressed serialization: 33 bytes, a function of the key bytes alone.
#[verifier::external_body]
fn derive_pubkey_bytes(priv_key: &Vec<u8>) -> (r: Option<Vec<u8>>)
    ensures
        r is Some <==> secp_pubkey_of(priv_key@) is Some,
        r matches Some(v) ==> Some(v@) == secp_pubkey_of(priv_key@) && v@.len() == 33,
        priv_key@.len() != 32 ==> r is None,
{
    let sk = match bitcoin::secp256k1::SecretKey::from_slice(priv_key.as_slice()) {
        Ok(s) => s,
        Err(_) => return None,
    };
    let secp = bitcoin::secp256k1::Secp256k1::new();
    let pk = bitcoin::secp256k1::PublicKey::from_secret_key(&secp, &sk);
    Some(pk.serialize().to_vec())
}

/// Relies on bitcoin's `CompressedPublicKey::from_slice` and `Address::p2wpkh`
/// with that address's `Display`: the bech32 witness-pubkey-hash address, a
/// function of the public-key bytes and the network.
#[verifier::external_body]
fn derive_address_string(public_key: &Vec<u8>, network: Network) -> (r: Option<String>)
    ensures
        r is Some <==> p2wpkh_addr_of(public_key@, network.spec_id()) is Some,
        r matches Some(s) ==> Some(s@) == p2wpkh_addr_of(public_key@, network.spec_id()),
{
    let cpk = match bitcoin::CompressedPublicKey::from_slice(public_key.as_slice()) {
        Ok(c) => c,
        Err(_) => return None,
    };
    let net = match network {
        Network::Bitcoin => bitcoin::Network::Bitcoin,
        Network::Testnet => bitcoin::Network::Testnet,
        Network::Regtest => bitcoin::Network::Regtest,
        Network::Signet => bitcoin::Network::Signet,
    };
    Some(bitcoin::Address::p2wpkh(&cpk, net).to_string())
}

/// The exact sum, in satoshis, of a UTXO listing.
pub open spec fn spec_sum_sat(utxos: Seq<Utxo>) -> int
    decreases utxos.len(),
{
    if utxos.len() == 0 {
        0
    } else {
        utxos[0].amount_sat + spec_sum_sat(utxos.drop_first())
    }
}

/// A sum of UTXO amounts is never negative.
pub proof fn lemma_sum_sat_nonneg(utxos: Seq<Utxo>)
    ensures
        spec_sum_sat(utxos) >= 0,
    decreases utxos.len(),
{
    if utxos.len() > 0 {
        lemma_sum_sat_nonneg(utxos.drop_first());
    }
}

/// Peeling one element off the front of a suffix.
proof fn lemma_sum_sat_skip(utxos: Seq<Utxo>, i: int)
    requires
        0 <= i < utxos.len(),
    ensures
        spec_sum_sat(utxos.skip(i)) == utxos[i].amount_sat + spec_sum_sat(utxos.skip(i + 1)),
{
    assert(utxos.skip(i).drop_first() =~= utxos.skip(i + 1));
    assert(utxos.skip(i).len() > 0);
}

/// Sums a listing when the total fits the machine word; `None` reports an
/// overflowing total without computing a wrong one.
pub fn try_sum_unspent_sat(listing: &Unspents) -> (r: Option<u64>)
    ensures
        r is Some <==> spec_sum_sat(listing.utxos@) <= u64::MAX,
        r matches Some(v) ==> v as int == spec_sum_sat(listing.utxos@),
{
    let s = listing.utxos.as_slice();
    let n = s.len();
    let mut acc: u64 = 0;
    let mut i: usize = 0;
    proof {
        assert(listing.utxos@.skip(0) =~= listing.utxos@);
    }
    while i < n
        invariant
            n == listing.utxos@.len(),
            i <= n,
            s@ == listing.utxos@,
            acc + spec_sum_sat(listing.utxos@.skip(i as int)) == spec_sum_sat(listing.utxos@),
        decreases n - i,
    {
        proof {
            lemma_sum_sat_skip(listing.utxos@, i as int);
            lemma_sum_sat_nonneg(listing.utxos@.skip(i as int + 1));
        }
        let amount = s[i].amount_sat;
        if amount > u64::MAX - acc {
            proof {
                lemma_sum_sat_nonneg(listing.utxos@.skip(i as int + 1));
            }
            return None;
        }
        acc = acc + amount;
        i += 1;
    }
    proof {
        assert(listing.utxos@.skip(n as int) =~= Seq::<Utxo>::empty());
    }
    Some(acc)
}

/// Derives the wallet's witness-pubkey-hash address straight from a signing
/// key: the public key first, then its address on the given network. Fails —
/// with `DerivationFailed` — exactly when the bytes are not a valid secret
/// key or no address can be formed for the derived public key.
pub fn derive_address_from_pk(priv_key: &Vec<u8>, network: Network) -> (r: Result<
    String,
    WalletError,
>)
    ensures
        r is Ok <==> (secp_pubkey_of(priv_key@) matches Some(pk) && p2wpkh_addr_of(
            pk,
            network.spec_id(),
        ) is Some),
        r matches Ok(s) ==> (secp_pubkey_of(priv_key@) matches Some(pk) && Some(s@)
            == p2wpkh_addr_of(pk, network.spec_id())),
        r matches Err(e) ==> e == WalletError::DerivationFailed,
{
    let public_key = match derive_pubkey_bytes(priv_key) {
        None => {
            return Err(WalletError::DerivationFailed);
        },
        Some(p) => p,
    };
    match derive_address_string(&public_key, network) {
        None => Err(WalletError::DerivationFailed),
        Some(a) => Ok(a),
    }
}

/// The wallet: network, the address and public key derived from the on-chain
/// signing key (single fixed script type, witness-pubkey-hash), the current
/// UTXO snapshot with its exact balance, and the node seed handed to the
/// Lightning key manager. Only `utxos` and `balance` change after
/// construction.
pub struct Wallet {
    pub network: Network,
    /// The wallet's own witness-pubkey-hash address.
    pub address: String,
    /// The on-chain signing key, 32 bytes. Exposed so that specifications can
    /// relate it to the public key; handle with the care a secret deserves.
    pub private_key: Vec<u8>,
    /// Compressed public key of the signing key, 33 bytes.
    pub public_key: Vec<u8>,
    /// Current unspent-output snapshot.
    pub utxos: Unspents,
    /// Exact sum of the snapshot's amounts, in satoshis.
    pub balance: u64,
    /// 32-byte seed for the Lightning node's key hierarchy.
    pub seed_for_ldk: Vec<u8>,
}

impl Wallet {
    /// Well-formedness: the public key belongs to the signing key, the
    /// address is the witness-pubkey-hash address of that public key on the
    /// wallet's network, the node seed has its fixed length, and the balance
    /// is the exact sum of the snapshot.
    pub open spec fn wf(self) -> bool {
        &&& self.public_key@.len() == 33
        &&& self.seed_for_ldk@.len() == 32
        &&& Some(self.public_key@) == secp_pubkey_of(self.private_key@)
        &&& Some(self.address@) == p2wpkh_addr_of(self.public_key@, self.network.spec_id())
        &&& self.balance as int == spec_sum_sat(self.utxos.utxos@)
    }

    /// Constructs a wallet from the two persisted secrets: derives the public
    /// key and the address, starts with an empty UTXO snapshot. Fails — with
    /// `DerivationFailed`, never a partial wallet — exactly when the signing
    /// key is not a valid secret key or no address can be formed for it.
    pub fn from_pk(priv_key: &Vec<u8>, ldk_seed: &Vec<u8>, network: Network) -> (r: Result<
        Wallet,
        WalletError,
    >)
        requires
            ldk_seed@.len() == 32,
        ensures
            r is Ok <==> (secp_pubkey_of(priv_key@) matches Some(pk) && p2wpkh_addr_of(
                pk,
                network.spec_id(),
            ) is Some),
            r matches Ok(w) ==> ({
                &&& w.wf()
                &&& w.network == network
                &&& w.private_key@ == priv_key@
                &&& Some(w.public_key@) == secp_pubkey_of(priv_key@)
                &&& w.seed_for_ldk@ == ldk_seed@
                &&& w.utxos.utxos@.len() == 0
                &&& w.balance == 0
            }),
            r matches Err(e) ==> e == WalletError::DerivationFailed,
    {
        let public_key = match derive_pubkey_bytes(priv_key) {
            None => {
                return Err(WalletError::DerivationFailed);
            },
            Some(p) => p,
        };
        let address = match derive_address_string(&public_key, network) {
            None => {
                return Err(WalletError::DerivationFailed);
            },
            Some(a) => a,
        };
        let w = Wallet {
            network,
            address,
            private_key: priv_key.clone(),
            public_key,
            utxos: Unspents { utxos: Vec::new() },
            balance: 0,
            seed_for_ldk: ldk_seed.clone(),
        };
        proof {
            assert(w.seed_for_ldk@ =~= ldk_seed@);
            assert(w.private_key@ =~= priv_key@);
        }
        Ok(w)
    }

    /// Replaces the UTXO snapshot with a fresh listing and recomputes the
    /// balance as the exact sum of its amounts — a full recompute on every
    /// call, never an incremental patch. Nothing else changes.
    pub fn refresh_utxos(&mut self, listing: Unspents)
        requires
            old(self).wf(),
            spec_sum_sat(listing.utxos@) <= u64::MAX,
        ensures
            final(self).utxos == listing,
            final(self).balance as int == spec_sum_sat(listing.utxos@),
            final(self).network == old(self).network,
            final(self).address == old(self).address,
            final(self).private_key == old(self).private_key,
            final(self).public_key == old(self).public_key,
            final(self).seed_for_ldk == old(self).seed_for_ldk,
            final(self).wf(),
    {
        let total = match try_sum_unspent_sat(&listing) {
            Some(t) => t,
            None => {
                proof {
                    assert(false);
                }
                0
            },
        };
        self.utxos = listing;
        self.balance = total;
    }
}

/// Constructs the wallet from persisted key-file contents. `NoWalletFound`
/// reports contents that do not parse as a key record — missing, truncated or
/// corrupt files are "no wallet", never a partially decoded key.
pub fn load_wallet_from_contents(contents: &Vec<u8>, network: Network) -> (r: Result<
    Wallet,
    WalletError,
>)
    ensures
        spec_parse_record(contents@) is None <==> r == Err::<Wallet, WalletError>(
            WalletError::NoWalletFound,
        ),
        spec_parse_record(contents@) matches Some(ks) ==> {
            &&& (r is Ok <==> (secp_pubkey_of(ks.0) matches Some(pk) && p2wpkh_addr_of(
                pk,
                network.spec_id(),
            ) is Some))
            &&& (r matches Ok(w) ==> w.wf() && w.network == network && w.private_key@ == ks.0
                && Some(w.public_key@) == secp_pubkey_of(ks.0) && w.seed_for_ldk@ == ks.1
                && w.balance == 0 && w.utxos.utxos@.len() == 0)
            &&& (r matches Err(e) ==> e == WalletError::DerivationFailed)
        },
{
    match crate::keystore::decode_record(contents) {
        None => Err(WalletError::NoWalletFound),
        Some(rec) => Wallet::from_pk(&rec.l1_key, &rec.node_seed, network),
    }
}

/// Law: recomputing the balance is idempotent — two snapshots taken from the
/// same listing agree on both the UTXO set and the balance.
pub proof fn lemma_refresh_idempotent(w1: Wallet, w2: Wallet, listing: Unspents)
    requires
        w1.utxos == listing,
        w1.balance as int == spec_sum_sat(listing.utxos@),
        w2.utxos == listing,
        w2.balance as int == spec_sum_sat(listing.utxos@),
    ensures
        w1.utxos == w2.utxos,
        w1.balance == w2.balance,
{
}

} // verus!
