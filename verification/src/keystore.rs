//! The on-disk key record and its codec.
//!
//! The record persisted for a wallet is exactly the hex encoding of the
//! 32-byte on-chain signing key followed by the hex encoding of the 32-byte
//! node seed: 128 hex characters, no separators. Anything shorter or not hex
//! is treated as absent — a corrupt file must never yield a partially decoded
//! key. Reading and writing the file itself is the caller's concern; this
//! module owns the encoding, the decoding and the write-then-read-back
//! comparison.

use vstd::prelude::*;
use vstd::slice::slice_subrange;

use crate::hexcodec::{
    bytes_eq, hex_decode_bytes, hex_encode_bytes, lemma_hex_decode_len, lemma_hex_encode_digits,
    lemma_hex_encode_len, lemma_hex_round_trip, spec_hex_decode, spec_hex_encode, spec_hex_val,
};

verus! {

/// The two secrets a wallet persists: the on-chain ("L1") signing key and the
/// seed that initialises the Lightning node's own key hierarchy.
pub struct KeyRecord {
    /// 32-byte secret used for all on-chain wallet operations.
    pub l1_key: Vec<u8>,
    /// 32-byte secret handed to the Lightning node's key manager.
    pub node_seed: Vec<u8>,
}

impl KeyRecord {
    /// Well-formedness: both secrets have their fixed 32-byte length.
    pub open spec fn wf(self) -> bool {
        &&& self.l1_key@.len() == 32
        &&& self.node_seed@.len() == 32
    }

    /// The on-disk bytes of this record.
    pub open spec fn spec_encoded(self) -> Seq<u8> {
        spec_hex_encode(self.l1_key@) + spec_hex_encode(self.node_seed@)
    }

    /// Encodes the record as it is persisted: `hex(l1_key) || hex(node_seed)`,
    /// 128 lowercase hex characters.
    pub fn encode(&self) -> (r: Vec<u8>)
        requires
            self.wf(),
        ensures
            r@ == self.spec_encoded(),
            r@.len() == 128,
    {
        proof {
            lemma_hex_encode_len(self.l1_key@);
            lemma_hex_encode_len(self.node_seed@);
        }
        let mut r = hex_encode_bytes(&self.l1_key);
        let mut tail = hex_encode_bytes(&self.node_seed);
        r.append(&mut tail);
        r
    }
}

/// True for the ASCII whitespace bytes a text editor or a trailing newline
/// may add around the record.
pub open spec fn spec_is_ascii_ws(b: u8) -> bool {
    b == 32 || b == 9 || b == 10 || b == 13
}

/// The contents with leading ASCII whitespace removed.
pub open spec fn spec_trim_start(s: Seq<u8>) -> Seq<u8>
    decreases s.len(),
{
    if s.len() > 0 && spec_is_ascii_ws(s[0]) {
        spec_trim_start(s.drop_first())
    } else {
        s
    }
}

/// What file contents mean as a key record: after leading whitespace, at
/// least 128 bytes must remain and the first 128 must be two decodable hex
/// halves; anything else is absent.
pub open spec fn spec_parse_record(s: Seq<u8>) -> Option<(Seq<u8>, Seq<u8>)> {
    let t = spec_trim_start(s);
    if t.len() < 128 {
        None
    } else {
        match (spec_hex_decode(t.subrange(0, 64)), spec_hex_decode(t.subrange(64, 128))) {
            (Some(k1), Some(k2)) => Some((k1, k2)),
            _ => None,
        }
    }
}

/// Runtime test for ASCII whitespace.
fn is_ascii_ws(b: u8) -> (r: bool)
    ensures
        r == spec_is_ascii_ws(b),
{
    b == 32 || b == 9 || b == 10 || b == 13
}

/// Decodes file contents into a key record. Returns `None` — absent, never an
/// error — when the contents are missing their 128 hex characters or are not
/// valid hex.
pub fn decode_record(contents: &Vec<u8>) -> (r: Option<KeyRecord>)
    ensures
        r is Some <==> spec_parse_record(contents@) is Some,
        r matches Some(rec) ==> Some((rec.l1_key@, rec.node_seed@)) == spec_parse_record(
            contents@,
        ) && rec.wf(),
{
    let n = contents.len();
    let mut start: usize = 0;
    proof {
        assert(contents@.skip(0) =~= contents@);
    }
    while start < n && is_ascii_ws(contents[start])
        invariant
            n == contents@.len(),
            start <= n,
            spec_trim_start(contents@) == spec_trim_start(contents@.skip(start as int)),
        decreases n - start,
    {
        proof {
            assert(contents@.skip(start as int).drop_first() =~= contents@.skip(start as int + 1));
        }
        start += 1;
    }
    proof {
        if start == n {
            assert(contents@.skip(start as int) =~= Seq::<u8>::empty());
        }
        assert(spec_trim_start(contents@) == contents@.skip(start as int));
    }
    let ghost t = spec_trim_start(contents@);
    if n - start < 128 {
        return None;
    }
    let h1 = slice_subrange(contents.as_slice(), start, start + 64);
    let h2 = slice_subrange(contents.as_slice(), start + 64, start + 128);
    proof {
        assert(h1@ =~= t.subrange(0, 64));
        assert(h2@ =~= t.subrange(64, 128));
    }
    match (hex_decode_bytes(h1), hex_decode_bytes(h2)) {
        (Some(k1), Some(k2)) => {
            proof {
                lemma_hex_decode_len(t.subrange(0, 64));
                lemma_hex_decode_len(t.subrange(64, 128));
            }
            Some(KeyRecord { l1_key: k1, node_seed: k2 })
        },
        _ => None,
    }
}

/// The read-back comparison every write-then-use flow must make: the contents
/// parse to exactly the record that was written, guarding against silent
/// truncation between a save and the next load.
pub fn verify_record(record: &KeyRecord, contents: &Vec<u8>) -> (r: bool)
    ensures
        r == (spec_parse_record(contents@) == Some((record.l1_key@, record.node_seed@))),
{
    match decode_record(contents) {
        None => false,
        Some(rec) => bytes_eq(&rec.l1_key, &record.l1_key) && bytes_eq(
            &rec.node_seed,
            &record.node_seed,
        ),
    }
}

/// Law: a well-formed record parses back from its own encoding, unchanged.
pub proof fn lemma_record_round_trip(rec: KeyRecord)
    requires
        rec.wf(),
    ensures
        spec_parse_record(rec.spec_encoded()) == Some((rec.l1_key@, rec.node_seed@)),
{
    let e = rec.spec_encoded();
    lemma_hex_encode_len(rec.l1_key@);
    lemma_hex_encode_len(rec.node_seed@);
    lemma_hex_encode_digits(rec.l1_key@);
    assert(spec_hex_val(e[0]) is Some);
    assert(!spec_is_ascii_ws(e[0]));
    assert(spec_trim_start(e) == e);
    assert(e.subrange(0, 64) =~= spec_hex_encode(rec.l1_key@));
    assert(e.subrange(64, 128) =~= spec_hex_encode(rec.node_seed@));
    lemma_hex_round_trip(rec.l1_key@);
    lemma_hex_round_trip(rec.node_seed@);
}

/// Law: contents with fewer than 128 characters after leading whitespace —
/// a truncated file among them — never parse, not even partially.
pub proof fn lemma_short_record_absent(s: Seq<u8>)
    requires
        spec_trim_start(s).len() < 128,
    ensures
        spec_parse_record(s) is None,
{
}

} // verus!
