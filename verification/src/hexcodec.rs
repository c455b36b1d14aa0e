//! Hexadecimal encoding and decoding of key material.
//!
//! The on-disk key record is plain lowercase hex. The byte-level meaning of
//! the encoding is written out as spec functions here; the executable work is
//! done by the `hex` crate behind trusted wrappers whose contracts state that
//! meaning exactly, so that the round trip can be proved once at the
//! specification level.

use vstd::prelude::*;

verus! {

/// Numeric value of one ASCII hex digit; `None` for any other byte.
pub open spec fn spec_hex_val(c: u8) -> Option<u8> {
    if 48 <= c && c <= 57 {
        Some((c - 48) as u8)  // '0'..'9'
    } else if 97 <= c && c <= 102 {
        Some((c - 97 + 10) as u8)  // 'a'..'f'
    } else if 65 <= c && c <= 70 {
        Some((c - 65 + 10) as u8)  // 'A'..'F'
    } else {
        None
    }
}

/// The lowercase ASCII hex digit for a value below 16.
pub open spec fn spec_hex_digit(v: u8) -> u8
    recommends
        v < 16,
{
    if v < 10 {
        (v + 48) as u8  // '0'..'9'
    } else {
        (v + 87) as u8  // 'a'..'f'
    }
}

/// Lowercase hex encoding: two digits per byte, high nibble first.
pub open spec fn spec_hex_encode(s: Seq<u8>) -> Seq<u8>
    decreases s.len(),
{
    if s.len() == 0 {
        Seq::empty()
    } else {
        seq![spec_hex_digit((s[0] / 16) as u8), spec_hex_digit((s[0] % 16) as u8)]
            + spec_hex_encode(s.drop_first())
    }
}

/// Hex decoding: `None` on odd length or on any byte that is not a hex digit
/// (upper and lower case both accepted).
pub open spec fn spec_hex_decode(s: Seq<u8>) -> Option<Seq<u8>>
    decreases s.len(),
{
    if s.len() % 2 != 0 {
        None
    } else if s.len() == 0 {
        Some(Seq::empty())
    } else {
        match (spec_hex_val(s[0]), spec_hex_val(s[1])) {
            (Some(hi), Some(lo)) => match spec_hex_decode(s.skip(2)) {
                Some(rest) => Some(seq![(hi * 16 + lo) as u8] + rest),
                None => None,
            },
            _ => None,
        }
    }
}

/// The encoding of a sequence is twice as long as the sequence.
pub proof fn lemma_hex_encode_len(s: Seq<u8>)
    ensures
        spec_hex_encode(s).len() == 2 * s.len(),
    decreases s.len(),
{
    if s.len() > 0 {
        lemma_hex_encode_len(s.drop_first());
    }
}

/// Every byte of an encoding is a lowercase hex digit.
pub proof fn lemma_hex_encode_digits(s: Seq<u8>)
    ensures
        forall|i: int|
            0 <= i < spec_hex_encode(s).len() ==> spec_hex_val(
                #[trigger] spec_hex_encode(s)[i],
            ) is Some,
    decreases s.len(),
{
    if s.len() > 0 {
        lemma_hex_encode_digits(s.drop_first());
        lemma_hex_encode_len(s.drop_first());
        assert forall|i: int| 0 <= i < spec_hex_encode(s).len() implies spec_hex_val(
            #[trigger] spec_hex_encode(s)[i],
        ) is Some by {
            if i >= 2 {
                assert(spec_hex_encode(s)[i] == spec_hex_encode(s.drop_first())[i - 2]);
            }
        }
    }
}

/// A successful decoding has half the length of its input.
pub proof fn lemma_hex_decode_len(s: Seq<u8>)
    ensures
        spec_hex_decode(s) matches Some(v) ==> v.len() == s.len() / 2,
    decreases s.len(),
{
    if s.len() % 2 == 0 && s.len() > 0 {
        lemma_hex_decode_len(s.skip(2));
    }
}

/// Decoding inverts encoding exactly.
pub proof fn lemma_hex_round_trip(s: Seq<u8>)
    ensures
        spec_hex_decode(spec_hex_encode(s)) == Some(s),
    decreases s.len(),
{
    lemma_hex_encode_len(s);
    if s.len() == 0 {
        assert(spec_hex_encode(s) =~= Seq::<u8>::empty());
        assert(Some(Seq::<u8>::empty()) =~= Some(s));
    } else {
        lemma_hex_round_trip(s.drop_first());
        let e = spec_hex_encode(s);
        let b = s[0];
        assert(e[0] == spec_hex_digit((b / 16) as u8));
        assert(e[1] == spec_hex_digit((b % 16) as u8));
        assert(spec_hex_val(e[0]) == Some((b / 16) as u8));
        assert(spec_hex_val(e[1]) == Some((b % 16) as u8));
        assert(e.skip(2) =~= spec_hex_encode(s.drop_first()));
        assert((b / 16) * 16 + (b % 16) == b) by {
            assert(b / 16 * 16 + b % 16 == b) by (nonlinear_arith);
        }
        assert(seq![s[0]] + s.drop_first() =~= s);
    }
}

/// Byte-vector equality, with its meaning stated over the views.
pub fn bytes_eq(a: &Vec<u8>, b: &Vec<u8>) -> (r: bool)
    ensures
        r == (a@ == b@),
{
    if a.len() != b.len() {
        return false;
    }
    let mut i: usize = 0;
    while i < a.len()
        invariant
            i <= a@.len(),
            a@.len() == b@.len(),
            forall|j: int| 0 <= j < i ==> a@[j] == b@[j],
        decreases a@.len() - i,
    {
        if a[i] != b[i] {
            return false;
        }
        i += 1;
    }
    proof {
        assert(a@ =~= b@);
    }
    true
}

/// Relies on `hex::encode`: lowercase output, exactly two hex digits per input
/// byte, high nibble first. The `String` it returns is ASCII, so its UTF-8
/// bytes are its characters.
#[verifier::external_body]
pub fn hex_encode_bytes(b: &Vec<u8>) -> (r: Vec<u8>)
    ensures
        r@ == spec_hex_encode(b@),
{
    hex::encode(b).into_bytes()
}

/// Relies on `hex::decode`: errors exactly on odd-length input and on any
/// byte outside `0-9a-fA-F`; otherwise each digit pair becomes one byte, high
/// nibble first.
#[verifier::external_body]
pub fn hex_decode_bytes(b: &[u8]) -> (r: Option<Vec<u8>>)
    ensures
        r is Some <==> spec_hex_decode(b@) is Some,
        r matches Some(v) ==> Some(v@) == spec_hex_decode(b@),
{
    match hex::decode(b) {
        Ok(v) => Some(v),
        Err(_) => None,
    }
}

} // verus!
