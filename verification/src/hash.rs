//! Content hashing: the Keccak-256 digest of a metadata payload, rendered as a
//! lowercase hexadecimal string prefixed with `0x` (66 characters in all).
//! Keccak-256 keeps the digest bit-compatible with an Ethereum-side verifier.

use vstd::prelude::*;

verus! {

/// The Keccak-256 digest of a text's UTF-8 bytes, as a sequence of 32 bytes.
/// The digest is a pure function of the input text alone; it is named rather
/// than written out, since no short statement captures it.
pub uninterp spec fn keccak256_of(s: Seq<char>) -> Seq<u8>;

/// The sixteen lowercase hexadecimal digits, in value order.
pub open spec fn hex_digits() -> Seq<char> {
    seq!['0', '1', '2', '3', '4', '5', '6', '7', '8', '9', 'a', 'b', 'c', 'd', 'e', 'f']
}

/// The lowercase hexadecimal rendering of a byte sequence: two digits per
/// byte, high nibble first.
pub open spec fn hex_of(bytes: Seq<u8>) -> Seq<char>
    decreases bytes.len(),
{
    if bytes.len() == 0 {
        Seq::empty()
    } else {
        hex_of(bytes.drop_last()) + seq![
            hex_digits()[bytes.last() as int / 16],
            hex_digits()[bytes.last() as int % 16],
        ]
    }
}

/// The full rendering of a payload's content hash: `0x` followed by the
/// lowercase hex digits of its Keccak-256 digest.
pub open spec fn hash_of(s: Seq<char>) -> Seq<char> {
    seq!['0', 'x'] + hex_of(keccak256_of(s))
}

pub proof fn lemma_hex_of_len(bytes: Seq<u8>)
    ensures
        hex_of(bytes).len() == 2 * bytes.len(),
    decreases bytes.len(),
{
    if bytes.len() > 0 {
        lemma_hex_of_len(bytes.drop_last());
    }
}

/// Every character of a hex rendering is one of the sixteen lowercase digits.
pub proof fn lemma_hex_of_digits(bytes: Seq<u8>)
    ensures
        forall|i: int|
            0 <= i < hex_of(bytes).len() ==> hex_digits().contains(#[trigger] hex_of(bytes)[i]),
    decreases bytes.len(),
{
    if bytes.len() > 0 {
        lemma_hex_of_digits(bytes.drop_last());
        lemma_hex_of_len(bytes.drop_last());
        assert(hex_digits().contains(hex_digits()[bytes.last() as int / 16]));
        assert(hex_digits().contains(hex_digits()[bytes.last() as int % 16]));
    }
}

/// Relies on tiny_keccak's `Keccak::v256` with `Hasher::update` and
/// `Hasher::finalize`: the 32-byte Keccak-256 digest of the input's UTF-8
/// bytes, a function of the input text alone.
#[verifier::external_body]
fn keccak256(input: &str) -> (r: Vec<u8>)
    ensures
        r@ == keccak256_of(input@),
        r@.len() == 32,
{
    let mut hasher = tiny_keccak::Keccak::v256();
    let mut output = [0u8; 32];
    tiny_keccak::Hasher::update(&mut hasher, input.as_bytes());
    tiny_keccak::Hasher::finalize(hasher, &mut output);
    output.to_vec()
}

/// Relies on hex::encode: the lowercase hexadecimal rendering of the bytes,
/// two digits per byte, high nibble first.
#[verifier::external_body]
fn hex_encode(bytes: &Vec<u8>) -> (r: String)
    ensures
        r@ == hex_of(bytes@),
{
    hex::encode(bytes)
}

/// The content hash of a payload: its Keccak-256 digest, hex-encoded in
/// lowercase and prefixed with `0x`, 66 characters in all. Deterministic: the
/// result is pinned to `hash_of` of the input text, so equal inputs give equal
/// hashes.
pub fn keccak_hash(input: &str) -> (r: String)
    ensures
        r@ == hash_of(input@),
        r@.len() == 66,
        r@[0] == '0',
        r@[1] == 'x',
        forall|i: int| 2 <= i < 66 ==> hex_digits().contains(#[trigger] r@[i]),
{
    let digest = keccak256(input);
    let digits = hex_encode(&digest);
    let mut out = "0x".to_owned();
    out.append(digits.as_str());
    proof {
        reveal_strlit("0x");
        lemma_hex_of_len(digest@);
        lemma_hex_of_digits(digest@);
        assert(("0x")@ =~= seq!['0', 'x']);
        assert(out@ =~= hash_of(input@));
        assert(forall|i: int| 2 <= i < 66 ==> out@[i] == hex_of(digest@)[i - 2]);
    }
    out
}

/// The hash is deterministic: it depends on the metadata text alone, so equal
/// texts give equal 66-character renderings, whatever else differs between the
/// calls.
pub proof fn lemma_hash_deterministic(a: Seq<char>, b: Seq<char>)
    requires
        a == b,
    ensures
        hash_of(a) == hash_of(b),
{
}

} // verus!
