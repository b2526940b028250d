//! Hash commitments: SHA-256 digests rendered as lowercase hexadecimal text,
//! and verification of a revealed preimage against a commitment.

use vstd::prelude::*;
use sha2::{Digest, Sha256};

verus! {

/// The SHA-256 digest of a text's bytes; a function of the text alone.
pub uninterp spec fn sha256_of(s: Seq<char>) -> Seq<u8>;

/// The lowercase hexadecimal rendering of a byte sequence; a function of the
/// bytes alone.
pub uninterp spec fn hex_lower_of(b: Seq<u8>) -> Seq<char>;

/// A lowercase hexadecimal digit.
pub open spec fn is_hex_char(c: char) -> bool {
    (48 <= c as int && c as int <= 57) || (97 <= c as int && c as int <= 102)
}

/// The 64-character commitment text for a preimage: SHA-256, then
/// lowercase-hex.
pub open spec fn hash_hex_of(s: Seq<char>) -> Seq<char> {
    hex_lower_of(sha256_of(s))
}

/// A preimage verifies against a hashlock exactly when its commitment text
/// equals the hashlock.
pub open spec fn verifies(preimage: Seq<char>, hashlock: Seq<char>) -> bool {
    hash_hex_of(preimage) == hashlock
}

/// Relies on sha2's `Sha256` through `Digest::digest`: the 32-byte SHA-256
/// digest of the input bytes, a function of the input alone.
#[verifier::external_body]
fn sha256_digest(input: &str) -> (r: Vec<u8>)
    ensures
        r@ == sha256_of(input@),
        r@.len() == 32,
{
    Sha256::digest(input.as_bytes()).to_vec()
}

/// Relies on hex::encode: two hexadecimal digits from the lowercase alphabet
/// for each input byte, in input order, a function of the bytes alone.
#[verifier::external_body]
fn hex_encode_lower(bytes: &[u8]) -> (r: String)
    ensures
        r@ == hex_lower_of(bytes@),
        r@.len() == 2 * bytes@.len(),
        forall|i: int| 0 <= i < r@.len() ==> is_hex_char(r@[i]),
{
    hex::encode(bytes)
}

/// SHA-256 then lowercase-hex encode.
pub fn sha256_hash(input: &str) -> (r: String)
    ensures
        r@ == hash_hex_of(input@),
        r@.len() == 64,
        forall|i: int| 0 <= i < r@.len() ==> is_hex_char(r@[i]),
{
    let digest = sha256_digest(input);
    hex_encode_lower(digest.as_slice())
}

/// The commitment text for a preimage.
pub fn hash_preimage(preimage: String) -> (r: String)
    ensures
        r@ == hash_hex_of(preimage@),
        r@.len() == 64,
{
    sha256_hash(preimage.as_str())
}

/// Whether a revealed preimage matches a hashlock.
pub fn verify_preimage(preimage: &str, hashlock: &String) -> (r: bool)
    ensures
        r == verifies(preimage@, hashlock@),
{
    let h = sha256_hash(preimage);
    h == *hashlock
}

/// Whether a revealed preimage matches a hashlock.
pub fn verify_preimage_hash(preimage: String, hashlock: String) -> (r: bool)
    ensures
        r == verifies(preimage@, hashlock@),
{
    verify_preimage(preimage.as_str(), &hashlock)
}

/// Round-trip law: a commitment produced by hashing a preimage always
/// verifies against that preimage.
pub proof fn lemma_verify_round_trip(preimage: Seq<char>)
    ensures
        verifies(preimage, hash_hex_of(preimage)),
{
}

} // verus!
