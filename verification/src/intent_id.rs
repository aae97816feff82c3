use sha2::Digest;
use vstd::prelude::*;
use vstd::string::*;
use vstd::utf8::encode_utf8;

use crate::text::{decimal, digit_char, push_decimal};

verus! {

/// The SHA-256 digest of a byte string.
pub uninterp spec fn sha256_digest(data: Seq<u8>) -> Seq<u8>;

/// SHA-256 of `data`, by `sha2::Sha256` (`new`, `update`, `finalize`).  The digest
/// is named, not described; its length is the algorithm's 32 bytes.
#[verifier::external_body]
fn sha256(data: &[u8]) -> (r: Vec<u8>)
    ensures
        r@ == sha256_digest(data@),
        r@.len() == 32,
{
    let mut hasher = sha2::Sha256::new();
    hasher.update(data);
    hasher.finalize().to_vec()
}

/// Lower-case hexadecimal digit.
pub open spec fn hex_digit(d: int) -> char {
    if d < 10 {
        digit_char(d)
    } else if d == 10 {
        'a'
    } else if d == 11 {
        'b'
    } else if d == 12 {
        'c'
    } else if d == 13 {
        'd'
    } else if d == 14 {
        'e'
    } else {
        'f'
    }
}

/// Lower-case hexadecimal text of bytes, two digits per byte, high digit first.
pub open spec fn hex_lower(bytes: Seq<u8>) -> Seq<char>
    decreases bytes.len(),
{
    if bytes.len() == 0 {
        Seq::empty()
    } else {
        hex_lower(bytes.drop_last()) + seq![
            hex_digit(bytes.last() as int / 16),
            hex_digit(bytes.last() as int % 16),
        ]
    }
}

/// Lower-case hex encoding of `data`, by `hex::encode`, which maps each byte to its
/// high and then its low digit from the table `0123456789abcdef`.
#[verifier::external_body]
fn hex_encode(data: &[u8]) -> (r: String)
    ensures
        r@ == hex_lower(data@),
{
    hex::encode(data)
}

/// Hex text has two digits per byte.
pub proof fn lemma_hex_lower_len(bytes: Seq<u8>)
    ensures
        hex_lower(bytes).len() == 2 * bytes.len(),
    decreases bytes.len(),
{
    if bytes.len() > 0 {
        lemma_hex_lower_len(bytes.drop_last());
    }
}

/// The text that an intent's identifier is hashed from: creator, colon, nonce.
pub open spec fn intent_seed(creator: Seq<char>, nonce: u128) -> Seq<char> {
    creator + ":"@ + decimal(nonce as nat)
}

/// The identifier of the intent that `creator` makes with the given nonce: `intent`
/// followed by the hex text of the first 20 bytes of the SHA-256 digest of the UTF-8
/// bytes of the seed.
pub open spec fn intent_id_text(creator: Seq<char>, nonce: u128) -> Seq<char> {
    "intent"@ + hex_lower(sha256_digest(encode_utf8(intent_seed(creator, nonce))).subrange(0, 20))
}

/// The identifier made from a digest: `intent` followed by the hex text of the
/// digest's first 20 bytes.
pub fn intent_id_from_digest(digest: &Vec<u8>) -> (r: String)
    requires
        digest@.len() >= 20,
    ensures
        r@ == "intent"@ + hex_lower(digest@.subrange(0, 20)),
        r@.len() == 46,
{
    proof {
        reveal_strlit("intent");
        lemma_hex_lower_len(digest@.subrange(0, 20));
    }
    let mut head: Vec<u8> = Vec::new();
    let mut i: usize = 0;
    while i < 20
        invariant
            i <= 20,
            digest@.len() >= 20,
            head@ == digest@.subrange(0, i as int),
        decreases 20 - i,
    {
        head.push(digest[i]);
        assert(digest@.subrange(0, i + 1) == digest@.subrange(0, i as int).push(digest@[i as int]));
        i = i + 1;
    }
    let hex = hex_encode(head.as_slice());
    let mut id = String::from_str("intent");
    id.append(hex.as_str());
    id
}

/// The identifier of the intent that `creator` makes with the given nonce.
pub fn generate_intent_id(creator: &String, nonce: u128) -> (r: String)
    ensures
        r@ == intent_id_text(creator@, nonce),
        r@.len() == 46,
{
    let mut seed = creator.clone();
    seed.append(":");
    push_decimal(&mut seed, nonce);
    let digest = sha256(seed.as_str().as_bytes());
    intent_id_from_digest(&digest)
}

} // verus!
