//! Base64 text and SHA-256 digests, through the `base64` and `sha2` crates, and the
//! viewing key that the contract derives from its entropy.

use vstd::prelude::*;
use vstd::utf8::encode_utf8;
use sha2::Digest;

verus! {

/// The character of a six-bit value in the standard base64 alphabet.
pub open spec fn base64_char(v: int) -> char {
    if v < 26 {
        ('A' as int + v) as char
    } else if v < 52 {
        ('a' as int + (v - 26)) as char
    } else if v < 62 {
        ('0' as int + (v - 52)) as char
    } else if v == 62 {
        '+'
    } else {
        '/'
    }
}

/// Standard base64 with padding: each group of three bytes becomes four characters,
/// and a last group of one or two bytes is padded with `=`.
pub open spec fn base64_text(b: Seq<u8>) -> Seq<char>
    decreases b.len(),
{
    let b0 = b[0] as int;
    let b1 = b[1] as int;
    let b2 = b[2] as int;
    if b.len() == 0 {
        seq![]
    } else if b.len() == 1 {
        seq![base64_char(b0 / 4), base64_char((b0 % 4) * 16), '=', '=']
    } else if b.len() == 2 {
        seq![
            base64_char(b0 / 4),
            base64_char((b0 % 4) * 16 + b1 / 16),
            base64_char((b1 % 16) * 4),
            '=',
        ]
    } else {
        seq![
            base64_char(b0 / 4),
            base64_char((b0 % 4) * 16 + b1 / 16),
            base64_char((b1 % 16) * 4 + b2 / 64),
            base64_char(b2 % 64),
        ] + base64_text(b.skip(3))
    }
}

/// The SHA-256 digest of a byte string.
pub uninterp spec fn sha256_digest(data: Seq<u8>) -> Seq<u8>;

/// Calls `base64::encode`, which encodes with the standard alphabet and padding;
/// the contract claims that its text is `base64_text` of the input.
#[verifier::external_body]
fn base64_encode(data: &[u8]) -> (r: String)
    ensures
        r@ == base64_text(data@),
{
    base64::encode(data)
}

/// Calls `sha2::Sha256::digest`; the contract claims that its 32 bytes are the
/// SHA-256 digest of the input, named by `sha256_digest`.
#[verifier::external_body]
fn sha_256(data: &[u8]) -> (r: Vec<u8>)
    ensures
        r@ == sha256_digest(data@),
        r@.len() == 32,
{
    sha2::Sha256::digest(data).to_vec()
}

/// The viewing key that the contract derives from the entropy it is set up with:
/// the base64 text of the SHA-256 digest of the base64 text of the entropy's bytes.
pub open spec fn viewing_key_spec(entropy: Seq<char>) -> Seq<char> {
    base64_text(sha256_digest(encode_utf8(base64_text(encode_utf8(entropy)))))
}

/// Derives the contract's viewing key from its entropy.
pub fn viewing_key_from_entropy(entropy: &String) -> (r: String)
    ensures
        r@ == viewing_key_spec(entropy@),
        r@.len() == 44,
{
    let text = base64_encode(entropy.as_str().as_bytes());
    let seed = sha_256(text.as_str().as_bytes());
    proof {
        lemma_base64_len(seed@);
    }
    base64_encode(seed.as_slice())
}

/// Base64 text is four characters for each started group of three bytes.
pub proof fn lemma_base64_len(b: Seq<u8>)
    ensures
        base64_text(b).len() == 4 * ((b.len() + 2) / 3),
    decreases b.len(),
{
    if b.len() > 2 {
        lemma_base64_len(b.skip(3));
    }
}

} // verus!
