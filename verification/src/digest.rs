//! SHA-256 digests of texts, written in lower-case hexadecimal.
use sha2::Digest;
use vstd::prelude::*;

use crate::evolution::templates::{hex_char, hex_digit};
use crate::text::push_char;

verus! {

/// The SHA-256 digest of `bytes`, as `sha2::Sha256` computes it.
pub uninterp spec fn sha256_of(bytes: Seq<u8>) -> Seq<u8>;

/// `sha2::Sha256::digest`: the SHA-256 digest of `data`, named `sha256_of`
/// here; it is 32 bytes long, the length of `sha2`'s output array.
#[verifier::external_body]
fn sha256_bytes(data: &[u8]) -> (r: Vec<u8>)
    ensures
        r@ == sha256_of(data@),
        r@.len() == 32,
{
    sha2::Sha256::digest(data).to_vec()
}

/// `b` in lower-case hexadecimal, two digits per byte.
pub open spec fn hex_bytes(b: Seq<u8>) -> Seq<char>
    decreases b.len(),
{
    if b.len() == 0 {
        Seq::empty()
    } else {
        hex_bytes(b.drop_last()) + seq![
            hex_char((b.last() / 16) as int),
            hex_char((b.last() % 16) as int),
        ]
    }
}

/// The hexadecimal text of `b` has two characters per byte.
pub proof fn lemma_hex_bytes_len(b: Seq<u8>)
    ensures
        hex_bytes(b).len() == 2 * b.len(),
    decreases b.len(),
{
    if b.len() > 0 {
        lemma_hex_bytes_len(b.drop_last());
    }
}

/// `b` in lower-case hexadecimal.
pub fn hex_lower(b: &Vec<u8>) -> (r: String)
    ensures
        r@ == hex_bytes(b@),
{
    let mut r = String::new();
    let mut i: usize = 0;
    while i < b.len()
        invariant
            i <= b.len(),
            r@ == hex_bytes(b@.take(i as int)),
        decreases b.len() - i,
    {
        assert(b@.take(i + 1).drop_last() =~= b@.take(i as int));
        let x = b[i];
        push_char(&mut r, hex_digit((x / 16) as u64));
        push_char(&mut r, hex_digit((x % 16) as u64));
        i = i + 1;
    }
    assert(b@.take(i as int) =~= b@);
    r
}

/// The SHA-256 digest of the UTF-8 bytes of `text`, in lower-case hexadecimal.
pub open spec fn sha256_hex(text: Seq<char>) -> Seq<char> {
    hex_bytes(sha256_of(vstd::utf8::encode_utf8(text)))
}

/// The SHA-256 digest of `text` in lower-case hexadecimal: 64 characters.
pub fn sha256_digest(text: &str) -> (r: String)
    ensures
        r@ == sha256_hex(text@),
        r@.len() == 64,
{
    let bytes = sha256_bytes(text.as_bytes());
    let r = hex_lower(&bytes);
    proof {
        lemma_hex_bytes_len(bytes@);
    }
    r
}

} // verus!
