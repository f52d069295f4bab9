use vstd::prelude::*;

use sha2::Digest;

verus! {

/// Lowercase hexadecimal SHA-256 digest of the UTF-8 encoding of `text`.
pub uninterp spec fn sha256_hex_of(text: Seq<char>) -> Seq<char>;

/// Relies on `sha2::Sha256::digest` and the lowercase hex formatting of its
/// output: two digits per byte of a 32-byte digest.
#[verifier::external_body]
fn sha256_hex(text: &str) -> (r: String)
    ensures
        r@ == sha256_hex_of(text@),
        r@.len() == 64,
{
    format!("{:x}", sha2::Sha256::digest(text.as_bytes()))
}

/// Fingerprint of a configuration's canonical text: its SHA-256 digest in
/// lowercase hexadecimal.
pub fn fingerprint(text: &str) -> (r: String)
    ensures
        r@ == sha256_hex_of(text@),
        r@.len() == 64,
{
    sha256_hex(text)
}

/// The fingerprint depends on the canonical text alone: equal texts give
/// equal fingerprints.
pub proof fn lemma_fingerprint_deterministic(a: Seq<char>, b: Seq<char>)
    requires
        a == b,
    ensures
        sha256_hex_of(a) == sha256_hex_of(b),
{
}

} // verus!
