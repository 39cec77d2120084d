use sha2::Digest;
use vstd::prelude::*;

verus! {

/// The SHA-256 digest of the UTF-8 encoding of a document.
pub uninterp spec fn sha256_of(document: Seq<char>) -> Seq<u8>;

/// Relies on sha2::Sha256::digest: the 32-byte SHA-256 digest of the input bytes,
/// which depends on the bytes alone.
#[verifier::external_body]
fn sha256(document: &str) -> (r: Vec<u8>)
    ensures
        r@ == sha256_of(document@),
        r@.len() == 32,
{
    sha2::Sha256::digest(document.as_bytes()).to_vec()
}

/// The digest under which a document is signed: the SHA-256 digest of its text.
pub fn document_digest(document: &str) -> (r: Vec<u8>)
    ensures
        r@ == sha256_of(document@),
        r@.len() == 32,
{
    sha256(document)
}

} // verus!
