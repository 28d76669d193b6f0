//! The digest that the servers sign.

use vstd::prelude::*;
use crate::mpc::utils::hex2string::is_hex_text;

verus! {

/// The SHA-256 digest of the UTF-8 bytes of `text`, as 64 hexadecimal
/// digits in lower case.
pub uninterp spec fn sha256_hex(text: Seq<char>) -> Seq<char>;

/// Calls `sha256::digest`, which hashes the bytes of the text with SHA-256
/// and encodes the 32 bytes of the digest with `hex::encode`: 64
/// hexadecimal digits.
#[verifier::external_body]
pub(crate) fn sha256_digest(text: &str) -> (digest: String)
    ensures
        digest@ == sha256_hex(text@),
        digest@.len() == 64,
        is_hex_text(digest@),
{
    sha256::digest(text)
}

} // verus!
