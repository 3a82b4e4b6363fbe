//! Digests of artifacts.

use vstd::prelude::*;

verus! {

/// The SHA-256 digest of `data` in lower-case hexadecimal digits.
pub uninterp spec fn sha256_hex(data: Seq<u8>) -> Seq<char>;

/// `sha2::Sha256::digest` hashes the data. The contract names the hexadecimal
/// text of the digest and says nothing of its digits.
#[verifier::external_body]
pub(crate) fn sha256_text(data: &Vec<u8>) -> (text: String)
    ensures
        text@ == sha256_hex(data@),
{
    format!("{:x}", <sha2::Sha256 as sha2::Digest>::digest(data))
}

}
