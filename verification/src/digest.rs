//! Content digests, as the manifest declares them.

use vstd::prelude::*;

verus! {

/// The MD5 digest of `data`, written as the 32 lower-case hexadecimal digits
/// in which a manifest declares it.
pub uninterp spec fn md5_hex(data: Seq<u8>) -> Seq<char>;

/// Computes the digest of `data`.
///
/// Trusted: `md5::compute` depends on the bytes alone, and the lower-case
/// hexadecimal form of its `Digest` writes the sixteen bytes in order, two
/// digits each. The result is what `md5_hex` names.
#[verifier::external_body]
pub(crate) fn compute_md5_hex(data: &[u8]) -> (hex: String)
    ensures
        hex@ == md5_hex(data@),
{
    format!("{:x}", md5::compute(data))
}

} // verus!
