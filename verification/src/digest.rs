//! SHA-256 digests, used to derive transaction and block identifiers and to
//! check a bridge transfer's hash lock against a revealed secret.

use vstd::prelude::*;

verus! {

/// The 32-byte SHA-256 digest of a byte sequence, named but not written out:
/// the digest is a pure function of the input bytes, computed by the `sha2`
/// crate.
pub uninterp spec fn sha256_of(bytes: Seq<u8>) -> Seq<u8>;

/// Relies on `sha2::Sha256` (through `sha2::Digest::digest`): the digest is a
/// function of the input bytes alone, and is always 32 bytes long.
#[verifier::external_body]
pub(crate) fn sha256(bytes: &[u8]) -> (r: [u8; 32])
    ensures
        r@ == sha256_of(bytes@),
{
    let digest = <sha2::Sha256 as sha2::Digest>::digest(bytes);
    let mut out = [0u8; 32];
    out.copy_from_slice(&digest);
    out
}

/// Compares two 32-byte values.
pub fn bytes32_equal(a: &[u8; 32], b: &[u8; 32]) -> (r: bool)
    ensures
        r <==> a@ == b@,
{
    let mut i: usize = 0;
    while i < 32
        invariant
            0 <= i <= 32,
            forall|k: int| 0 <= k < i ==> a@[k] == b@[k],
        decreases 32 - i,
    {
        if a[i] != b[i] {
            assert(a@ != b@);
            return false;
        }
        i += 1;
    }
    assert(a@ =~= b@);
    true
}

/// The hash lock committing to a secret: the SHA-256 digest of the secret's
/// bytes. A completion attempt must reveal a secret whose digest equals the
/// stored lock.
pub fn hash_lock_of(secret: &[u8]) -> (h: [u8; 32])
    ensures
        h@ == sha256_of(secret@),
{
    sha256(secret)
}

} // verus!
