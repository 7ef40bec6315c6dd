//! The commitment primitive: the SHA-256 digest of a 32-byte secret, and the
//! comparison of two digests.
//!
//! An escrow is bound to a secret by storing only the digest of the secret.
//! Whoever later presents bytes whose digest equals the stored one has shown
//! knowledge of the secret.

use vstd::prelude::*;

verus! {

/// The SHA-256 digest of `preimage`, as a mathematical function of its bytes.
pub uninterp spec fn sha256(preimage: Seq<u8>) -> Seq<u8>;

/// Calls `soroban_sdk::crypto::Crypto::sha256` on the 32 bytes of `preimage`,
/// in an environment of its own. Assumed, not proved: the 32 bytes that come
/// back are the SHA-256 digest of the bytes that went in.
#[verifier::external_body]
fn soroban_sha256(preimage: &[u8; 32]) -> (digest: [u8; 32])
    ensures
        digest@ == sha256(preimage@),
{
    let env = soroban_sdk::Env::default();
    env.crypto().sha256(&soroban_sdk::Bytes::from_array(&env, preimage)).to_array()
}

/// The commitment that binds an escrow to the secret `preimage`.
pub fn hash(preimage: &[u8; 32]) -> (digest: [u8; 32])
    ensures
        digest@ == sha256(preimage@),
{
    soroban_sha256(preimage)
}

/// Whether two digests hold the same 32 bytes.
pub fn same_digest(left: &[u8; 32], right: &[u8; 32]) -> (same: bool)
    ensures
        same == (left@ == right@),
{
    let mut i: usize = 0;
    while i < 32
        invariant
            i <= 32,
            forall|j: int| 0 <= j < i ==> left@[j] == right@[j],
        decreases 32 - i,
    {
        if left[i] != right[i] {
            return false;
        }
        i += 1;
    }
    assert(left@ =~= right@);
    true
}

/// Whether `preimage` is a secret behind `commitment`.
pub fn opens(commitment: &[u8; 32], preimage: &[u8; 32]) -> (ok: bool)
    ensures
        ok == (sha256(preimage@) == commitment@),
{
    let digest = hash(preimage);
    same_digest(&digest, commitment)
}

} // verus!
