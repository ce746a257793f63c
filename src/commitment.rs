use vstd::prelude::*;

use crate::choice::Choice;
use crate::error::BPSError;

verus! {

/// The SHA-256 digest of a byte sequence.
pub uninterp spec fn sha256_of(data: Seq<u8>) -> Seq<u8>;

/// Relies on solana_program::hash::hashv: off-chain it feeds each slice to a
/// SHA-256 hasher and returns the 32-byte digest, which depends on the bytes
/// alone.
#[verifier::external_body]
fn sha256(data: &[u8]) -> (r: [u8; 32])
    ensures
        r@ == sha256_of(data@),
{
    solana_program::hash::hashv(&[data]).to_bytes()
}

/// The bytes that are hashed for a commitment: the choice's tag, then the secret.
pub open spec fn commitment_preimage(choice: Choice, secret: Seq<u8>) -> Seq<u8> {
    seq![choice.spec_tag()] + secret
}

/// The commitment to `choice` under `secret`.
pub open spec fn spec_commit(choice: Choice, secret: Seq<u8>) -> Seq<u8> {
    sha256_of(commitment_preimage(choice, secret))
}

/// Whether `digest` is the commitment to `choice` under `secret`.
pub open spec fn spec_verify(digest: Seq<u8>, choice: Choice, secret: Seq<u8>) -> bool {
    digest == spec_commit(choice, secret)
}

/// Byte-wise equality of two digests.
pub fn digests_equal(a: &[u8; 32], b: &[u8; 32]) -> (r: bool)
    ensures
        r == (a@ == b@),
{
    let mut i: usize = 0;
    while i < 32
        invariant
            i <= 32,
            forall|j: int| 0 <= j < i ==> a@[j] == b@[j],
        decreases 32 - i,
    {
        if a[i] != b[i] {
            return false;
        }
        i = i + 1;
    }
    assert(a@ =~= b@);
    true
}

/// The preimage of a commitment, as bytes.
fn preimage_bytes(tag: u8, secret: &[u8; 32]) -> (r: Vec<u8>)
    ensures
        r@ == seq![tag] + secret@,
{
    let mut v: Vec<u8> = Vec::new();
    v.push(tag);
    let mut i: usize = 0;
    while i < 32
        invariant
            i <= 32,
            v@ == seq![tag] + secret@.subrange(0, i as int),
        decreases 32 - i,
    {
        v.push(secret[i]);
        assert(secret@.subrange(0, i + 1) == secret@.subrange(0, i as int).push(secret@[i as int]));
        i = i + 1;
    }
    assert(secret@.subrange(0, 32) == secret@);
    v
}

/// Commits to `choice` under `secret`: the digest of the choice's tag followed
/// by the secret.
pub fn commit(choice: Choice, secret: &[u8; 32]) -> (r: [u8; 32])
    ensures
        r@ == spec_commit(choice, secret@),
{
    let bytes = preimage_bytes(choice.tag(), secret);
    sha256(bytes.as_slice())
}

/// Recomputes the commitment to `choice` under `secret` and compares it with
/// `digest`.
pub fn verify(digest: &[u8; 32], choice: Choice, secret: &[u8; 32]) -> (r: bool)
    ensures
        r == spec_verify(digest@, choice, secret@),
{
    let computed = commit(choice, secret);
    digests_equal(&computed, digest)
}

/// Checks that `hash` is the digest of the raw byte `choice` followed by `salt`.
pub fn test_hashing(choice: u8, salt: &[u8; 32], hash: &[u8; 32]) -> (r: Result<(), BPSError>)
    ensures
        r is Ok <==> hash@ == sha256_of(seq![choice] + salt@),
        r matches Err(e) ==> e == BPSError::InvalidHash,
{
    let bytes = preimage_bytes(choice, salt);
    let computed = sha256(bytes.as_slice());
    if digests_equal(&computed, hash) {
        Ok(())
    } else {
        Err(BPSError::InvalidHash)
    }
}

/// The commitment to a choice and secret verifies against them. A digest
/// other than the commitment never verifies, and a different choice or secret
/// verifies against it only where SHA-256 maps two different preimages to the
/// same digest: the preimage itself always differs.
pub proof fn lemma_commit_then_verify(
    choice: Choice,
    secret: Seq<u8>,
    other_digest: Seq<u8>,
    other_choice: Choice,
    other_secret: Seq<u8>,
)
    ensures
        spec_verify(spec_commit(choice, secret), choice, secret),
        other_digest != spec_commit(choice, secret) ==> !spec_verify(other_digest, choice, secret),
        (other_choice != choice || other_secret != secret) ==> commitment_preimage(other_choice, other_secret)
            != commitment_preimage(choice, secret),
        spec_verify(spec_commit(choice, secret), other_choice, other_secret) ==> (
        other_choice == choice && other_secret == secret) || (commitment_preimage(
            other_choice,
            other_secret,
        ) != commitment_preimage(choice, secret) && sha256_of(
            commitment_preimage(other_choice, other_secret),
        ) == sha256_of(commitment_preimage(choice, secret))),
{
    let p = commitment_preimage(choice, secret);
    let q = commitment_preimage(other_choice, other_secret);
    if other_choice != choice || other_secret != secret {
        if p == q {
            assert(p[0] == choice.spec_tag());
            assert(q[0] == other_choice.spec_tag());
            crate::choice::lemma_tag_injective(choice, other_choice);
            assert(p.subrange(1, p.len() as int) =~= secret);
            assert(q.subrange(1, q.len() as int) =~= other_secret);
        }
    }
}

} // verus!
