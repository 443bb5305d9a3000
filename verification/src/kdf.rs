//! Key derivation: from a secret and a salt to a digest of fixed size, by
//! Argon2 with the parameters that the algorithm recommends.

use crate::error::ErrorKind;
use vstd::prelude::*;

verus! {

/// Size of a digest in bytes.
pub const DIGEST_LEN: usize = 64;

/// Shortest salt that is accepted, in bytes. A shorter salt is rejected with
/// `ErrorKind::Derivation`; it is never padded.
pub const MIN_SALT_LEN: usize = 8;

/// The error type of the `argon2` crate, carried through unread.
#[verifier::external_type_specification]
#[verifier::external_body]
pub struct ExArgon2Error(argon2::Error);

/// The 64 bytes that `argon2::Argon2::default().hash_password_into` writes for
/// a password and a salt when it succeeds: Argon2id, version 0x13, with the
/// crate's default costs and no secret key. Nothing is proved of this value;
/// it is a function of the two inputs alone.
pub uninterp spec fn argon2_output(secret: Seq<u8>, salt: Seq<u8>) -> Seq<u8>;

/// Calls `argon2::Argon2::default().hash_password_into` on a fresh 64-byte
/// buffer. Claimed: when the call succeeds, the buffer holds
/// `argon2_output(secret, salt)`. Nothing is claimed about when it succeeds.
#[verifier::external_body]
fn argon2_default(secret: &[u8], salt: &[u8]) -> (r: Result<[u8; 64], argon2::Error>)
    ensures
        r is Ok ==> r->Ok_0@ == argon2_output(secret@, salt@),
{
    let mut out = [0u8; 64];
    match argon2::Argon2::default().hash_password_into(secret, salt, &mut out) {
        Ok(()) => Ok(out),
        Err(e) => Err(e),
    }
}

/// The fixed-size output of the key derivation.
#[derive(Clone, Copy, Debug, PartialEq, Eq)]
pub struct Digest {
    bytes: [u8; 64],
}

impl View for Digest {
    type V = Seq<u8>;

    closed spec fn view(&self) -> Seq<u8> {
        self.bytes@
    }
}

impl Digest {
    /// A digest with the given bytes.
    pub fn from_bytes(bytes: [u8; 64]) -> (d: Digest)
        ensures
            d@ == bytes@,
    {
        Digest { bytes }
    }

    /// The bytes of the digest.
    pub fn as_bytes(&self) -> (bytes: &[u8; 64])
        ensures
            bytes@ == self@,
    {
        &self.bytes
    }

    /// The byte at position `i`.
    pub fn byte(&self, i: usize) -> (b: u8)
        requires
            i < DIGEST_LEN,
        ensures
            b == self@[i as int],
    {
        self.bytes[i]
    }

    /// Every digest has `DIGEST_LEN` bytes.
    pub proof fn lemma_len(&self)
        ensures
            self@.len() == DIGEST_LEN,
    {
    }
}

/// Whether `r` is a result that deriving from `secret` and `salt` may give:
/// a salt under the minimum is refused, success gives the Argon2 output, and
/// the only failure is `ErrorKind::Derivation`.
pub open spec fn derives(secret: Seq<u8>, salt: Seq<u8>, r: Result<Digest, ErrorKind>) -> bool {
    &&& salt.len() < MIN_SALT_LEN ==> r is Err
    &&& r is Ok ==> r->Ok_0@ == argon2_output(secret, salt)
    &&& r is Err ==> r->Err_0 == ErrorKind::Derivation
}

/// Turns what the Argon2 call gave into the library's result: the bytes as a
/// digest, any failure as `ErrorKind::Derivation`.
pub fn digest_from_outcome(outcome: Result<[u8; 64], argon2::Error>) -> (r: Result<Digest, ErrorKind>)
    ensures
        outcome is Ok ==> r is Ok && r->Ok_0@ == outcome->Ok_0@,
        outcome is Err ==> r == Err::<Digest, ErrorKind>(ErrorKind::Derivation),
{
    match outcome {
        Ok(bytes) => Ok(Digest::from_bytes(bytes)),
        Err(_) => Err(ErrorKind::Derivation),
    }
}

/// Derives the digest of `secret` under `salt`.
///
/// A salt shorter than `MIN_SALT_LEN` bytes is rejected before the derivation
/// runs. The derivation itself may fail for want of memory; when it succeeds
/// its result depends on the two inputs alone.
pub fn derive_digest(secret: &[u8], salt: &[u8]) -> (r: Result<Digest, ErrorKind>)
    ensures
        derives(secret@, salt@, r),
{
    if salt.len() < MIN_SALT_LEN {
        return Err(ErrorKind::Derivation);
    }
    digest_from_outcome(argon2_default(secret, salt))
}

/// Derivation is deterministic: two successful derivations from the same
/// secret and salt give the same digest.
pub proof fn lemma_derivation_deterministic(
    secret: Seq<u8>,
    salt: Seq<u8>,
    first: Result<Digest, ErrorKind>,
    second: Result<Digest, ErrorKind>,
)
    requires
        derives(secret, salt, first),
        derives(secret, salt, second),
        first is Ok,
        second is Ok,
    ensures
        first->Ok_0@ == second->Ok_0@,
{
}

} // verus!
