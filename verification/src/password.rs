//! The hash pipeline: a digest rendered in the output alphabet as a password
//! of the requested length.

use crate::alphabet::{alphabet, lemma_symbol_in_alphabet, symbol, symbol_of};
use crate::error::ErrorKind;
use crate::kdf::{argon2_output, derive_digest, Digest, DIGEST_LEN, MIN_SALT_LEN};
use vstd::prelude::*;

verus! {

/// Length of a password when none is requested.
pub const DEFAULT_LENGTH: usize = 16;

/// Longest password: one character for each byte of a digest.
pub const MAX_LENGTH: usize = 64;

/// `String::push` appends one character to the end of the string.
pub assume_specification[ String::push ](s: &mut String, ch: char)
    ensures
        final(s)@ == old(s)@.push(ch),
;

/// The length asked for, or the default where none was given.
pub open spec fn requested_length(length: Option<usize>) -> nat {
    match length {
        Some(l) => l as nat,
        None => DEFAULT_LENGTH as nat,
    }
}

/// The requested length brought into the range from 1 to `MAX_LENGTH`.
pub open spec fn clamped(requested: nat) -> nat {
    if requested < 1 {
        1
    } else if requested > MAX_LENGTH {
        MAX_LENGTH as nat
    } else {
        requested
    }
}

/// The password of `length` characters for a digest: character `i` stands for
/// byte `i` of the digest.
pub open spec fn password_of(digest: Seq<u8>, length: nat) -> Seq<char> {
    Seq::new(length, |i: int| symbol_of(digest[i]))
}

/// The number of characters that a password will have for a request: a
/// request above the maximum is capped, not refused, and a request for
/// nothing gives one character.
pub fn clamp_length(requested: usize) -> (l: usize)
    ensures
        l == clamped(requested as nat),
        1 <= l <= MAX_LENGTH,
{
    if requested < 1 {
        1
    } else if requested > MAX_LENGTH {
        MAX_LENGTH
    } else {
        requested
    }
}

/// Renders the first bytes of `digest` as a password of `clamped(requested)`
/// characters.
pub fn render(digest: &Digest, requested: usize) -> (password: String)
    ensures
        password@ == password_of(digest@, clamped(requested as nat)),
{
    let length: usize = clamp_length(requested);
    let mut password = String::new();
    let mut i: usize = 0;
    while i < length
        invariant
            i <= length <= MAX_LENGTH,
            password@ == password_of(digest@, i as nat),
        decreases length - i,
    {
        password.push(symbol(digest.byte(i)));
        i = i + 1;
        assert(password@ =~= password_of(digest@, i as nat));
    }
    password
}

/// Whether `r` is a result that deriving a password from `secret` and `salt`
/// may give: a salt under the minimum is refused, success gives the rendering
/// of the Argon2 output, and the only failure is `ErrorKind::Derivation`.
pub open spec fn hashes(
    secret: Seq<u8>,
    salt: Seq<u8>,
    requested: nat,
    r: Result<String, ErrorKind>,
) -> bool {
    &&& salt.len() < MIN_SALT_LEN ==> r is Err
    &&& r is Ok ==> r->Ok_0@ == password_of(argon2_output(secret, salt), clamped(requested))
    &&& r is Err ==> r->Err_0 == ErrorKind::Derivation
}

/// Renders the digest of a derivation that succeeded, and hands a failure on.
pub fn password_from_outcome(outcome: Result<Digest, ErrorKind>, requested: usize) -> (r: Result<
    String,
    ErrorKind,
>)
    ensures
        outcome is Ok ==> r is Ok && r->Ok_0@ == password_of(
            outcome->Ok_0@,
            clamped(requested as nat),
        ),
        outcome is Err ==> r is Err && r->Err_0 == outcome->Err_0,
{
    match outcome {
        Ok(digest) => Ok(render(&digest, requested)),
        Err(e) => Err(e),
    }
}

/// The whole hash pipeline: derives the digest of `secret` under `salt` and
/// renders it as a password of `clamped(requested)` characters.
pub fn derive_password(secret: &[u8], salt: &[u8], requested: usize) -> (r: Result<
    String,
    ErrorKind,
>)
    ensures
        hashes(secret@, salt@, requested as nat, r),
{
    password_from_outcome(derive_digest(secret, salt), requested)
}

/// A password of a length from 1 to `MAX_LENGTH` has exactly that many
/// characters, each of them from the alphabet.
pub proof fn lemma_password_shape(digest: Seq<u8>, length: nat)
    requires
        digest.len() == DIGEST_LEN,
        1 <= length <= MAX_LENGTH,
    ensures
        password_of(digest, clamped(length)).len() == length,
        forall|i: int|
            0 <= i < length ==> alphabet().contains(#[trigger] password_of(digest, clamped(length))[i]),
{
    assert forall|i: int| 0 <= i < length implies alphabet().contains(
        #[trigger] password_of(digest, clamped(length))[i],
    ) by {
        lemma_symbol_in_alphabet(digest[i]);
    }
}

/// A request for more than `MAX_LENGTH` characters is capped: it gives the
/// password of `MAX_LENGTH` characters.
pub proof fn lemma_length_capped(digest: Seq<u8>, requested: nat)
    requires
        requested > MAX_LENGTH,
    ensures
        clamped(requested) == MAX_LENGTH,
        password_of(digest, clamped(requested)) == password_of(digest, MAX_LENGTH as nat),
        password_of(digest, clamped(requested)).len() == MAX_LENGTH,
{
}

/// Two passwords derived from the same secret, salt and request are equal.
pub proof fn lemma_password_deterministic(
    secret: Seq<u8>,
    salt: Seq<u8>,
    requested: nat,
    first: Result<String, ErrorKind>,
    second: Result<String, ErrorKind>,
)
    requires
        hashes(secret, salt, requested, first),
        hashes(secret, salt, requested, second),
        first is Ok,
        second is Ok,
    ensures
        first->Ok_0@ == second->Ok_0@,
{
}

} // verus!
