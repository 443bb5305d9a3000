//! The cipher pipeline: a byte buffer sealed under a passphrase by
//! password-based authenticated encryption, and opened again.

use crate::error::ErrorKind;
use vstd::prelude::*;

verus! {

/// The error type that `simple_crypt` reports with, carried through unread.
#[verifier::external_type_specification]
#[verifier::external_body]
pub struct ExCipherFault(anyhow::Error);

/// What `simple_crypt::decrypt` gives for a ciphertext and a passphrase: the
/// plaintext where it returns `Ok`, `None` where it returns an error. Nothing
/// is proved of this value; it is a function of the two inputs alone.
pub uninterp spec fn opened(ciphertext: Seq<u8>, passphrase: Seq<u8>) -> Option<Seq<u8>>;

/// Calls `simple_crypt::encrypt`, which draws a fresh salt and nonce, derives
/// a key from the passphrase and encrypts with AES-GCM-SIV. The ciphertext
/// differs from call to call. Claimed: whatever ciphertext comes back,
/// `simple_crypt::decrypt` opens it under the same passphrase and gives the
/// plaintext back.
#[verifier::external_body]
fn cipher_encrypt(plaintext: &[u8], passphrase: &[u8]) -> (r: Result<Vec<u8>, anyhow::Error>)
    ensures
        r is Ok ==> opened(r->Ok_0@, passphrase@) == Some(plaintext@),
{
    simple_crypt::encrypt(plaintext, passphrase)
}

/// Calls `simple_crypt::decrypt`. Claimed: the call returns `Ok` exactly
/// where `opened` is `Some`, and then with that plaintext.
#[verifier::external_body]
fn cipher_decrypt(ciphertext: &[u8], passphrase: &[u8]) -> (r: Result<Vec<u8>, anyhow::Error>)
    ensures
        match r {
            Ok(plaintext) => opened(ciphertext@, passphrase@) == Some(plaintext@),
            Err(_) => opened(ciphertext@, passphrase@) is None,
        },
{
    simple_crypt::decrypt(ciphertext, passphrase)
}

/// Whether `r` is a result that sealing `plaintext` under `passphrase` may
/// give: a ciphertext that opens to the plaintext under the same passphrase,
/// or `ErrorKind::Encryption`.
pub open spec fn seals(plaintext: Seq<u8>, passphrase: Seq<u8>, r: Result<Vec<u8>, ErrorKind>) -> bool {
    &&& r is Ok ==> opened(r->Ok_0@, passphrase) == Some(plaintext)
    &&& r is Err ==> r->Err_0 == ErrorKind::Encryption
}

/// The one result of opening `ciphertext` under `passphrase`: the plaintext,
/// or `ErrorKind::Decryption` where the ciphertext does not authenticate. A
/// wrong passphrase and damaged data give the same failure.
pub open spec fn opens(ciphertext: Seq<u8>, passphrase: Seq<u8>, r: Result<Vec<u8>, ErrorKind>) -> bool {
    match opened(ciphertext, passphrase) {
        Some(plaintext) => r is Ok && r->Ok_0@ == plaintext,
        None => r is Err && r->Err_0 == ErrorKind::Decryption,
    }
}

/// Turns what the encryption gave into the library's result: the ciphertext
/// unchanged, any failure as `ErrorKind::Encryption`.
pub fn sealed_from_outcome(outcome: Result<Vec<u8>, anyhow::Error>) -> (r: Result<Vec<u8>, ErrorKind>)
    ensures
        outcome is Ok ==> r is Ok && r->Ok_0@ == outcome->Ok_0@,
        outcome is Err ==> r is Err && r->Err_0 == ErrorKind::Encryption,
{
    match outcome {
        Ok(ciphertext) => Ok(ciphertext),
        Err(_) => Err(ErrorKind::Encryption),
    }
}

/// Turns what the decryption gave into the library's result: the plaintext
/// unchanged, any failure as `ErrorKind::Decryption`.
pub fn opened_from_outcome(outcome: Result<Vec<u8>, anyhow::Error>) -> (r: Result<Vec<u8>, ErrorKind>)
    ensures
        outcome is Ok ==> r is Ok && r->Ok_0@ == outcome->Ok_0@,
        outcome is Err ==> r is Err && r->Err_0 == ErrorKind::Decryption,
{
    match outcome {
        Ok(plaintext) => Ok(plaintext),
        Err(_) => Err(ErrorKind::Decryption),
    }
}

/// Seals `plaintext` under `passphrase`. The ciphertext carries the salt, the
/// nonce and the authentication tag, so that the passphrase alone opens it.
pub fn encrypt_bytes(plaintext: &[u8], passphrase: &[u8]) -> (r: Result<Vec<u8>, ErrorKind>)
    ensures
        seals(plaintext@, passphrase@, r),
{
    sealed_from_outcome(cipher_encrypt(plaintext, passphrase))
}

/// Opens `ciphertext` under `passphrase`.
pub fn decrypt_bytes(ciphertext: &[u8], passphrase: &[u8]) -> (r: Result<Vec<u8>, ErrorKind>)
    ensures
        opens(ciphertext@, passphrase@, r),
{
    opened_from_outcome(cipher_decrypt(ciphertext, passphrase))
}

/// Round trip: what was sealed under a passphrase opens under the same
/// passphrase, and gives the original bytes.
pub proof fn lemma_round_trip(
    plaintext: Seq<u8>,
    passphrase: Seq<u8>,
    sealed: Result<Vec<u8>, ErrorKind>,
    reopened: Result<Vec<u8>, ErrorKind>,
)
    requires
        seals(plaintext, passphrase, sealed),
        sealed is Ok,
        opens(sealed->Ok_0@, passphrase, reopened),
    ensures
        reopened is Ok,
        reopened->Ok_0@ == plaintext,
{
}

} // verus!
