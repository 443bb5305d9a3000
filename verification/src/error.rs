//! The closed set of ways in which an operation can fail.

use vstd::prelude::*;

verus! {

/// Why an operation was abandoned. Every failure ends the operation at once;
/// nothing is retried.
#[derive(Clone, Copy, Debug, PartialEq, Eq, Structural)]
pub enum ErrorKind {
    /// A secret or a salt could not be read from the operator.
    Input,
    /// The key-derivation function rejected its inputs.
    Derivation,
    /// The clipboard was not available.
    Delivery,
    /// The input file could not be read.
    FileRead,
    /// The destination file could not be written.
    FileWrite,
    /// The destination exists already and was left as it is.
    OutputExists,
    /// The cipher failed to encrypt.
    Encryption,
    /// The ciphertext did not authenticate under the passphrase, or is not a
    /// ciphertext at all.
    Decryption,
}

/// The one message shown to the operator for each kind of failure.
pub open spec fn message_of(e: ErrorKind) -> Seq<char> {
    match e {
        ErrorKind::Input => "Could not read secret input"@,
        ErrorKind::Derivation => "Hashing failed!"@,
        ErrorKind::Delivery => "Could not copy password to clipboard"@,
        ErrorKind::FileRead => "Could not read input file"@,
        ErrorKind::FileWrite => "Could not write output file"@,
        ErrorKind::OutputExists => "Output file already exists"@,
        ErrorKind::Encryption => "Encryption failed!"@,
        ErrorKind::Decryption => "Decryption failed!"@,
    }
}

impl ErrorKind {
    /// The message for this kind of failure.
    pub fn message(&self) -> (m: &'static str)
        ensures
            m@ == message_of(*self),
    {
        match self {
            ErrorKind::Input => "Could not read secret input",
            ErrorKind::Derivation => "Hashing failed!",
            ErrorKind::Delivery => "Could not copy password to clipboard",
            ErrorKind::FileRead => "Could not read input file",
            ErrorKind::FileWrite => "Could not write output file",
            ErrorKind::OutputExists => "Output file already exists",
            ErrorKind::Encryption => "Encryption failed!",
            ErrorKind::Decryption => "Decryption failed!",
        }
    }
}

} // verus!
