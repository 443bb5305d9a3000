//! The command surface: the three subcommands with their arguments, and the
//! rule for where the result of a cipher operation is written.

use std::path::PathBuf;
use vstd::prelude::*;

verus! {

/// A path of the file system, carried through unread.
#[verifier::external_type_specification]
#[verifier::external_body]
pub struct ExPathBuf(std::path::PathBuf);

/// `PathBuf::clone` gives a copy that is equal to the path it was made from.
pub assume_specification[ <std::path::PathBuf as Clone>::clone ](
    path: &std::path::PathBuf,
) -> (copy: std::path::PathBuf)
    ensures
        copy == *path,
;

/// One invocation: what the operator asked for.
#[derive(Debug, PartialEq, Eq)]
pub enum Cli {
    /// Derive a password from a secret and a salt.
    Hash {
        /// Print the password instead of copying it to the clipboard.
        show: bool,
        /// Length of the password: 16 where absent, at most 64.
        length: Option<usize>,
    },
    /// Encrypt a file under a passphrase.
    Encrypt {
        /// Copy the passphrase to the clipboard.
        copy: bool,
        /// The file to encrypt.
        input: PathBuf,
        /// Where the ciphertext goes; the input file where absent.
        output: Option<PathBuf>,
    },
    /// Decrypt a file under a passphrase.
    Decrypt {
        /// The file to decrypt.
        input: PathBuf,
        /// Where the plaintext goes; the input file where absent.
        output: Option<PathBuf>,
    },
}

/// Where the result of a cipher operation is written.
#[derive(Debug, PartialEq, Eq)]
pub enum Destination {
    /// Over the input file: truncated and rewritten, not replaced atomically.
    InPlace(PathBuf),
    /// Into a file that is created for it and must not exist yet.
    Fresh(PathBuf),
}

/// The destination for an input path and an optional output path: the output
/// path as a fresh file where one is given, else the input file itself.
pub open spec fn destination_of(input: PathBuf, output: Option<PathBuf>) -> Destination {
    match output {
        Some(path) => Destination::Fresh(path),
        None => Destination::InPlace(input),
    }
}

/// Decides where the result of a cipher operation is written.
pub fn destination(input: PathBuf, output: Option<PathBuf>) -> (d: Destination)
    ensures
        d == destination_of(input, output),
{
    match output {
        Some(path) => Destination::Fresh(path),
        None => Destination::InPlace(input),
    }
}

impl Destination {
    /// Whether the destination must be created and may not exist yet.
    pub fn is_fresh(&self) -> (fresh: bool)
        ensures
            fresh == (*self is Fresh),
    {
        match self {
            Destination::Fresh(_) => true,
            Destination::InPlace(_) => false,
        }
    }
}

} // verus!
