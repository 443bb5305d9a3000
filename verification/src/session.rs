//! One invocation as a sequence of decisions. The shell around the library
//! carries out each effect (a prompt, a file read, a clipboard write, a file
//! write) and reports what happened; the session decides what comes next.

use crate::cipher::{decrypt_bytes, encrypt_bytes, opened, opens, seals};
use crate::cli::{destination, destination_of, Cli, Destination};
use crate::error::ErrorKind;
use crate::password::{derive_password, hashes, requested_length, DEFAULT_LENGTH};
use std::path::PathBuf;
use vstd::prelude::*;
use vstd::utf8::encode_utf8;

verus! {

/// Which secret the operator is asked for.
#[derive(Clone, Copy, Debug, PartialEq, Eq, Structural)]
pub enum Prompt {
    /// The password or passphrase.
    Password,
    /// The salt.
    Salt,
}

/// What the shell is asked to do next.
#[derive(Debug, PartialEq, Eq)]
pub enum Effect {
    /// Show the prompt, flush it, and read one line without echo.
    AskSecret(Prompt),
    /// Read the whole file into memory.
    ReadFile(PathBuf),
    /// Place the text on the clipboard.
    Copy(String),
    /// Write the bytes to the destination.
    Write {
        /// Where the bytes go.
        destination: Destination,
        /// What is written.
        bytes: Vec<u8>,
    },
}

/// What the shell reports back.
#[derive(Debug, PartialEq, Eq)]
pub enum Event {
    /// The line that the operator typed.
    Secret(String),
    /// The contents of the file.
    Contents(Vec<u8>),
    /// The clipboard write or the file write was carried out.
    Done,
    /// The file to be created exists already; it was not touched.
    Exists,
    /// The effect could not be carried out.
    Failed,
}

/// What a successful run ends with.
#[derive(Debug, PartialEq, Eq)]
pub enum Report {
    /// The derived password, to be shown.
    Password(String),
    /// The derived password is on the clipboard.
    PasswordCopied,
    /// The ciphertext was written.
    FileEncrypted,
    /// The plaintext was written.
    FileDecrypted,
}

/// Where an invocation stands: which report the session waits for, with what
/// it has gathered so far.
#[derive(Debug, PartialEq, Eq)]
pub enum Session {
    /// Hash: waiting for the password.
    HashPassword { show: bool, length: Option<usize> },
    /// Hash: waiting for the salt.
    HashSalt { show: bool, length: Option<usize>, password: String },
    /// Hash: waiting for the clipboard.
    HashCopy,
    /// Encrypt: waiting for the contents of the input file.
    EncryptRead { copy: bool, input: PathBuf, output: Option<PathBuf> },
    /// Encrypt: waiting for the passphrase.
    EncryptPassphrase { copy: bool, input: PathBuf, output: Option<PathBuf>, plaintext: Vec<u8> },
    /// Encrypt: waiting for the clipboard to take the passphrase.
    EncryptCopy { input: PathBuf, output: Option<PathBuf>, plaintext: Vec<u8>, passphrase: String },
    /// Encrypt: waiting for the ciphertext to be written.
    EncryptWrite { fresh: bool },
    /// Decrypt: waiting for the contents of the input file.
    DecryptRead { input: PathBuf, output: Option<PathBuf> },
    /// Decrypt: waiting for the passphrase.
    DecryptPassphrase { input: PathBuf, output: Option<PathBuf>, ciphertext: Vec<u8> },
    /// Decrypt: waiting for the plaintext to be written.
    DecryptWrite { fresh: bool },
}

/// The outcome of one decision.
#[derive(Debug, PartialEq, Eq)]
pub enum Step {
    /// The run goes on: carry out the effect and report to the session.
    Next { session: Session, effect: Effect },
    /// The run has succeeded.
    Finished(Report),
    /// The run is abandoned.
    Failed(ErrorKind),
}

/// The exit status of a run that has ended: 0 after success, 1 after a
/// failure of any kind. A run that goes on has none.
pub open spec fn exit_status_of(step: Step) -> Option<u8> {
    match step {
        Step::Next { .. } => None,
        Step::Finished(_) => Some(0u8),
        Step::Failed(_) => Some(1u8),
    }
}

impl Step {
    /// The exit status that the process reports for this step.
    pub fn exit_status(&self) -> (status: Option<u8>)
        ensures
            status == exit_status_of(*self),
    {
        match self {
            Step::Next { .. } => None,
            Step::Finished(_) => Some(0),
            Step::Failed(_) => Some(1),
        }
    }
}

/// Which cipher operation a write belongs to.
#[derive(Clone, Copy, Debug, PartialEq, Eq, Structural)]
pub enum Direction {
    /// Plaintext to ciphertext.
    Encrypt,
    /// Ciphertext to plaintext.
    Decrypt,
}

/// The bytes that stand for a secret: its UTF-8 encoding.
pub open spec fn bytes_of(secret: Seq<char>) -> Seq<u8> {
    encode_utf8(secret)
}

/// The first step of an invocation.
pub open spec fn first_step(cli: Cli) -> (Session, Effect) {
    match cli {
        Cli::Hash { show, length } => (
            Session::HashPassword { show, length },
            Effect::AskSecret(Prompt::Password),
        ),
        Cli::Encrypt { copy, input, output } => (
            Session::EncryptRead { copy, input, output },
            Effect::ReadFile(input),
        ),
        Cli::Decrypt { input, output } => (
            Session::DecryptRead { input, output },
            Effect::ReadFile(input),
        ),
    }
}

/// How a derived password is delivered: shown, or copied to the clipboard.
/// A failed derivation ends the run.
pub open spec fn delivery_of(show: bool, derived: Result<String, ErrorKind>) -> Step {
    match derived {
        Ok(password) => if show {
            Step::Finished(Report::Password(password))
        } else {
            Step::Next { session: Session::HashCopy, effect: Effect::Copy(password) }
        },
        Err(e) => Step::Failed(e),
    }
}

/// The session that waits for the write of a cipher operation.
pub open spec fn awaiting_write(direction: Direction, fresh: bool) -> Session {
    match direction {
        Direction::Encrypt => Session::EncryptWrite { fresh },
        Direction::Decrypt => Session::DecryptWrite { fresh },
    }
}

/// What follows a cipher operation: its result is written to the destination
/// that the paths decide; a failure ends the run and nothing is written.
pub open spec fn write_of(
    direction: Direction,
    input: PathBuf,
    output: Option<PathBuf>,
    transformed: Result<Vec<u8>, ErrorKind>,
) -> Step {
    match transformed {
        Ok(bytes) => Step::Next {
            session: awaiting_write(direction, output is Some),
            effect: Effect::Write { destination: destination_of(input, output), bytes },
        },
        Err(e) => Step::Failed(e),
    }
}

/// What follows the report on a write: success, or the failure that the
/// report stands for. Only a file that was to be created can be in the way.
pub open spec fn written_of(direction: Direction, fresh: bool, event: Event) -> Step {
    match event {
        Event::Done => match direction {
            Direction::Encrypt => Step::Finished(Report::FileEncrypted),
            Direction::Decrypt => Step::Finished(Report::FileDecrypted),
        },
        Event::Exists => if fresh {
            Step::Failed(ErrorKind::OutputExists)
        } else {
            Step::Failed(ErrorKind::FileWrite)
        },
        _ => Step::Failed(ErrorKind::FileWrite),
    }
}

/// Whether `step` may follow when `event` is reported to `session`.
///
/// Every report but the one that the session waits for counts as the failure
/// of what was asked. Where a derivation or an encryption runs, the step is
/// the one that follows from some result that the operation may give; in
/// every other place it is fixed by the session and the event.
pub open spec fn follows(session: Session, event: Event, step: Step) -> bool {
    match session {
        Session::HashPassword { show, length } => match event {
            Event::Secret(password) => step == Step::Next {
                session: Session::HashSalt { show, length, password },
                effect: Effect::AskSecret(Prompt::Salt),
            },
            _ => step == Step::Failed(ErrorKind::Input),
        },
        Session::HashSalt { show, length, password } => match event {
            Event::Secret(salt) => exists|derived: Result<String, ErrorKind>|
                #[trigger] hashes(bytes_of(password@), bytes_of(salt@), requested_length(length), derived)
                    && step == delivery_of(show, derived),
            _ => step == Step::Failed(ErrorKind::Input),
        },
        Session::HashCopy => match event {
            Event::Done => step == Step::Finished(Report::PasswordCopied),
            _ => step == Step::Failed(ErrorKind::Delivery),
        },
        Session::EncryptRead { copy, input, output } => match event {
            Event::Contents(plaintext) => step == Step::Next {
                session: Session::EncryptPassphrase { copy, input, output, plaintext },
                effect: Effect::AskSecret(Prompt::Password),
            },
            _ => step == Step::Failed(ErrorKind::FileRead),
        },
        Session::EncryptPassphrase { copy, input, output, plaintext } => match event {
            Event::Secret(passphrase) => if copy {
                step == Step::Next {
                    session: Session::EncryptCopy { input, output, plaintext, passphrase },
                    effect: Effect::Copy(passphrase),
                }
            } else {
                exists|sealed: Result<Vec<u8>, ErrorKind>|
                    #[trigger] seals(plaintext@, bytes_of(passphrase@), sealed) && step == write_of(
                        Direction::Encrypt,
                        input,
                        output,
                        sealed,
                    )
            },
            _ => step == Step::Failed(ErrorKind::Input),
        },
        Session::EncryptCopy { input, output, plaintext, passphrase } => match event {
            Event::Done => exists|sealed: Result<Vec<u8>, ErrorKind>|
                #[trigger] seals(plaintext@, bytes_of(passphrase@), sealed) && step == write_of(
                    Direction::Encrypt,
                    input,
                    output,
                    sealed,
                ),
            _ => step == Step::Failed(ErrorKind::Delivery),
        },
        Session::EncryptWrite { fresh } => step == written_of(Direction::Encrypt, fresh, event),
        Session::DecryptRead { input, output } => match event {
            Event::Contents(ciphertext) => step == Step::Next {
                session: Session::DecryptPassphrase { input, output, ciphertext },
                effect: Effect::AskSecret(Prompt::Password),
            },
            _ => step == Step::Failed(ErrorKind::FileRead),
        },
        Session::DecryptPassphrase { input, output, ciphertext } => match event {
            Event::Secret(passphrase) => exists|plain: Result<Vec<u8>, ErrorKind>|
                #[trigger] opens(ciphertext@, bytes_of(passphrase@), plain) && step == write_of(
                    Direction::Decrypt,
                    input,
                    output,
                    plain,
                ),
            _ => step == Step::Failed(ErrorKind::Input),
        },
        Session::DecryptWrite { fresh } => step == written_of(Direction::Decrypt, fresh, event),
    }
}

/// Opens a session for an invocation and says what to do first: ask for the
/// password, or read the input file.
pub fn start(cli: Cli) -> (first: (Session, Effect))
    ensures
        first == first_step(cli),
{
    match cli {
        Cli::Hash { show, length } => (
            Session::HashPassword { show, length },
            Effect::AskSecret(Prompt::Password),
        ),
        Cli::Encrypt { copy, input, output } => {
            let path = input.clone();
            (Session::EncryptRead { copy, input, output }, Effect::ReadFile(path))
        },
        Cli::Decrypt { input, output } => {
            let path = input.clone();
            (Session::DecryptRead { input, output }, Effect::ReadFile(path))
        },
    }
}

/// Decides how a derived password is delivered.
pub fn deliver_password(show: bool, derived: Result<String, ErrorKind>) -> (step: Step)
    ensures
        step == delivery_of(show, derived),
{
    match derived {
        Ok(password) => if show {
            Step::Finished(Report::Password(password))
        } else {
            Step::Next { session: Session::HashCopy, effect: Effect::Copy(password) }
        },
        Err(e) => Step::Failed(e),
    }
}

/// Decides what follows a cipher operation.
pub fn write_transformed(
    direction: Direction,
    input: PathBuf,
    output: Option<PathBuf>,
    transformed: Result<Vec<u8>, ErrorKind>,
) -> (step: Step)
    ensures
        step == write_of(direction, input, output, transformed),
{
    match transformed {
        Ok(bytes) => {
            let fresh = output.is_some();
            let session = match direction {
                Direction::Encrypt => Session::EncryptWrite { fresh },
                Direction::Decrypt => Session::DecryptWrite { fresh },
            };
            Step::Next {
                session,
                effect: Effect::Write { destination: destination(input, output), bytes },
            }
        },
        Err(e) => Step::Failed(e),
    }
}

/// Decides what follows the report on a write.
pub fn after_write(direction: Direction, fresh: bool, event: Event) -> (step: Step)
    ensures
        step == written_of(direction, fresh, event),
{
    match event {
        Event::Done => match direction {
            Direction::Encrypt => Step::Finished(Report::FileEncrypted),
            Direction::Decrypt => Step::Finished(Report::FileDecrypted),
        },
        Event::Exists => if fresh {
            Step::Failed(ErrorKind::OutputExists)
        } else {
            Step::Failed(ErrorKind::FileWrite)
        },
        _ => Step::Failed(ErrorKind::FileWrite),
    }
}

/// The length to ask for: the one given, or the default.
pub fn length_or_default(length: Option<usize>) -> (requested: usize)
    ensures
        requested == requested_length(length),
{
    match length {
        Some(l) => l,
        None => DEFAULT_LENGTH,
    }
}

/// Seals the plaintext under the passphrase and decides what follows.
fn seal_and_write(
    input: PathBuf,
    output: Option<PathBuf>,
    plaintext: Vec<u8>,
    passphrase: String,
) -> (step: Step)
    ensures
        exists|sealed: Result<Vec<u8>, ErrorKind>|
            #[trigger] seals(plaintext@, bytes_of(passphrase@), sealed) && step == write_of(
                Direction::Encrypt,
                input,
                output,
                sealed,
            ),
{
    let sealed = encrypt_bytes(plaintext.as_slice(), passphrase.as_str().as_bytes());
    let ghost witness = sealed;
    let step = write_transformed(Direction::Encrypt, input, output, sealed);
    assert(seals(plaintext@, bytes_of(passphrase@), witness));
    step
}

/// Takes the report on the last effect and decides what comes next.
///
/// The secrets are asked for in order, the password before the salt. The
/// passphrase goes to the clipboard, where that was asked, before anything is
/// encrypted. Any failure ends the run at once, and a cipher operation that
/// fails leaves nothing to be written.
pub fn advance(session: Session, event: Event) -> (step: Step)
    ensures
        follows(session, event, step),
{
    match session {
        Session::HashPassword { show, length } => match event {
            Event::Secret(password) => Step::Next {
                session: Session::HashSalt { show, length, password },
                effect: Effect::AskSecret(Prompt::Salt),
            },
            _ => Step::Failed(ErrorKind::Input),
        },
        Session::HashSalt { show, length, password } => match event {
            Event::Secret(salt) => {
                let derived = derive_password(
                    password.as_str().as_bytes(),
                    salt.as_str().as_bytes(),
                    length_or_default(length),
                );
                let ghost witness = derived;
                let step = deliver_password(show, derived);
                assert(hashes(
                    bytes_of(password@),
                    bytes_of(salt@),
                    requested_length(length),
                    witness,
                ));
                step
            },
            _ => Step::Failed(ErrorKind::Input),
        },
        Session::HashCopy => match event {
            Event::Done => Step::Finished(Report::PasswordCopied),
            _ => Step::Failed(ErrorKind::Delivery),
        },
        Session::EncryptRead { copy, input, output } => match event {
            Event::Contents(plaintext) => Step::Next {
                session: Session::EncryptPassphrase { copy, input, output, plaintext },
                effect: Effect::AskSecret(Prompt::Password),
            },
            _ => Step::Failed(ErrorKind::FileRead),
        },
        Session::EncryptPassphrase { copy, input, output, plaintext } => match event {
            Event::Secret(passphrase) => if copy {
                let text = passphrase.clone();
                Step::Next {
                    session: Session::EncryptCopy { input, output, plaintext, passphrase },
                    effect: Effect::Copy(text),
                }
            } else {
                seal_and_write(input, output, plaintext, passphrase)
            },
            _ => Step::Failed(ErrorKind::Input),
        },
        Session::EncryptCopy { input, output, plaintext, passphrase } => match event {
            Event::Done => seal_and_write(input, output, plaintext, passphrase),
            _ => Step::Failed(ErrorKind::Delivery),
        },
        Session::EncryptWrite { fresh } => after_write(Direction::Encrypt, fresh, event),
        Session::DecryptRead { input, output } => match event {
            Event::Contents(ciphertext) => Step::Next {
                session: Session::DecryptPassphrase { input, output, ciphertext },
                effect: Effect::AskSecret(Prompt::Password),
            },
            _ => Step::Failed(ErrorKind::FileRead),
        },
        Session::DecryptPassphrase { input, output, ciphertext } => match event {
            Event::Secret(passphrase) => {
                let plain = decrypt_bytes(ciphertext.as_slice(), passphrase.as_str().as_bytes());
                let ghost witness = plain;
                let step = write_transformed(Direction::Decrypt, input, output, plain);
                assert(opens(ciphertext@, bytes_of(passphrase@), witness));
                step
            },
            _ => Step::Failed(ErrorKind::Input),
        },
        Session::DecryptWrite { fresh } => after_write(Direction::Decrypt, fresh, event),
    }
}

/// A ciphertext that does not open under the passphrase ends the run with
/// `ErrorKind::Decryption`: no write is asked for.
pub proof fn lemma_failed_decryption_writes_nothing(
    input: PathBuf,
    output: Option<PathBuf>,
    ciphertext: Vec<u8>,
    passphrase: String,
    step: Step,
)
    requires
        opened(ciphertext@, bytes_of(passphrase@)) is None,
        follows(
            Session::DecryptPassphrase { input, output, ciphertext },
            Event::Secret(passphrase),
            step,
        ),
    ensures
        step == Step::Failed(ErrorKind::Decryption),
{
}

/// With an output path the result is written to a fresh file at that path,
/// and where a file stands there already the run ends with
/// `ErrorKind::OutputExists`.
pub proof fn lemma_existing_output_refused(
    direction: Direction,
    input: PathBuf,
    output: PathBuf,
    bytes: Vec<u8>,
    step: Step,
)
    requires
        follows(awaiting_write(direction, true), Event::Exists, step),
    ensures
        write_of(direction, input, Some(output), Ok(bytes)) == (Step::Next {
            session: awaiting_write(direction, true),
            effect: Effect::Write { destination: Destination::Fresh(output), bytes },
        }),
        step == Step::Failed(ErrorKind::OutputExists),
{
}

/// With no output path the result is written over the input file.
pub proof fn lemma_in_place_without_output(direction: Direction, input: PathBuf, bytes: Vec<u8>)
    ensures
        write_of(direction, input, None, Ok(bytes)) == (Step::Next {
            session: awaiting_write(direction, false),
            effect: Effect::Write { destination: Destination::InPlace(input), bytes },
        }),
{
}

} // verus!
