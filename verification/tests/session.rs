use passkit::cipher::{decrypt_bytes, encrypt_bytes};
use passkit::cli::{destination, Cli, Destination};
use passkit::error::ErrorKind;
use passkit::password::derive_password;
use passkit::session::{
    advance, after_write, deliver_password, length_or_default, start, write_transformed,
    Direction, Effect, Event, Prompt, Report, Session, Step,
};
use std::path::PathBuf;

fn path(s: &str) -> PathBuf {
    PathBuf::from(s)
}

fn secret(s: &str) -> Event {
    Event::Secret(String::from(s))
}

fn next(step: Step) -> (Session, Effect) {
    match step {
        Step::Next { session, effect } => (session, effect),
        other => panic!("the run ended: {:?}", other),
    }
}

#[test]
fn destination_without_output_is_the_input_in_place() {
    assert_eq!(destination(path("a.txt"), None), Destination::InPlace(path("a.txt")));
    assert!(!destination(path("a.txt"), None).is_fresh());
}

#[test]
fn destination_with_output_is_a_fresh_file() {
    assert_eq!(
        destination(path("a.txt"), Some(path("b.txt"))),
        Destination::Fresh(path("b.txt"))
    );
    assert!(destination(path("a.txt"), Some(path("b.txt"))).is_fresh());
}

#[test]
fn length_defaults_to_sixteen() {
    assert_eq!(length_or_default(None), 16);
    assert_eq!(length_or_default(Some(7)), 7);
    assert_eq!(length_or_default(Some(0)), 0);
    assert_eq!(length_or_default(Some(500)), 500);
}

#[test]
fn hash_asks_for_the_password_first() {
    let (session, effect) = start(Cli::Hash { show: true, length: Some(20) });
    assert_eq!(session, Session::HashPassword { show: true, length: Some(20) });
    assert_eq!(effect, Effect::AskSecret(Prompt::Password));
}

#[test]
fn hash_asks_for_the_salt_second() {
    let (session, _) = start(Cli::Hash { show: false, length: None });
    let (session, effect) = next(advance(session, secret("correct horse")));
    assert_eq!(
        session,
        Session::HashSalt { show: false, length: None, password: String::from("correct horse") }
    );
    assert_eq!(effect, Effect::AskSecret(Prompt::Salt));
}

#[test]
fn hash_shows_the_password_when_asked() {
    let (session, _) = start(Cli::Hash { show: true, length: None });
    let (session, _) = next(advance(session, secret("correct horse")));
    let step = advance(session, secret("battery staple"));
    assert_eq!(step, Step::Finished(Report::Password(String::from("qds3t3m9gNz)dCva"))));
}

#[test]
fn hash_copies_the_password_by_default() {
    let (session, _) = start(Cli::Hash { show: false, length: Some(8) });
    let (session, _) = next(advance(session, secret("correct horse")));
    let (session, effect) = next(advance(session, secret("battery staple")));
    assert_eq!(session, Session::HashCopy);
    assert_eq!(effect, Effect::Copy(String::from("qds3t3m9")));
    assert_eq!(advance(session, Event::Done), Step::Finished(Report::PasswordCopied));
}

#[test]
fn hash_caps_a_long_request() {
    let (session, _) = start(Cli::Hash { show: true, length: Some(100) });
    let (session, _) = next(advance(session, secret("correct horse")));
    let expected = derive_password(b"correct horse", b"battery staple", 64).unwrap();
    assert_eq!(expected.chars().count(), 64);
    assert_eq!(
        advance(session, secret("battery staple")),
        Step::Finished(Report::Password(expected))
    );
}

#[test]
fn hash_fails_when_the_password_cannot_be_read() {
    let (session, _) = start(Cli::Hash { show: false, length: None });
    assert_eq!(advance(session, Event::Failed), Step::Failed(ErrorKind::Input));
}

#[test]
fn hash_fails_when_the_salt_cannot_be_read() {
    let (session, _) = start(Cli::Hash { show: false, length: None });
    let (session, _) = next(advance(session, secret("correct horse")));
    assert_eq!(advance(session, Event::Failed), Step::Failed(ErrorKind::Input));
}

#[test]
fn hash_fails_on_a_short_salt() {
    let (session, _) = start(Cli::Hash { show: true, length: None });
    let (session, _) = next(advance(session, secret("correct horse")));
    assert_eq!(advance(session, secret("salt")), Step::Failed(ErrorKind::Derivation));
}

#[test]
fn hash_fails_when_the_clipboard_is_unavailable() {
    assert_eq!(advance(Session::HashCopy, Event::Failed), Step::Failed(ErrorKind::Delivery));
}

#[test]
fn deliver_password_hands_a_failure_on() {
    assert_eq!(
        deliver_password(true, Err(ErrorKind::Derivation)),
        Step::Failed(ErrorKind::Derivation)
    );
    assert_eq!(
        deliver_password(false, Err(ErrorKind::Derivation)),
        Step::Failed(ErrorKind::Derivation)
    );
}

#[test]
fn deliver_password_shows_or_copies() {
    assert_eq!(
        deliver_password(true, Ok(String::from("abc"))),
        Step::Finished(Report::Password(String::from("abc")))
    );
    assert_eq!(
        deliver_password(false, Ok(String::from("abc"))),
        Step::Next { session: Session::HashCopy, effect: Effect::Copy(String::from("abc")) }
    );
}

#[test]
fn encrypt_reads_the_input_first() {
    let (session, effect) =
        start(Cli::Encrypt { copy: false, input: path("in.txt"), output: None });
    assert_eq!(
        session,
        Session::EncryptRead { copy: false, input: path("in.txt"), output: None }
    );
    assert_eq!(effect, Effect::ReadFile(path("in.txt")));
}

#[test]
fn encrypt_fails_when_the_input_cannot_be_read() {
    let (session, _) = start(Cli::Encrypt { copy: true, input: path("in.txt"), output: None });
    assert_eq!(advance(session, Event::Failed), Step::Failed(ErrorKind::FileRead));
}

#[test]
fn encrypt_in_place_round_trips_through_decrypt() {
    let plain = b"some file contents".to_vec();
    let (session, _) = start(Cli::Encrypt { copy: false, input: path("in.txt"), output: None });
    let (session, effect) = next(advance(session, Event::Contents(plain.clone())));
    assert_eq!(effect, Effect::AskSecret(Prompt::Password));
    let (session, effect) = next(advance(session, secret("passphrase")));
    assert_eq!(session, Session::EncryptWrite { fresh: false });
    let sealed = match effect {
        Effect::Write { destination, bytes } => {
            assert_eq!(destination, Destination::InPlace(path("in.txt")));
            bytes
        }
        other => panic!("no write: {:?}", other),
    };
    assert_ne!(sealed, plain);
    assert_eq!(advance(session, Event::Done), Step::Finished(Report::FileEncrypted));

    let (session, effect) = start(Cli::Decrypt { input: path("in.txt"), output: None });
    assert_eq!(effect, Effect::ReadFile(path("in.txt")));
    let (session, effect) = next(advance(session, Event::Contents(sealed)));
    assert_eq!(effect, Effect::AskSecret(Prompt::Password));
    let (session, effect) = next(advance(session, secret("passphrase")));
    assert_eq!(session, Session::DecryptWrite { fresh: false });
    assert_eq!(
        effect,
        Effect::Write { destination: Destination::InPlace(path("in.txt")), bytes: plain }
    );
    assert_eq!(advance(session, Event::Done), Step::Finished(Report::FileDecrypted));
}

#[test]
fn encrypt_copies_the_passphrase_before_sealing() {
    let (session, _) = start(Cli::Encrypt {
        copy: true,
        input: path("in.txt"),
        output: Some(path("out.bin")),
    });
    let (session, _) = next(advance(session, Event::Contents(vec![1, 2, 3])));
    let (session, effect) = next(advance(session, secret("passphrase")));
    assert_eq!(effect, Effect::Copy(String::from("passphrase")));
    assert_eq!(
        session,
        Session::EncryptCopy {
            input: path("in.txt"),
            output: Some(path("out.bin")),
            plaintext: vec![1, 2, 3],
            passphrase: String::from("passphrase"),
        }
    );
    let (session, effect) = next(advance(session, Event::Done));
    assert_eq!(session, Session::EncryptWrite { fresh: true });
    match effect {
        Effect::Write { destination, bytes } => {
            assert_eq!(destination, Destination::Fresh(path("out.bin")));
            assert_eq!(decrypt_bytes(&bytes, b"passphrase"), Ok(vec![1, 2, 3]));
        }
        other => panic!("no write: {:?}", other),
    }
}

#[test]
fn encrypt_fails_when_the_clipboard_is_unavailable() {
    let session = Session::EncryptCopy {
        input: path("in.txt"),
        output: None,
        plaintext: vec![1, 2, 3],
        passphrase: String::from("passphrase"),
    };
    assert_eq!(advance(session, Event::Failed), Step::Failed(ErrorKind::Delivery));
}

#[test]
fn encrypt_fails_when_the_passphrase_cannot_be_read() {
    let session = Session::EncryptPassphrase {
        copy: false,
        input: path("in.txt"),
        output: None,
        plaintext: vec![1, 2, 3],
    };
    assert_eq!(advance(session, Event::Failed), Step::Failed(ErrorKind::Input));
}

#[test]
fn encrypt_to_an_existing_output_is_refused() {
    assert_eq!(
        advance(Session::EncryptWrite { fresh: true }, Event::Exists),
        Step::Failed(ErrorKind::OutputExists)
    );
}

#[test]
fn decrypt_to_an_existing_output_is_refused() {
    assert_eq!(
        advance(Session::DecryptWrite { fresh: true }, Event::Exists),
        Step::Failed(ErrorKind::OutputExists)
    );
}

#[test]
fn a_failed_write_is_a_file_write_error() {
    assert_eq!(
        advance(Session::EncryptWrite { fresh: true }, Event::Failed),
        Step::Failed(ErrorKind::FileWrite)
    );
    assert_eq!(
        advance(Session::EncryptWrite { fresh: false }, Event::Failed),
        Step::Failed(ErrorKind::FileWrite)
    );
    assert_eq!(
        advance(Session::DecryptWrite { fresh: false }, Event::Exists),
        Step::Failed(ErrorKind::FileWrite)
    );
}

#[test]
fn after_write_reports_what_was_written() {
    assert_eq!(
        after_write(Direction::Encrypt, true, Event::Done),
        Step::Finished(Report::FileEncrypted)
    );
    assert_eq!(
        after_write(Direction::Decrypt, false, Event::Done),
        Step::Finished(Report::FileDecrypted)
    );
    assert_eq!(
        after_write(Direction::Decrypt, false, Event::Contents(vec![])),
        Step::Failed(ErrorKind::FileWrite)
    );
}

#[test]
fn write_transformed_hands_a_failure_on_and_writes_nothing() {
    assert_eq!(
        write_transformed(Direction::Decrypt, path("a"), None, Err(ErrorKind::Decryption)),
        Step::Failed(ErrorKind::Decryption)
    );
    assert_eq!(
        write_transformed(Direction::Encrypt, path("a"), Some(path("b")), Err(ErrorKind::Encryption)),
        Step::Failed(ErrorKind::Encryption)
    );
}

#[test]
fn write_transformed_picks_the_destination() {
    assert_eq!(
        write_transformed(Direction::Encrypt, path("a"), None, Ok(vec![9])),
        Step::Next {
            session: Session::EncryptWrite { fresh: false },
            effect: Effect::Write { destination: Destination::InPlace(path("a")), bytes: vec![9] },
        }
    );
    assert_eq!(
        write_transformed(Direction::Decrypt, path("a"), Some(path("b")), Ok(vec![9])),
        Step::Next {
            session: Session::DecryptWrite { fresh: true },
            effect: Effect::Write { destination: Destination::Fresh(path("b")), bytes: vec![9] },
        }
    );
}

#[test]
fn decrypt_with_a_wrong_passphrase_writes_nothing() {
    let sealed = encrypt_bytes(b"some file contents", b"passphrase").unwrap();
    let (session, _) = start(Cli::Decrypt { input: path("in.bin"), output: Some(path("out")) });
    let (session, _) = next(advance(session, Event::Contents(sealed)));
    assert_eq!(
        advance(session, secret("another passphrase")),
        Step::Failed(ErrorKind::Decryption)
    );
}

#[test]
fn decrypt_of_a_file_that_is_no_ciphertext_fails() {
    let (session, _) = start(Cli::Decrypt { input: path("in.bin"), output: None });
    let (session, _) = next(advance(session, Event::Contents(b"plain text".to_vec())));
    assert_eq!(advance(session, secret("passphrase")), Step::Failed(ErrorKind::Decryption));
}

#[test]
fn decrypt_fails_when_the_input_cannot_be_read() {
    let (session, _) = start(Cli::Decrypt { input: path("in.bin"), output: None });
    assert_eq!(advance(session, Event::Failed), Step::Failed(ErrorKind::FileRead));
}

#[test]
fn an_unexpected_report_is_the_failure_of_what_was_asked() {
    let (session, _) = start(Cli::Hash { show: false, length: None });
    assert_eq!(advance(session, Event::Contents(vec![1])), Step::Failed(ErrorKind::Input));
    let (session, _) = start(Cli::Decrypt { input: path("in.bin"), output: None });
    assert_eq!(advance(session, secret("early")), Step::Failed(ErrorKind::FileRead));
    assert_eq!(advance(Session::HashCopy, secret("late")), Step::Failed(ErrorKind::Delivery));
}

#[test]
fn exit_status_is_zero_on_success_and_one_on_any_failure() {
    assert_eq!(Step::Finished(Report::FileEncrypted).exit_status(), Some(0));
    assert_eq!(Step::Finished(Report::Password(String::from("x"))).exit_status(), Some(0));
    assert_eq!(Step::Failed(ErrorKind::Input).exit_status(), Some(1));
    assert_eq!(Step::Failed(ErrorKind::OutputExists).exit_status(), Some(1));
    assert_eq!(Step::Failed(ErrorKind::Decryption).exit_status(), Some(1));
    let going = Step::Next { session: Session::HashCopy, effect: Effect::Copy(String::from("x")) };
    assert_eq!(going.exit_status(), None);
}
