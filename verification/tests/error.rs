use passkit::error::ErrorKind;

#[test]
fn each_kind_has_its_message() {
    assert_eq!(ErrorKind::Input.message(), "Could not read secret input");
    assert_eq!(ErrorKind::Derivation.message(), "Hashing failed!");
    assert_eq!(ErrorKind::Delivery.message(), "Could not copy password to clipboard");
    assert_eq!(ErrorKind::FileRead.message(), "Could not read input file");
    assert_eq!(ErrorKind::FileWrite.message(), "Could not write output file");
    assert_eq!(ErrorKind::OutputExists.message(), "Output file already exists");
    assert_eq!(ErrorKind::Encryption.message(), "Encryption failed!");
    assert_eq!(ErrorKind::Decryption.message(), "Decryption failed!");
}

#[test]
fn messages_are_distinct() {
    let kinds = [
        ErrorKind::Input,
        ErrorKind::Derivation,
        ErrorKind::Delivery,
        ErrorKind::FileRead,
        ErrorKind::FileWrite,
        ErrorKind::OutputExists,
        ErrorKind::Encryption,
        ErrorKind::Decryption,
    ];
    for i in 0..kinds.len() {
        for j in (i + 1)..kinds.len() {
            assert_ne!(kinds[i].message(), kinds[j].message());
        }
    }
}
