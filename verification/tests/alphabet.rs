use passkit::alphabet::{symbol, SYMBOLS, SYMBOL_COUNT};

#[test]
fn alphabet_has_the_stated_size() {
    assert_eq!(SYMBOLS.chars().count(), SYMBOL_COUNT);
    assert_eq!(SYMBOL_COUNT, 76);
}

#[test]
fn alphabet_is_counted_in_characters_not_bytes() {
    assert!(SYMBOLS.len() > SYMBOLS.chars().count());
}

#[test]
fn alphabet_has_no_duplicates() {
    let symbols: Vec<char> = SYMBOLS.chars().collect();
    for i in 0..symbols.len() {
        for j in (i + 1)..symbols.len() {
            assert_ne!(symbols[i], symbols[j]);
        }
    }
}

#[test]
fn alphabet_excludes_unsafe_characters() {
    assert!(!SYMBOLS.contains('#'));
    assert!(!SYMBOLS.contains('&'));
    assert!(!SYMBOLS.contains('+'));
}

#[test]
fn alphabet_keeps_its_order() {
    assert_eq!(
        SYMBOLS,
        "abcdefghijklmnopqrstuvwxyzABCDEFGHIJKLMNOPQRSTUVWXYZ0123456789\u{252c}\u{17b}$()*[]@^-_!?"
    );
}

#[test]
fn symbol_maps_low_bytes_by_index() {
    assert_eq!(symbol(0), 'a');
    assert_eq!(symbol(25), 'z');
    assert_eq!(symbol(26), 'A');
    assert_eq!(symbol(52), '0');
    assert_eq!(symbol(61), '9');
    assert_eq!(symbol(62), '\u{252c}');
    assert_eq!(symbol(63), '\u{17b}');
    assert_eq!(symbol(64), '$');
    assert_eq!(symbol(75), '?');
}

#[test]
fn symbol_wraps_around_the_alphabet() {
    assert_eq!(symbol(76), 'a');
    assert_eq!(symbol(77), 'b');
    assert_eq!(symbol(152), 'a');
    assert_eq!(symbol(228), 'a');
    assert_eq!(symbol(255), 'B');
}

#[test]
fn symbol_agrees_with_the_string_for_every_byte() {
    let symbols: Vec<char> = SYMBOLS.chars().collect();
    for b in 0..=255u8 {
        assert_eq!(symbol(b), symbols[b as usize % symbols.len()]);
    }
}
