//! The output alphabet: the ordered set of printable characters in which a
//! digest is rendered as a password.

use vstd::prelude::*;
use vstd::string::StrSliceExecFns;

verus! {

/// The characters of the alphabet, in mapping order.
pub const SYMBOLS: &'static str =
    "abcdefghijklmnopqrstuvwxyzABCDEFGHIJKLMNOPQRSTUVWXYZ0123456789\u{252c}\u{17b}$()*[]@^-_!?";

/// Number of characters in the alphabet.
pub const SYMBOL_COUNT: usize = 76;

/// The alphabet as a sequence of characters.
pub open spec fn alphabet() -> Seq<char> {
    SYMBOLS@
}

/// The character that stands for byte `b`: the one at index `b mod N`.
pub open spec fn symbol_of(b: u8) -> char {
    alphabet()[b as int % 76]
}

/// The alphabet has exactly `SYMBOL_COUNT` characters.
pub proof fn lemma_alphabet_len()
    ensures
        alphabet().len() == SYMBOL_COUNT,
{
    reveal_strlit("abcdefghijklmnopqrstuvwxyzABCDEFGHIJKLMNOPQRSTUVWXYZ0123456789\u{252c}\u{17b}$()*[]@^-_!?");
}

/// Position of a character in the alphabet, or `SYMBOL_COUNT` for a character
/// that is not in it.
pub open spec fn rank(c: char) -> int {
    if 'a' <= c <= 'z' {
        c as int - 'a' as int
    } else if 'A' <= c <= 'Z' {
        26 + (c as int - 'A' as int)
    } else if '0' <= c <= '9' {
        52 + (c as int - '0' as int)
    } else if c == '\u{252c}' {
        62
    } else if c == '\u{17b}' {
        63
    } else if c == '$' {
        64
    } else if c == '(' {
        65
    } else if c == ')' {
        66
    } else if c == '*' {
        67
    } else if c == '[' {
        68
    } else if c == ']' {
        69
    } else if c == '@' {
        70
    } else if c == '^' {
        71
    } else if c == '-' {
        72
    } else if c == '_' {
        73
    } else if c == '!' {
        74
    } else if c == '?' {
        75
    } else {
        76
    }
}

/// `rank` inverts the alphabet: the character at index `i` has rank `i`.
pub proof fn lemma_rank_of_symbol(i: int)
    requires
        0 <= i < SYMBOL_COUNT,
    ensures
        rank(alphabet()[i]) == i,
{
    reveal_strlit("abcdefghijklmnopqrstuvwxyzABCDEFGHIJKLMNOPQRSTUVWXYZ0123456789\u{252c}\u{17b}$()*[]@^-_!?");
}

/// The alphabet has `SYMBOL_COUNT` characters, none of them twice, and holds
/// none of `#`, `&` and `+`, which a shell or a clipboard may take amiss.
pub proof fn lemma_alphabet_well_formed()
    ensures
        alphabet().len() == SYMBOL_COUNT,
        alphabet().no_duplicates(),
        !alphabet().contains('#'),
        !alphabet().contains('&'),
        !alphabet().contains('+'),
{
    lemma_alphabet_len();
    assert forall|i: int, j: int|
        0 <= i < alphabet().len() && 0 <= j < alphabet().len() && i != j implies alphabet()[i]
        != alphabet()[j] by {
        lemma_rank_of_symbol(i);
        lemma_rank_of_symbol(j);
    }
    assert forall|i: int| 0 <= i < alphabet().len() implies alphabet()[i] != '#' && alphabet()[i]
        != '&' && alphabet()[i] != '+' by {
        lemma_rank_of_symbol(i);
    }
}

/// Every byte is rendered as a character of the alphabet.
pub proof fn lemma_symbol_in_alphabet(b: u8)
    ensures
        alphabet().contains(symbol_of(b)),
{
    lemma_alphabet_len();
    assert(alphabet()[b as int % 76] == symbol_of(b));
}

/// Maps one digest byte to its character of the alphabet.
pub fn symbol(b: u8) -> (c: char)
    ensures
        c == symbol_of(b),
{
    proof {
        lemma_alphabet_len();
    }
    let i: usize = (b as usize) % SYMBOL_COUNT;
    SYMBOLS.get_char(i)
}

} // verus!
