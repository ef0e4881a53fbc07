//! Reading numbers and byte strings out of text.
//!
//! The spec functions here say what the parsers of `ruint`, `uint` and `hex`
//! accept and which value they give; the wrappers below call them. `ruint`
//! passes over underscores between digits; `parse_digits` refuses them
//! before it calls the parser, so that a number is digits and nothing else.

use vstd::prelude::*;
use crate::word::{be_nat, word_limit};

verus! {

/// The value of `c` as a digit in base `radix`: `0`-`9`, then the letters of
/// either case from ten on. `None` where `c` is no digit of that base.
pub open spec fn digit_value(c: char, radix: nat) -> Option<nat> {
    let code = c as nat;
    let value: nat = if '0' as nat <= code <= '9' as nat {
        (code - '0' as nat) as nat
    } else if 'a' as nat <= code <= 'z' as nat {
        (code - 'a' as nat + 10) as nat
    } else if 'A' as nat <= code <= 'Z' as nat {
        (code - 'A' as nat + 10) as nat
    } else {
        radix
    };
    if value < radix {
        Some(value)
    } else {
        None
    }
}

/// The number that the digits of `text` spell in base `radix`, where every
/// character is a digit of that base. With `skip_underscores`, `_` may stand
/// anywhere and counts for nothing. The empty text spells zero.
pub open spec fn digits_value(text: Seq<char>, radix: nat, skip_underscores: bool) -> Option<nat>
    decreases text.len(),
{
    if text.len() == 0 {
        Some(0)
    } else {
        match digits_value(text.drop_last(), radix, skip_underscores) {
            None => None,
            Some(high) => if skip_underscores && text.last() == '_' {
                Some(high)
            } else {
                match digit_value(text.last(), radix) {
                    Some(digit) => Some(high * radix + digit),
                    None => None,
                }
            },
        }
    }
}

/// The value of `text` as a 256-bit number in base `radix`: what
/// [`digits_value`] gives, where that is below two to the 256.
pub open spec fn parse_word(text: Seq<char>, radix: nat, skip_underscores: bool) -> Option<nat> {
    match digits_value(text, radix, skip_underscores) {
        Some(value) => if value < word_limit() {
            Some(value)
        } else {
            None
        },
        None => None,
    }
}

/// `text` without one leading `prefix`, where it starts with it.
pub open spec fn without_prefix(text: Seq<char>, prefix: Seq<char>) -> Option<Seq<char>> {
    if prefix.is_prefix_of(text) {
        Some(text.skip(prefix.len() as int))
    } else {
        None
    }
}

/// The bytes that `text` spells as pairs of hexadecimal digits of either
/// case. `None` where the length is odd or a character is no such digit.
pub open spec fn hex_bytes(text: Seq<char>) -> Option<Seq<u8>>
    decreases text.len(),
{
    if text.len() == 0 {
        Some(Seq::empty())
    } else if text.len() == 1 {
        None
    } else {
        let last = text.len() - 1;
        match (
            hex_bytes(text.subrange(0, last - 1)),
            digit_value(text[last - 1], 16),
            digit_value(text[last], 16),
        ) {
            (Some(head), Some(high), Some(low)) => Some(head.push((16 * high + low) as u8)),
            _ => None,
        }
    }
}

/// An underscore is no digit: text that holds one spells no number, and text
/// that holds none spells the same number whether or not underscores may be
/// passed over.
pub proof fn lemma_underscores(text: Seq<char>, radix: nat)
    ensures
        text.contains('_') ==> digits_value(text, radix, false) is None,
        !text.contains('_') ==> digits_value(text, radix, true) == digits_value(
            text,
            radix,
            false,
        ),
    decreases text.len(),
{
    if text.len() > 0 {
        let head = text.drop_last();
        lemma_underscores(head, radix);
        assert(digit_value('_', radix) is None);
        if text.contains('_') {
            let i = choose|i: int| 0 <= i < text.len() && text[i] == '_';
            if i < text.len() - 1 {
                assert(head[i] == '_');
            }
        } else {
            assert(text.last() != '_') by {
                if text.last() == '_' {
                    assert(text[text.len() - 1] == '_');
                }
            }
            assert(!head.contains('_')) by {
                if head.contains('_') {
                    let i = choose|i: int| 0 <= i < head.len() && head[i] == '_';
                    assert(text[i] == '_');
                }
            }
        }
    }
}

/// Whether the text holds an underscore.
pub fn has_underscore(text: &str) -> (found: bool)
    ensures
        found == text@.contains('_'),
{
    let len = text.unicode_len();
    let mut i: usize = 0;
    while i < len
        invariant
            i <= len,
            len == text@.len(),
            forall|j: int| 0 <= j < i ==> text@[j] != '_',
        decreases len - i,
    {
        if text.get_char(i) == '_' {
            return true;
        }
        i += 1;
    }
    false
}

/// Reads a number of at most 256 bits in base ten or sixteen: digits of
/// either case and nothing else. The empty text is zero.
pub(crate) fn parse_digits(text: &str, radix: u64) -> (word: Option<[u8; 32]>)
    requires
        radix == 10 || radix == 16,
    ensures
        match word {
            Some(w) => parse_word(text@, radix as nat, false) == Some(be_nat(w@)),
            None => parse_word(text@, radix as nat, false) is None,
        },
{
    proof {
        lemma_underscores(text@, radix as nat);
    }
    if has_underscore(text) {
        None
    } else {
        parse_word_radix(text, radix)
    }
}

/// Parses a number in base ten or sixteen the way `ruint` does.
///
/// Calls `Uint::<256, 4>::from_str_radix`. It reads digits of either case,
/// passes over `_`, takes the empty text for zero, and fails on any other
/// character and on a value of more than 256 bits.
#[verifier::external_body]
pub(crate) fn parse_word_radix(text: &str, radix: u64) -> (word: Option<[u8; 32]>)
    requires
        radix == 10 || radix == 16,
    ensures
        match word {
            Some(w) => parse_word(text@, radix as nat, true) == Some(be_nat(w@)),
            None => parse_word(text@, radix as nat, true) is None,
        },
{
    revm::primitives::U256::from_str_radix(text, radix).ok().map(|value| value.to_be_bytes::<32>())
}

/// Parses a decimal number the way `uint` does.
///
/// Calls `ethereum_types::U256::from_dec_str`. It reads the digits `0`-`9`
/// only, takes the empty text for zero, and fails on any other character
/// and on a value of more than 256 bits.
#[verifier::external_body]
pub(crate) fn parse_word_decimal(text: &str) -> (word: Option<[u8; 32]>)
    ensures
        match word {
            Some(w) => parse_word(text@, 10, false) == Some(be_nat(w@)),
            None => parse_word(text@, 10, false) is None,
        },
{
    let value = ethereum_types::U256::from_dec_str(text).ok()?;
    let mut word = [0u8; 32];
    value.to_big_endian(&mut word);
    Some(word)
}

/// Decodes pairs of hexadecimal digits.
///
/// Calls `hex::decode`, which fails on an odd length and on any character
/// that is not a hexadecimal digit.
#[verifier::external_body]
pub(crate) fn decode_hex(text: &str) -> (bytes: Option<Vec<u8>>)
    ensures
        match bytes {
            Some(b) => hex_bytes(text@) == Some(b@),
            None => hex_bytes(text@) is None,
        },
{
    hex::decode(text).ok()
}

/// Removes one leading `prefix`, where the text starts with it.
///
/// Calls `str::strip_prefix` with a string pattern.
#[verifier::external_body]
pub(crate) fn strip_leading<'a>(text: &'a str, prefix: &str) -> (rest: Option<&'a str>)
    ensures
        match rest {
            Some(r) => without_prefix(text@, prefix@) == Some(r@),
            None => without_prefix(text@, prefix@) is None,
        },
{
    text.strip_prefix(prefix)
}

} // verus!
