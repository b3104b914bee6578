//! The names of what is generated.
use vstd::prelude::*;

use vstd::utf8::{encode_scalar, encode_utf8};

verus! {

/// Whether a character outside of ASCII has the property Uppercase of Unicode: the answer of
/// `char::is_uppercase`.
pub uninterp spec fn is_upper_beyond_ascii(c: char) -> bool;

/// Whether a character outside of ASCII has the property Lowercase of Unicode: the answer of
/// `char::is_lowercase`.
pub uninterp spec fn is_lower_beyond_ascii(c: char) -> bool;

/// An uppercase character: a capital letter from `A` to `Z`, or one outside of ASCII.
pub open spec fn is_upper(c: char) -> bool {
    if (c as u32) < 128 {
        'A' <= c && c <= 'Z'
    } else {
        is_upper_beyond_ascii(c)
    }
}

/// A lowercase character: a small letter from `a` to `z`, or one outside of ASCII.
pub open spec fn is_lower(c: char) -> bool {
    if (c as u32) < 128 {
        'a' <= c && c <= 'z'
    } else {
        is_lower_beyond_ascii(c)
    }
}

/// `char::is_uppercase` of the standard library: of the ASCII characters those from `A` to `Z`, of
/// the others those that Unicode calls uppercase.
pub assume_specification[ char::is_uppercase ](c: char) -> (upper: bool)
    ensures
        (c as u32) < 128 ==> upper == ('A' <= c && c <= 'Z'),
        (c as u32) >= 128 ==> upper == is_upper_beyond_ascii(c),
;

/// `char::is_lowercase` of the standard library: of the ASCII characters those from `a` to `z`, of
/// the others those that Unicode calls lowercase.
pub assume_specification[ char::is_lowercase ](c: char) -> (lower: bool)
    ensures
        (c as u32) < 128 ==> lower == ('a' <= c && c <= 'z'),
        (c as u32) >= 128 ==> lower == is_lower_beyond_ascii(c),
;

/// An ASCII digit.
pub open spec fn is_digit(c: char) -> bool {
    '0' <= c && c <= '9'
}

/// A character with an ASCII capital made small.
pub open spec fn small(c: char) -> char {
    if 'A' <= c && c <= 'Z' {
        (c as u32 + 32) as char
    } else {
        c
    }
}

/// Whether an underscore comes before the character at the given place: it is uppercase, it is not
/// the first, and the byte just before that place in the encoded name, taken as a character, is
/// lowercase or a digit.
pub open spec fn starts_word(name: Seq<char>, i: int) -> bool {
    &&& 0 < i < name.len()
    &&& is_upper(name[i])
    &&& {
        let before = encode_utf8(name)[i - 1] as char;
        is_lower(before) || is_digit(before)
    }
}

/// The first `n` characters of a name in small letters, with an underscore before each that starts
/// a word.
pub open spec fn snake_prefix(name: Seq<char>, n: nat) -> Seq<char>
    decreases n,
{
    if n == 0 {
        Seq::empty()
    } else {
        let before = snake_prefix(name, (n - 1) as nat);
        if starts_word(name, n - 1) {
            before.push('_').push(small(name[n - 1]))
        } else {
            before.push(small(name[n - 1]))
        }
    }
}

/// A name in small letters, with an underscore before each that starts a word.
pub open spec fn snake_case(name: Seq<char>) -> Seq<char> {
    snake_prefix(name, name.len())
}

/// A text takes at least one byte for each of its characters.
proof fn lemma_bytes_for_chars(chars: Seq<char>)
    ensures
        encode_utf8(chars).len() >= chars.len(),
    decreases chars.len(),
{
    if chars.len() > 0 {
        lemma_bytes_for_chars(chars.drop_first());
        assert(encode_scalar(chars[0] as u32).len() >= 1);
    }
}

/// A name in small letters, with an underscore before each that starts a word: `PumpBuy` becomes
/// `pump_buy`.
pub fn to_snake_case(name: &str) -> (snake: String)
    ensures
        snake@ == snake_case(name@),
{
    let bytes: &[u8] = name.as_bytes();
    let len: usize = name.unicode_len();
    proof {
        lemma_bytes_for_chars(name@);
    }
    let mut snake: String = String::new();
    let mut i: usize = 0;
    while i < len
        invariant
            i <= len,
            len == name@.len(),
            bytes@ == encode_utf8(name@),
            bytes@.len() >= len,
            snake@ == snake_prefix(name@, i as nat),
        decreases len - i,
    {
        let c: char = name.get_char(i);
        if c.is_uppercase() && i > 0 {
            let before: char = bytes[i - 1] as char;
            if before.is_lowercase() || ('0' <= before && before <= '9') {
                snake.push('_');
            }
        }
        if 'A' <= c && c <= 'Z' {
            snake.push((c as u8 + 32) as char);
        } else {
            snake.push(c);
        }
        i += 1;
    }
    snake
}

} // verus!
