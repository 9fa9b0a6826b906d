//! Character classes used by the sanitization pipeline.
//!
//! The whitelist is a fixed set of 48 characters: the 26 lowercase Latin
//! letters, the 10 decimal digits, and twelve symbols. Membership is tested
//! case-insensitively: an uppercase letter counts as its lowercase folding,
//! but the character kept in the output is always the original one.

use vstd::prelude::*;

verus! {

/// `c` is an ASCII letter.
pub open spec fn is_ascii_alpha_char(c: char) -> bool {
    ('a' <= c && c <= 'z') || ('A' <= c && c <= 'Z')
}

/// `c` is an ASCII decimal digit.
pub open spec fn is_ascii_digit_char(c: char) -> bool {
    '0' <= c && c <= '9'
}

/// `c` is an ASCII letter or digit.
pub open spec fn is_ascii_alphanumeric_char(c: char) -> bool {
    is_ascii_alpha_char(c) || is_ascii_digit_char(c)
}

/// `c` is one of the twelve whitelisted symbols: `$ £ ! . ? , ' & ; : <space> -`.
pub open spec fn is_whitelisted_symbol(c: char) -> bool {
    ||| c == '$'
    ||| c == '\u{a3}'
    ||| c == '!'
    ||| c == '.'
    ||| c == '?'
    ||| c == ','
    ||| c == '\''
    ||| c == '&'
    ||| c == ';'
    ||| c == ':'
    ||| c == ' '
    ||| c == '-'
}

/// `c` is in the 48-character whitelist, tested case-insensitively: letters
/// of either case, digits, and the whitelisted symbols are speakable.
pub open spec fn is_whitelisted_char(c: char) -> bool {
    is_ascii_alphanumeric_char(c) || is_whitelisted_symbol(c)
}

/// `c` is a quote-like symbol: an ASCII apostrophe or double quote, or one
/// of the curly single or double quotation marks.
pub open spec fn is_quote_like_char(c: char) -> bool {
    ||| c == '\''
    ||| c == '"'
    ||| c == '\u{2018}'
    ||| c == '\u{2019}'
    ||| c == '\u{201c}'
    ||| c == '\u{201d}'
}

/// The glyph replacement table, applied pointwise: the right single
/// quotation mark U+2019 becomes an ASCII apostrophe; every other character
/// is left unchanged.
pub open spec fn replacement_of(c: char) -> char {
    if c == '\u{2019}' {
        '\''
    } else {
        c
    }
}

/// Decides `is_ascii_alpha_char`.
pub fn is_alpha(c: char) -> (r: bool)
    ensures
        r == is_ascii_alpha_char(c),
{
    ('a' <= c && c <= 'z') || ('A' <= c && c <= 'Z')
}

/// Decides `is_ascii_alphanumeric_char`.
pub fn is_alphanumeric(c: char) -> (r: bool)
    ensures
        r == is_ascii_alphanumeric_char(c),
{
    ('a' <= c && c <= 'z') || ('A' <= c && c <= 'Z') || ('0' <= c && c <= '9')
}

/// Decides `is_whitelisted_char`.
pub fn is_whitelisted(c: char) -> (r: bool)
    ensures
        r == is_whitelisted_char(c),
{
    if is_alphanumeric(c) {
        true
    } else {
        c == '$' || c == '\u{a3}' || c == '!' || c == '.' || c == '?' || c == ',' || c == '\''
            || c == '&' || c == ';' || c == ':' || c == ' ' || c == '-'
    }
}

/// Decides `is_quote_like_char`.
pub fn is_quote_like(c: char) -> (r: bool)
    ensures
        r == is_quote_like_char(c),
{
    c == '\'' || c == '"' || c == '\u{2018}' || c == '\u{2019}' || c == '\u{201c}'
        || c == '\u{201d}'
}

/// Applies the glyph replacement table to one character.
pub fn normalize_char(c: char) -> (r: char)
    ensures
        r == replacement_of(c),
{
    if c == '\u{2019}' {
        '\''
    } else {
        c
    }
}

} // verus!
