//! The sanitization pipeline.
//!
//! One pass per stage, in a fixed order: the glyph normalizer rewrites
//! problematic glyphs to safe equivalents, the quote stripper drops the
//! first and last character (under an explicit [`BoundaryPolicy`]) and every
//! interior apostrophe that is not part of a contraction, the alphanumeric
//! gate rejects strings with no ASCII letter or digit, and the whitelist
//! filter removes every character outside the fixed whitelist. Every stage
//! is total: the only rejection signal is an empty result, which the caller
//! must not forward to the synthesizer.

use vstd::prelude::*;
use vstd::string::StrSliceExecFns;
use crate::chars::{
    is_alpha, is_alphanumeric, is_ascii_alpha_char, is_ascii_alphanumeric_char, is_quote_like,
    is_quote_like_char, is_whitelisted, is_whitelisted_char, normalize_char, replacement_of,
};

verus! {

/// The glyph normalizer's result: each character replaced according to the
/// replacement table.
pub open spec fn normalized(s: Seq<char>) -> Seq<char> {
    s.map_values(|c: char| replacement_of(c))
}

/// What the quote stripper does at the string's boundary, that is at the
/// first and the last character.
#[derive(Clone, Copy)]
pub enum BoundaryPolicy {
    /// Drop the boundary character unconditionally, whatever it is. This is
    /// the blunt policy the pipeline uses: a string with no enclosing
    /// quotes loses its real first and last character.
    Always,
    /// Drop the boundary character only when it is itself quote-like.
    QuoteOnly,
}

/// The quote stripper keeps the character at index `i` exactly when:
/// at the boundary (first or last index), the policy does not drop it;
/// in the interior, it is not an apostrophe, or it is an apostrophe whose
/// both neighbors are ASCII letters (a contraction such as "don't").
pub open spec fn kept_by_stripper(s: Seq<char>, policy: BoundaryPolicy, i: int) -> bool {
    if i == 0 || i == s.len() - 1 {
        match policy {
            BoundaryPolicy::Always => false,
            BoundaryPolicy::QuoteOnly => !is_quote_like_char(s[i]),
        }
    } else {
        s[i] == '\'' ==> is_ascii_alpha_char(s[i - 1]) && is_ascii_alpha_char(s[i + 1])
    }
}

/// The characters among the first `n` of `s` that the quote stripper keeps,
/// in order.
pub open spec fn quote_stripped_prefix(s: Seq<char>, policy: BoundaryPolicy, n: int) -> Seq<char>
    decreases n,
{
    if n <= 0 {
        Seq::empty()
    } else if kept_by_stripper(s, policy, n - 1) {
        quote_stripped_prefix(s, policy, n - 1).push(s[n - 1])
    } else {
        quote_stripped_prefix(s, policy, n - 1)
    }
}

/// The quote stripper's result under a given boundary policy.
pub open spec fn quote_stripped_with(s: Seq<char>, policy: BoundaryPolicy) -> Seq<char> {
    quote_stripped_prefix(s, policy, s.len() as int)
}

/// The quote stripper's result under the blunt policy. A string of length
/// at most one loses its only character, since the first index is never
/// kept.
pub open spec fn quote_stripped(s: Seq<char>) -> Seq<char> {
    quote_stripped_with(s, BoundaryPolicy::Always)
}

/// The whitelisted characters among the first `n` of `s`, in order.
pub open spec fn whitelist_filtered_prefix(s: Seq<char>, n: int) -> Seq<char>
    decreases n,
{
    if n <= 0 {
        Seq::empty()
    } else if is_whitelisted_char(s[n - 1]) {
        whitelist_filtered_prefix(s, n - 1).push(s[n - 1])
    } else {
        whitelist_filtered_prefix(s, n - 1)
    }
}

/// The whitelist filter's result: the characters of `s` that are in the
/// whitelist, in order, original case preserved.
pub open spec fn whitelist_filtered(s: Seq<char>) -> Seq<char> {
    whitelist_filtered_prefix(s, s.len() as int)
}

/// `s` contains at least one ASCII letter or digit.
pub open spec fn contains_alphanumeric(s: Seq<char>) -> bool {
    exists|i: int| 0 <= i < s.len() && #[trigger] is_ascii_alphanumeric_char(s[i])
}

/// The whole pipeline: normalize, strip quotes, then either reject (empty
/// result) when no ASCII alphanumeric character is left, or apply the
/// whitelist filter.
pub open spec fn filtered(s: Seq<char>) -> Seq<char> {
    let stripped = quote_stripped(normalized(s));
    if contains_alphanumeric(stripped) {
        whitelist_filtered(stripped)
    } else {
        Seq::empty()
    }
}

/// Relies on `String`'s `FromIterator<char>` impl: collecting characters
/// yields the string of exactly those characters, in order.
#[verifier::external_body]
fn chars_to_string(v: &Vec<char>) -> (s: String)
    ensures
        s@ == v@,
{
    v.iter().collect()
}

/// Glyph normalizer: rewrites each problematic glyph to its ASCII-safe
/// equivalent, currently the right single quotation mark U+2019 to an
/// apostrophe. Total; every other character is kept unchanged.
pub fn normalize(s: &str) -> (r: String)
    ensures
        r@ == normalized(s@),
{
    let n = s.unicode_len();
    let mut out: Vec<char> = Vec::new();
    let mut i: usize = 0;
    while i < n
        invariant
            i <= n,
            n == s@.len(),
            out@.len() == i,
            forall|j: int| 0 <= j < i ==> out@[j] == replacement_of(s@[j]),
        decreases n - i,
    {
        out.push(normalize_char(s.get_char(i)));
        i += 1;
    }
    proof {
        assert(out@ =~= normalized(s@));
    }
    chars_to_string(&out)
}

/// Alphanumeric gate: true exactly when `s` holds at least one ASCII letter
/// or digit. The check is ASCII-scoped even though the whitelist itself
/// holds the non-ASCII `£`.
pub fn has_alphanumeric(s: &str) -> (r: bool)
    ensures
        r == contains_alphanumeric(s@),
{
    let n = s.unicode_len();
    let mut i: usize = 0;
    while i < n
        invariant
            i <= n,
            n == s@.len(),
            forall|j: int| 0 <= j < i ==> !(#[trigger] is_ascii_alphanumeric_char(s@[j])),
        decreases n - i,
    {
        if is_alphanumeric(s.get_char(i)) {
            return true;
        }
        i += 1;
    }
    false
}

/// Quote stripper under an explicit boundary policy: drops the first and
/// the last character as the policy says, and every interior apostrophe
/// that is not flanked by ASCII letters on both sides.
pub fn strip_quotes_with(s: &str, policy: BoundaryPolicy) -> (r: String)
    ensures
        r@ == quote_stripped_with(s@, policy),
{
    let n = s.unicode_len();
    let mut out: Vec<char> = Vec::new();
    let mut i: usize = 0;
    while i < n
        invariant
            i <= n,
            n == s@.len(),
            out@ == quote_stripped_prefix(s@, policy, i as int),
        decreases n - i,
    {
        let c = s.get_char(i);
        let keep: bool = if i == 0 || i == n - 1 {
            match policy {
                BoundaryPolicy::Always => false,
                BoundaryPolicy::QuoteOnly => !is_quote_like(c),
            }
        } else if c == '\'' {
            is_alpha(s.get_char(i - 1)) && is_alpha(s.get_char(i + 1))
        } else {
            true
        };
        proof {
            assert(keep == kept_by_stripper(s@, policy, i as int));
        }
        if keep {
            out.push(c);
        }
        i += 1;
    }
    chars_to_string(&out)
}

/// Quote stripper under the blunt policy: drops the first and the last
/// character unconditionally, and every interior apostrophe that is not
/// part of a contraction. A string of length at most one becomes empty.
pub fn strip_quotes(s: &str) -> (r: String)
    ensures
        r@ == quote_stripped(s@),
{
    strip_quotes_with(s, BoundaryPolicy::Always)
}

/// Whitelist filter: keeps exactly the characters in the 48-character
/// whitelist, tested case-insensitively, with the original case preserved
/// in the output.
pub fn whitelist_filter(s: &str) -> (r: String)
    ensures
        r@ == whitelist_filtered(s@),
{
    let n = s.unicode_len();
    let mut out: Vec<char> = Vec::new();
    let mut i: usize = 0;
    while i < n
        invariant
            i <= n,
            n == s@.len(),
            out@ == whitelist_filtered_prefix(s@, i as int),
        decreases n - i,
    {
        let c = s.get_char(i);
        if is_whitelisted(c) {
            out.push(c);
        }
        i += 1;
    }
    chars_to_string(&out)
}

/// The whole pipeline: glyph normalizer, quote stripper, alphanumeric gate,
/// whitelist filter. Total and deterministic; an empty result signals that
/// the input is not worth synthesizing, and the caller must not forward an
/// empty string to the synthesizer.
pub fn filter_string_input(s: &str) -> (r: String)
    ensures
        r@ == filtered(s@),
{
    let normalized_input = normalize(s);
    let stripped = strip_quotes(normalized_input.as_str());
    if !has_alphanumeric(stripped.as_str()) {
        return String::new();
    }
    whitelist_filter(stripped.as_str())
}

} // verus!
