//! Proved properties of the pipeline.
//!
//! The per-stage idempotence of the glyph normalizer and of the whitelist
//! filter, the rejection guarantee of the alphanumeric gate, and the output
//! invariant that every surviving character is whitelisted. The pipeline as
//! a whole is not idempotent: the quote stripper drops the first and last
//! character of whatever it is given, so a second application can shrink a
//! nonempty result further.

use vstd::prelude::*;
use crate::chars::{is_ascii_alphanumeric_char, is_whitelisted_char, replacement_of};
use crate::pipeline::{
    contains_alphanumeric, filtered, normalized, quote_stripped, quote_stripped_prefix,
    whitelist_filtered, whitelist_filtered_prefix, BoundaryPolicy,
};

verus! {

/// Every character of a whitelist-filtered prefix is whitelisted.
proof fn lemma_whitelist_prefix_chars(s: Seq<char>, n: int)
    ensures
        forall|i: int|
            0 <= i < whitelist_filtered_prefix(s, n).len()
                ==> is_whitelisted_char(#[trigger] whitelist_filtered_prefix(s, n)[i]),
    decreases n,
{
    if n > 0 {
        lemma_whitelist_prefix_chars(s, n - 1);
        let pre = whitelist_filtered_prefix(s, n - 1);
        let cur = whitelist_filtered_prefix(s, n);
        assert forall|i: int| 0 <= i < cur.len() implies is_whitelisted_char(
            #[trigger] cur[i],
        ) by {
            if i < pre.len() {
                assert(is_whitelisted_char(pre[i]));
            }
        }
    }
}

/// On a string whose first `n` characters are all whitelisted, the filter
/// keeps that prefix unchanged.
proof fn lemma_whitelist_prefix_fixed(s: Seq<char>, n: int)
    requires
        0 <= n <= s.len(),
        forall|i: int| 0 <= i < n ==> is_whitelisted_char(#[trigger] s[i]),
    ensures
        whitelist_filtered_prefix(s, n) == s.subrange(0, n),
    decreases n,
{
    if n > 0 {
        lemma_whitelist_prefix_fixed(s, n - 1);
        assert(whitelist_filtered_prefix(s, n) =~= s.subrange(0, n));
    } else {
        assert(whitelist_filtered_prefix(s, n) =~= s.subrange(0, n));
    }
}

/// Every character of the whitelist filter's output is whitelisted.
pub proof fn lemma_whitelist_filter_chars(s: Seq<char>)
    ensures
        forall|i: int|
            0 <= i < whitelist_filtered(s).len()
                ==> is_whitelisted_char(#[trigger] whitelist_filtered(s)[i]),
{
    lemma_whitelist_prefix_chars(s, s.len() as int);
}

/// A string made only of whitelisted characters passes the whitelist filter
/// unchanged.
pub proof fn lemma_whitelist_filter_fixed(s: Seq<char>)
    requires
        forall|i: int| 0 <= i < s.len() ==> is_whitelisted_char(#[trigger] s[i]),
    ensures
        whitelist_filtered(s) == s,
{
    lemma_whitelist_prefix_fixed(s, s.len() as int);
    assert(s.subrange(0, s.len() as int) =~= s);
}

/// The whitelist filter is idempotent: applying it twice yields the same
/// result as applying it once.
pub proof fn lemma_whitelist_filter_idempotent(s: Seq<char>)
    ensures
        whitelist_filtered(whitelist_filtered(s)) == whitelist_filtered(s),
{
    lemma_whitelist_filter_chars(s);
    lemma_whitelist_filter_fixed(whitelist_filtered(s));
}

/// The glyph normalizer is idempotent: no replacement's output is itself a
/// problematic glyph.
pub proof fn lemma_normalize_idempotent(s: Seq<char>)
    ensures
        normalized(normalized(s)) == normalized(s),
{
    assert(normalized(normalized(s)) =~= normalized(s));
}

/// The quote stripper never invents characters: if no character of `s` is
/// an ASCII alphanumeric, none of a stripped prefix of `s` is either.
proof fn lemma_stripped_prefix_no_alphanumeric(s: Seq<char>, policy: BoundaryPolicy, n: int)
    requires
        n <= s.len(),
        !contains_alphanumeric(s),
    ensures
        !contains_alphanumeric(quote_stripped_prefix(s, policy, n)),
    decreases n,
{
    if n > 0 {
        lemma_stripped_prefix_no_alphanumeric(s, policy, n - 1);
        let pre = quote_stripped_prefix(s, policy, n - 1);
        let cur = quote_stripped_prefix(s, policy, n);
        assert(!is_ascii_alphanumeric_char(s[n - 1]));
        assert forall|i: int| 0 <= i < cur.len() implies !(#[trigger] is_ascii_alphanumeric_char(
            cur[i],
        )) by {
            if i < pre.len() {
                assert(!is_ascii_alphanumeric_char(pre[i]));
            }
        }
    }
}

/// An input with no ASCII alphanumeric character is rejected: the pipeline
/// returns the empty string.
pub proof fn lemma_no_alphanumeric_rejected(s: Seq<char>)
    requires
        !contains_alphanumeric(s),
    ensures
        filtered(s) == Seq::<char>::empty(),
{
    let norm = normalized(s);
    assert forall|i: int| 0 <= i < norm.len() implies !(#[trigger] is_ascii_alphanumeric_char(
        norm[i],
    )) by {
        assert(norm[i] == replacement_of(s[i]));
        assert(!is_ascii_alphanumeric_char(s[i]));
    }
    lemma_stripped_prefix_no_alphanumeric(norm, BoundaryPolicy::Always, norm.len() as int);
}

/// Every character of the pipeline's output is in the whitelist: the result
/// holds only ASCII letters, ASCII digits, and whitelisted symbols.
pub proof fn lemma_filtered_chars_whitelisted(s: Seq<char>)
    ensures
        forall|i: int|
            0 <= i < filtered(s).len() ==> is_whitelisted_char(#[trigger] filtered(s)[i]),
{
    let stripped = quote_stripped(normalized(s));
    if contains_alphanumeric(stripped) {
        lemma_whitelist_filter_chars(stripped);
    }
}

} // verus!
