use tts_sanitizer::{
    filter_string_input, has_alphanumeric, normalize, strip_quotes, strip_quotes_with,
    whitelist_filter, BoundaryPolicy,
};

#[test]
fn normalizer_rewrites_right_single_quote() {
    assert_eq!(normalize("it\u{2019}s"), "it's");
}

#[test]
fn normalizer_keeps_safe_text() {
    assert_eq!(normalize("plain text, unchanged."), "plain text, unchanged.");
}

#[test]
fn normalizer_rewrites_every_occurrence() {
    assert_eq!(normalize("\u{2019}a\u{2019}b\u{2019}"), "'a'b'");
}

#[test]
fn normalizer_applied_twice_is_applied_once() {
    let once = normalize("it\u{2019}s fine");
    assert_eq!(normalize(&once), once);
}

#[test]
fn stripper_keeps_contraction() {
    assert_eq!(strip_quotes("don't stop"), "on't sto");
}

#[test]
fn stripper_removes_enclosing_quotes() {
    assert_eq!(strip_quotes("'hello'"), "hello");
}

#[test]
fn stripper_removes_non_contraction_apostrophes() {
    assert_eq!(strip_quotes("a 'quote' b"), " quote ");
}

#[test]
fn stripper_on_short_strings() {
    assert_eq!(strip_quotes(""), "");
    assert_eq!(strip_quotes("x"), "");
    assert_eq!(strip_quotes("ab"), "");
}

#[test]
fn stripper_blunt_policy_drops_any_boundary() {
    assert_eq!(strip_quotes_with("hello", BoundaryPolicy::Always), "ell");
}

#[test]
fn stripper_quote_only_policy_keeps_plain_boundaries() {
    assert_eq!(strip_quotes_with("hello", BoundaryPolicy::QuoteOnly), "hello");
    assert_eq!(
        strip_quotes_with("don't stop", BoundaryPolicy::QuoteOnly),
        "don't stop"
    );
}

#[test]
fn stripper_quote_only_policy_drops_quote_boundaries() {
    assert_eq!(strip_quotes_with("'hello'", BoundaryPolicy::QuoteOnly), "hello");
    assert_eq!(
        strip_quotes_with("\u{201c}hi there\u{201d}", BoundaryPolicy::QuoteOnly),
        "hi there"
    );
    assert_eq!(
        strip_quotes_with("\"mixed'", BoundaryPolicy::QuoteOnly),
        "mixed"
    );
}

#[test]
fn gate_finds_letters_and_digits() {
    assert!(has_alphanumeric("a"));
    assert!(has_alphanumeric("...7..."));
    assert!(!has_alphanumeric(""));
    assert!(!has_alphanumeric("!!! ---"));
    assert!(!has_alphanumeric("\u{a3}$?"));
}

#[test]
fn whitelist_removes_outside_characters() {
    assert_eq!(whitelist_filter("Hello@World#2024"), "HelloWorld2024");
}

#[test]
fn whitelist_preserves_case_and_symbols() {
    assert_eq!(
        whitelist_filter("Pay $5 or \u{a3}9.99, OK? Fine; go: now & don't stop!"),
        "Pay $5 or \u{a3}9.99, OK? Fine; go: now & don't stop!"
    );
}

#[test]
fn whitelist_removes_control_and_unicode() {
    assert_eq!(whitelist_filter("a\tb\u{2019}c\u{0}d"), "abcd");
}

#[test]
fn whitelist_applied_twice_is_applied_once() {
    let once = whitelist_filter("Mixed @input# with £ and tabs\t!");
    assert_eq!(whitelist_filter(&once), once);
}

#[test]
fn pipeline_rejects_strings_without_alphanumerics() {
    assert_eq!(filter_string_input("!!! ---"), "");
    assert_eq!(filter_string_input(""), "");
    assert_eq!(filter_string_input("''"), "");
}

#[test]
fn pipeline_handles_quoted_contraction() {
    assert_eq!(
        filter_string_input("\u{2019}don\u{2019}t stop\u{2019}"),
        "don't stop"
    );
}

#[test]
fn pipeline_strips_filters_and_keeps_case() {
    // First and last characters (the quotes) go, interior junk is filtered.
    assert_eq!(filter_string_input("\"Hello, @World!\""), "Hello, World!");
}

#[test]
fn pipeline_is_not_idempotent_across_applications() {
    // The quote stripper drops the first and last character of whatever it
    // is given, so the pipeline as a whole has no fixed point on this input.
    let once = filter_string_input("don't stop");
    assert_eq!(once, "on't sto");
    let twice = filter_string_input(&once);
    assert_eq!(twice, "n't st");
    assert_ne!(twice, once);
}
