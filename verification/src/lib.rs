//! Text sanitization for speech synthesis.
//!
//! Arbitrary user-supplied strings are conditioned before being handed to a
//! speech-synthesis engine: problematic glyphs are normalized, enclosing
//! quotation marks are stripped while contractions are preserved, and the
//! string is reduced to a fixed character whitelist. An empty result means
//! "do not synthesize this input"; the pipeline itself never fails.

pub mod chars;
pub mod laws;
pub mod pipeline;

pub use pipeline::{
    filter_string_input, has_alphanumeric, normalize, strip_quotes, strip_quotes_with,
    whitelist_filter, BoundaryPolicy,
};
