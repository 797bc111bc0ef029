//! The error values that construction and cursor decoding can return.

use vstd::prelude::*;

verus! {

/// Everything that can go wrong in this crate. Each failure is a typed value
/// returned to the caller; nothing is retried internally.
#[derive(Debug, Clone, PartialEq, Eq)]
pub enum Error {
    /// The page size fell outside `[1, 99]` after normalization. `size` is the
    /// normalized value, not the one originally requested.
    InvalidPageSize { size: u64 },
    /// The source (table or view name) was empty.
    InvalidSource,
    /// The cursor token was not valid URL-safe base64, or its decoding did not
    /// fit the codec's buffer. `s` records the offending token.
    Base64Decode { s: String },
    /// The decoded cursor bytes were not valid UTF-8.
    InvalidUtf8,
    /// The decoded cursor text was not an unsigned 64-bit decimal integer.
    /// `s` records the offending text.
    InvalidNumber { s: String },
}

} // verus!
