//! Selection of the target container format from a caller-supplied token.
//!
//! The mapping is total: `"jpeg"` and `"jpg"` select the JPEG encoder,
//! `"png"` selects the PNG encoder, and every other token (case variants,
//! typos, the empty string) falls back to the JPEG encoder. The fallback is
//! a visible variant of its own rather than an implicit string-match
//! fallthrough, so that it stays a distinct, testable case.

use vstd::prelude::*;

verus! {

/// The encoder selected for one transcode call. `Fallback` means the token
/// matched no known format and the JPEG encoder is used by default; it is
/// kept apart from `Jpeg` because the two report encode failures under
/// different message prefixes.
#[derive(Clone, Copy, Debug, PartialEq, Eq, Structural)]
pub enum OutputFormat {
    Jpeg,
    Png,
    Fallback,
}

/// The exact, case-sensitive dispatch policy from format token to encoder.
pub open spec fn selector_of(format: Seq<char>) -> OutputFormat {
    if format == "jpeg"@ || format == "jpg"@ {
        OutputFormat::Jpeg
    } else if format == "png"@ {
        OutputFormat::Png
    } else {
        OutputFormat::Fallback
    }
}

/// Character-by-character string equality, proved to decide equality of
/// the two views.
pub fn str_eq(a: &str, b: &str) -> (r: bool)
    ensures
        r == (a@ == b@),
{
    let a_len = a.unicode_len();
    let b_len = b.unicode_len();
    if a_len != b_len {
        proof {
            assert(a@.len() != b@.len());
        }
        return false;
    }
    let mut i: usize = 0;
    while i < a_len
        invariant
            i <= a_len,
            a_len == a@.len(),
            a_len == b@.len(),
            forall|j: int| 0 <= j < i ==> a@[j] == b@[j],
        decreases a_len - i,
    {
        if a.get_char(i) != b.get_char(i) {
            return false;
        }
        i = i + 1;
    }
    proof {
        assert(a@ =~= b@);
    }
    true
}

/// Map the caller-supplied token to the encoder that will be used,
/// following the dispatch policy exactly.
pub fn parse_format(format: &str) -> (r: OutputFormat)
    ensures
        r == selector_of(format@),
{
    if str_eq(format, "jpeg") || str_eq(format, "jpg") {
        OutputFormat::Jpeg
    } else if str_eq(format, "png") {
        OutputFormat::Png
    } else {
        OutputFormat::Fallback
    }
}

} // verus!
