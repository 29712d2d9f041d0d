//! String helpers shared by the other modules: the character view of a list
//! of strings, substring search and percent-decoding.

use vstd::prelude::*;

verus! {

/// The character sequences of a list of strings, in order.
pub open spec fn views(strings: Seq<String>) -> Seq<Seq<char>> {
    Seq::new(strings.len(), |i: int| strings[i]@)
}

/// The character sequence of an optional string.
pub open spec fn option_view(s: Option<String>) -> Option<Seq<char>> {
    match s {
        Some(s) => Some(s@),
        None => None,
    }
}

/// Whether `needle` occurs in `haystack` as a contiguous run of characters.
pub open spec fn occurs_in(needle: Seq<char>, haystack: Seq<char>) -> bool {
    exists|start: int|
        0 <= start && start + needle.len() <= haystack.len() && #[trigger] haystack.subrange(
            start,
            start + needle.len(),
        ) == needle
}

/// What percent-decoding makes of `data`: the decoded text, or `None` when
/// the decoded bytes are not valid UTF-8.
pub uninterp spec fn percent_decoded(data: Seq<char>) -> Option<Seq<char>>;

/// `str::contains` with a string pattern: true exactly when the pattern
/// matches a sub-slice of the haystack.
#[verifier::external_body]
pub(crate) fn contains(haystack: &str, needle: &str) -> (found: bool)
    ensures
        found == occurs_in(needle@, haystack@),
{
    haystack.contains(needle)
}

/// Whether `data` holds no percent sign, and so no escape.
pub open spec fn has_no_escape(data: Seq<char>) -> bool {
    forall|i: int| 0 <= i < data.len() ==> #[trigger] data[i] != '%'
}

/// `urlencoding::decode`: every `%` that is followed by two hex digits is
/// replaced by the byte they spell, everything else is kept, and the result
/// is read as UTF-8. The outcome depends on the input alone; it is an error
/// only when the decoded bytes are not valid UTF-8. A text without any
/// percent sign is handed back as it is.
#[verifier::external_body]
pub(crate) fn percent_decode(data: &str) -> (decoded: Option<String>)
    ensures
        option_view(decoded) == percent_decoded(data@),
        has_no_escape(data@) ==> option_view(decoded) == Some(data@),
{
    urlencoding::decode(data).ok().map(|text| text.into_owned())
}

} // verus!
