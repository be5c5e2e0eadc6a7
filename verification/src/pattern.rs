//! The success pattern: how a line of the helper's output is recognised as
//! the one that carries the public address.

use crate::text::{chars_of, contains, find, find_token_end, first_occurrence, has, token_end};
use vstd::prelude::*;
use vstd::slice::slice_subrange;
use vstd::string::StrSliceExecFns;

verus! {

/// A marker that opens an address, and the host name suffix that the tunnel
/// provider's addresses carry.
#[derive(Debug, PartialEq, Eq)]
pub struct SuccessPattern {
    marker: String,
    provider: String,
}

/// What a `SuccessPattern` holds, as sequences of characters.
pub struct PatternView {
    pub marker: Seq<char>,
    pub provider: Seq<char>,
}

impl View for SuccessPattern {
    type V = PatternView;

    closed spec fn view(&self) -> PatternView {
        PatternView { marker: self.marker@, provider: self.provider@ }
    }
}

/// The pattern of the provider that the helper program connects to.
pub open spec fn standard_pattern() -> PatternView {
    PatternView { marker: "https://"@, provider: "trycloudflare.com"@ }
}

/// The candidate address in `line`: from the first occurrence of `marker` up
/// to the next whitespace character, or to the end of the line when no
/// whitespace follows. `None` when the marker does not occur.
pub open spec fn candidate(marker: Seq<char>, line: Seq<char>) -> Option<Seq<char>> {
    match first_occurrence(line, marker) {
        Some(start) => Some(line.subrange(start, token_end(line, start))),
        None => None,
    }
}

/// The address that `line` announces under `pattern`: its candidate address,
/// if that holds the provider's suffix.
pub open spec fn extracted(pattern: PatternView, line: Seq<char>) -> Option<Seq<char>> {
    match candidate(pattern.marker, line) {
        Some(url) => if contains(url, pattern.provider) {
            Some(url)
        } else {
            None
        },
        None => None,
    }
}

impl SuccessPattern {
    /// A pattern with the given marker and provider suffix.
    pub fn new(marker: &str, provider: &str) -> (pattern: SuccessPattern)
        ensures
            pattern@ == (PatternView { marker: marker@, provider: provider@ }),
    {
        SuccessPattern { marker: marker.to_owned(), provider: provider.to_owned() }
    }

    /// The pattern of the provider that the helper program connects to.
    pub fn standard() -> (pattern: SuccessPattern)
        ensures
            pattern@ == standard_pattern(),
    {
        SuccessPattern::new("https://", "trycloudflare.com")
    }

    /// The marker that opens an address.
    pub fn marker(&self) -> (marker: &str)
        ensures
            marker@ == self@.marker,
    {
        self.marker.as_str()
    }

    /// The suffix that the provider's addresses carry.
    pub fn provider(&self) -> (provider: &str)
        ensures
            provider@ == self@.provider,
    {
        self.provider.as_str()
    }

    /// The address that `line` announces, if it announces one.
    pub fn extract_url(&self, line: &str) -> (found: Option<String>)
        ensures
            match found {
                Some(url) => extracted(self@, line@) == Some(url@),
                None => extracted(self@, line@) is None,
            },
    {
        let chars = chars_of(line);
        let marker = chars_of(self.marker.as_str());
        let provider = chars_of(self.provider.as_str());
        match find(chars.as_slice(), marker.as_slice()) {
            None => None,
            Some(start) => {
                let end = find_token_end(chars.as_slice(), start);
                let url_chars = slice_subrange(chars.as_slice(), start, end);
                if has(url_chars, provider.as_slice()) {
                    Some(line.substring_char(start, end).to_owned())
                } else {
                    None
                }
            },
        }
    }
}

} // verus!
