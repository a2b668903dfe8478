//! The closed set of image filters and its textual form.
//!
//! A filter is named by the lowercase variant name: `"grayscale"` or
//! `"blur"`. Parsing accepts exactly those two names and nothing else,
//! and displaying a filter gives the name back, so the two directions
//! round-trip.

use vstd::prelude::*;

verus! {

/// A pixel transformation the pipeline can apply to a decoded image.
#[derive(Clone, Copy, Debug, PartialEq, Eq, Structural)]
pub enum ImageFilter {
    GrayScale,
    Blur,
}

/// The textual name of a filter: the lowercase variant name.
pub open spec fn filter_name(f: ImageFilter) -> Seq<char> {
    match f {
        ImageFilter::GrayScale => "grayscale"@,
        ImageFilter::Blur => "blur"@,
    }
}

/// What parsing a filter name yields: the matching variant for the two
/// supported names, nothing for any other string.
pub open spec fn parse_filter(s: Seq<char>) -> Option<ImageFilter> {
    if s == "grayscale"@ {
        Some(ImageFilter::GrayScale)
    } else if s == "blur"@ {
        Some(ImageFilter::Blur)
    } else {
        None
    }
}

impl ImageFilter {
    /// Parses a filter name; fails on every string but the two supported
    /// names.
    pub fn from_str(s: &str) -> (r: Result<ImageFilter, ()>)
        ensures
            r matches Ok(f) ==> parse_filter(s@) == Some(f),
            r is Err <==> parse_filter(s@) is None,
    {
        let t = s.to_owned();
        if t == "grayscale".to_owned() {
            Ok(ImageFilter::GrayScale)
        } else if t == "blur".to_owned() {
            Ok(ImageFilter::Blur)
        } else {
            Err(())
        }
    }

    /// The filter's name, for status and error text.
    pub fn display(&self) -> (r: String)
        ensures
            r@ == filter_name(*self),
    {
        match self {
            ImageFilter::GrayScale => "grayscale".to_owned(),
            ImageFilter::Blur => "blur".to_owned(),
        }
    }
}

/// Round trip, string first: parsing a supported filter name and then
/// displaying the parsed filter gives the same name back.
pub proof fn lemma_filter_name_round_trip(s: Seq<char>)
    requires
        parse_filter(s) is Some,
    ensures
        filter_name(parse_filter(s)->Some_0) == s,
{
}

/// Round trip, filter first: displaying a filter and then parsing the
/// displayed name gives the same filter back.
pub proof fn lemma_filter_parse_round_trip(f: ImageFilter)
    ensures
        parse_filter(filter_name(f)) == Some(f),
{
    reveal_strlit("grayscale");
    reveal_strlit("blur");
    assert("grayscale"@.len() != "blur"@.len());
}

} // verus!
