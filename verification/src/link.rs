//! Reading a pull request's number out of the link of a build.

use crate::text::{is_first_position, prefix_before, text_before};
use vstd::prelude::*;

verus! {

/// The path segments of the URL that `link` spells, as the `url` crate
/// parses it: `None` where `link` is no URL, or is one that cannot be a
/// base (`mailto:`, `data:`), which has no path segments.
pub uninterp spec fn url_path_segments(link: Seq<char>) -> Option<Seq<Seq<char>>>;

/// `url::Url::parse` on `link`, then `Url::path_segments` on the URL it
/// gives, each segment copied into a `String`. The result is a function of
/// the link's text alone, and is named `url_path_segments`; nothing more is
/// claimed of it.
#[verifier::external_body]
pub(crate) fn path_segments(link: &str) -> (segments: Option<Vec<String>>)
    ensures
        segments.deep_view() == url_path_segments(link@),
{
    let url = url::Url::parse(link).ok()?;
    Some(url.path_segments()?.map(|segment| segment.to_string()).collect())
}

/// The pull request's number that a list of path segments spells: the last
/// segment up to its first `.`, so that `123.diff` gives `123`. A list
/// without segments spells none.
pub open spec fn pr_number_of_segments(segments: Seq<Seq<char>>) -> Option<Seq<char>> {
    if segments.len() == 0 {
        None
    } else {
        Some(text_before(segments.last(), '.'))
    }
}

/// The pull request's number that a link spells, if it has path segments.
pub open spec fn pr_number_of_link(link: Seq<char>) -> Option<Seq<char>> {
    match url_path_segments(link) {
        Some(segments) => pr_number_of_segments(segments),
        None => None,
    }
}

/// Reads the pull request's number from the path segments of a link.
pub fn pr_number_from_segments(segments: &Vec<String>) -> (number: Option<String>)
    ensures
        number.deep_view() == pr_number_of_segments(segments.deep_view()),
        number matches Some(text) ==> is_first_position(
            segments.deep_view().last(),
            '.',
            text@.len() as int,
        ),
{
    if segments.len() == 0 {
        None
    } else {
        let last = &segments[segments.len() - 1];
        Some(prefix_before(last.as_str(), '.'))
    }
}

/// Reads the pull request's number from a link: `None` exactly where the
/// link has no path segments.
pub fn pr_number_from_link(link: &str) -> (number: Option<String>)
    ensures
        number.deep_view() == pr_number_of_link(link@),
{
    match path_segments(link) {
        Some(segments) => pr_number_from_segments(&segments),
        None => None,
    }
}

} // verus!
