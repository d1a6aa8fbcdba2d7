//! The links that a download request names.

use crate::text::{pieces, split_at_spaces, texts, trim_text, trimmed};
use vstd::prelude::*;

verus! {

/// Whether `url::Url::parse` accepts a text as an absolute URL.
pub uninterp spec fn is_url(text: Seq<char>) -> bool;

/// The links in the text of a request: what stands between its spaces, once the white space
/// around it is gone. There is always at least one, though it may be empty.
pub open spec fn requested_links(text: Seq<char>) -> Seq<Seq<char>> {
    pieces(trimmed(text))
}

/// How many links stand before the first one that is no URL.
pub open spec fn leading_urls(links: Seq<Seq<char>>) -> nat
    decreases links.len(),
{
    if links.len() == 0 || !is_url(links.first()) {
        0
    } else {
        1 + leading_urls(links.drop_first())
    }
}

/// Calls `url::Url::parse` and tells whether it succeeded. The answer is named, not described:
/// of the grammar it is only said that a URL has a colon, without which the parser never finds
/// a scheme.
#[verifier::external_body]
fn parses_as_url(link: &str) -> (answer: bool)
    ensures
        answer == is_url(link@),
        !link@.contains(':') ==> !answer,
{
    url::Url::parse(link).is_ok()
}

/// The links in the text of a request.
pub fn read_links(text: &str) -> (links: Vec<String>)
    ensures
        texts(links@) == requested_links(text@),
{
    split_at_spaces(trim_text(text))
}

/// Counts the links before the first one that is no URL.
pub fn count_leading_urls(links: &Vec<String>) -> (count: usize)
    ensures
        count == leading_urls(texts(links@)),
        count <= links.len(),
        forall|i: int|
            0 <= i < count ==> (#[trigger] texts(links@)[i]).contains(':'),
{
    let mut count: usize = 0;
    assert(texts(links@).skip(0) =~= texts(links@));
    while count < links.len() && parses_as_url(links[count].as_str())
        invariant
            count <= links.len(),
            leading_urls(texts(links@)) == count + leading_urls(texts(links@).skip(count as int)),
            forall|i: int| 0 <= i < count ==> (#[trigger] texts(links@)[i]).contains(':'),
        ensures
            count <= links.len(),
            leading_urls(texts(links@)) == count,
            forall|i: int| 0 <= i < count ==> (#[trigger] texts(links@)[i]).contains(':'),
        decreases links.len() - count,
    {
        assert(texts(links@).skip(count as int).drop_first() =~= texts(links@).skip(count + 1));
        count = count + 1;
    }
    count
}

} // verus!
