//! The external search page for a track.
//!
//! One key opens the track in a web search: the page's address is built
//! from artist and title, percent-encoded as a single query component.
//! Opening the page is a fire-and-forget side action outside this crate;
//! the address it opens is built and pinned down here.

use vstd::prelude::*;

verus! {

/// What percent-encoding a string yields. The encoding is a function of
/// the characters alone; its exact shape (every UTF-8 byte outside ASCII
/// alphanumerics and `-`, `_`, `.`, `~` becomes a `%` escape) is left to
/// the encoder.
pub uninterp spec fn url_encoded(s: Seq<char>) -> Seq<char>;

/// Relies on urlencoding::encode: percent-encodes every byte except ASCII
/// alphanumerics and `-`, `_`, `.`, `~`, assuming UTF-8; a pure function
/// of its input, and an empty string stays empty.
#[verifier::external_body]
fn encode_component(s: &str) -> (r: String)
    ensures
        r@ == url_encoded(s@),
        s@.len() == 0 ==> r@.len() == 0,
{
    urlencoding::encode(s).into_owned()
}

/// The address of the video search for a track: the fixed results page,
/// with artist and title joined by one space and percent-encoded as the
/// single query component.
pub fn youtube_search_url(artist: &str, title: &str) -> (u: String)
    ensures
        u@ == ("https://www.youtube.com/results?search_query=")@ + url_encoded(
            artist@ + seq![' '] + title@,
        ),
{
    let mut query = String::from_str(artist);
    query.append(" ");
    query.append(title);
    proof {
        reveal_strlit(" ");
        assert(query@ =~= artist@ + seq![' '] + title@);
    }
    let encoded = encode_component(query.as_str());
    let mut url = String::from_str("https://www.youtube.com/results?search_query=");
    url.append(encoded.as_str());
    proof {
        assert(url@ =~= ("https://www.youtube.com/results?search_query=")@ + url_encoded(
            artist@ + seq![' '] + title@,
        ));
    }
    url
}

} // verus!
