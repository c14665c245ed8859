//! The library's boundary with unverified code: URL composition by the `url`
//! crate, path joining by `std::path` and the sharing of an `Arc`. Every
//! contract in this file is assumed, not proved.

use crate::text::texts;
use std::path::Path;
use std::sync::Arc;
use url::Url;
use vstd::prelude::*;

verus! {

/// The most characters that the parts of one URL may hold together. The `url`
/// crate indexes a URL's text with 32-bit offsets, and serialises a character
/// with at most twelve bytes: four of UTF-8, each of them percent-encoded in
/// three.
pub const MAX_URL_CHARS: usize = 0x1000_0000;

/// The characters in all of `parts`, plus one for each part.
pub open spec fn total_chars(parts: Seq<Seq<char>>) -> nat
    decreases parts.len(),
{
    if parts.len() == 0 {
        0
    } else {
        total_chars(parts.drop_last()) + parts.last().len() + 1
    }
}

/// Why the `url` crate would not build a URL.
#[derive(Debug, Clone, PartialEq, Eq)]
pub enum UrlRefusal {
    /// The base text is no absolute URL; the text is the parser's own message.
    Malformed(String),
    /// The base URL has no path that segments could be appended to.
    NotABase,
}

/// The text of the URL that the `url` crate arrives at when it parses `base`,
/// appends `segments` to its path and sets `query` as its query string; `None`
/// where it refuses to.
pub uninterp spec fn url_text(base: Seq<char>, segments: Seq<Seq<char>>, query: Seq<char>) -> Option<
    Seq<char>,
>;

/// Calls `Url::parse` on `base`, `PathSegmentsMut::extend` (reached through
/// `Url::path_segments_mut`) with `segments`, and `Url::set_query` with
/// `query`, and hands back the serialised URL.
///
/// Assumed: the outcome is a function of the three arguments alone, and the
/// call returns. The size bound keeps the serialisation under the 4 GiB at
/// which the crate's 32-bit offsets give out.
#[verifier::external_body]
pub(crate) fn compose_url(base: &str, segments: &Vec<String>, query: &str) -> (out: Result<
    String,
    UrlRefusal,
>)
    requires
        base@.len() + total_chars(texts(segments@)) + query@.len() <= MAX_URL_CHARS,
    ensures
        match out {
            Ok(text) => url_text(base@, texts(segments@), query@) == Some(text@),
            Err(_) => url_text(base@, texts(segments@), query@) is None,
        },
{
    let mut url = Url::parse(base).map_err(|e| UrlRefusal::Malformed(e.to_string()))?;
    url.path_segments_mut().map_err(|_| UrlRefusal::NotABase)?.extend(segments);
    url.set_query(Some(query));
    Ok(url.into())
}

/// The text of the path that `std::path::Path::join` gives for `base` and
/// `child` on the platform the library is built for.
pub uninterp spec fn joined_path(base: Seq<char>, child: Seq<char>) -> Seq<char>;

/// Calls `std::path::Path::join`.
///
/// Assumed: the joined path is a function of the two texts alone. Both are
/// UTF-8, so turning the result back into a `String` loses nothing.
#[verifier::external_body]
pub(crate) fn join_path(base: &str, child: &str) -> (joined: String)
    ensures
        joined@ == joined_path(base@, child@),
{
    Path::new(base).join(child).to_string_lossy().into_owned()
}

/// Calls `Arc::clone`.
///
/// Assumed: the new pointer leads to the value that `shared` leads to.
#[verifier::external_body]
pub(crate) fn clone_arc<T>(shared: &Arc<T>) -> (copy: Arc<T>)
    ensures
        copy == *shared,
{
    Arc::clone(shared)
}

} // verus!
