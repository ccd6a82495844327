//! Decides from a URL alone how the media behind it can be recognised.

use vstd::prelude::*;
use crate::grammar::{chars_of, matches_twitter_link, short_link, strip_query, url_path};
use crate::text::{equals, opt_view};

verus! {

/// How a reference is handed to the recognition backend.
#[derive(Clone, Copy, Debug, PartialEq, Eq, Structural)]
pub enum Strategy {
    /// The URL is a media file: the backend downloads it as it is.
    DirectDownload,
    /// The URL is a post on the short-video platform: the backend gets its identifier.
    PlatformExtractor,
    /// Any other URL: the backend's general-purpose extractor tries it.
    GenericExtractor,
}

/// The top-level MIME type that `mime_guess` guesses first for a path.
pub uninterp spec fn guessed_top_level(path: Seq<char>) -> Option<Seq<char>>;

/// Relies on mime_guess::from_path and MimeGuess::first: the top-level type
/// (`audio`, `video`, ...) of the first MIME type known for the path's
/// extension, or none. The path is handed over as the string of its characters.
#[verifier::external_body]
fn guess_top_level(path: &Vec<char>) -> (r: Option<String>)
    ensures
        opt_view(r) == guessed_top_level(path@),
{
    mime_guess::from_path(path.iter().collect::<String>()).first().map(|m| m.type_().as_str().to_string())
}

/// An ASCII upper-case letter lowered; any other character as it is.
pub open spec fn ascii_lower(c: char) -> char {
    if 65 <= (c as u32) && (c as u32) <= 90 {
        ((c as u32) + 32) as char
    } else {
        c
    }
}

pub open spec fn lower_ascii(s: Seq<char>) -> Seq<char> {
    s.map_values(|c: char| ascii_lower(c))
}

fn lower_char(c: char) -> (r: char)
    ensures
        r == ascii_lower(c),
{
    if 65 <= (c as u32) && (c as u32) <= 90 {
        ((c as u8) + 32) as char
    } else {
        c
    }
}

/// The characters with ASCII upper-case letters lowered.
pub fn lower_chars(s: &Vec<char>) -> (r: Vec<char>)
    ensures
        r@ == lower_ascii(s@),
{
    let mut out: Vec<char> = Vec::new();
    let mut i: usize = 0;
    while i < s.len()
        invariant
            i <= s@.len(),
            out@ == lower_ascii(s@.subrange(0, i as int)),
        decreases s@.len() - i,
    {
        out.push(lower_char(s[i]));
        assert(lower_ascii(s@.subrange(0, i + 1)) =~= lower_ascii(s@.subrange(0, i as int)).push(
            ascii_lower(s@[i as int]),
        ));
        i = i + 1;
    }
    assert(s@.subrange(0, s@.len() as int) =~= s@);
    out
}

/// A guessed top-level type is audio or video.
pub open spec fn media_top_level(t: Option<Seq<char>>) -> bool {
    match t {
        Some(t) => t == "audio"@ || t == "video"@,
        None => false,
    }
}

/// A URL is direct media when the type guessed from the extension of its
/// path (query and fragment removed, ASCII lowered) is audio or video.
pub open spec fn direct_media(url: Seq<char>) -> bool {
    media_top_level(guessed_top_level(lower_ascii(url_path(url))))
}

/// The strategy for a URL: direct media first, then a platform post link,
/// else the generic extractor.
pub open spec fn url_strategy(url: Seq<char>) -> Strategy {
    if direct_media(url) {
        Strategy::DirectDownload
    } else if short_link(url) {
        Strategy::PlatformExtractor
    } else {
        Strategy::GenericExtractor
    }
}

/// Whether a guessed top-level type is audio or video.
pub fn is_media_top_level(t: Option<&str>) -> (r: bool)
    ensures
        r == media_top_level(
            match t {
                Some(x) => Some(x@),
                None => None,
            },
        ),
{
    match t {
        Some(x) => equals(x, "audio") || equals(x, "video"),
        None => false,
    }
}

/// Whether the URL looks like an audio or video file, judged by the
/// extension of its path.
pub fn is_direct_media(url: &str) -> (r: bool)
    ensures
        r == direct_media(url@),
{
    let path = lower_chars(&chars_of(strip_query(url)));
    match guess_top_level(&path) {
        Some(t) => is_media_top_level(Some(t.as_str())),
        None => is_media_top_level(None),
    }
}

/// Classifies a URL: direct media, else a platform post, else generic.
pub fn classify_url(url: &str) -> (r: Strategy)
    ensures
        r == url_strategy(url@),
{
    if is_direct_media(url) {
        Strategy::DirectDownload
    } else if matches_twitter_link(url) {
        Strategy::PlatformExtractor
    } else {
        Strategy::GenericExtractor
    }
}

} // verus!
