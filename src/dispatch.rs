//! Turns a reference into a backend request, and a backend answer into a match result.

use vstd::prelude::*;
use vstd::utf8::encode_utf8;
use crate::classify::Strategy;
use crate::extract::{MediaReference, ReferenceView};
use crate::grammar::{post_id, status_id};
use crate::text::owned;

verus! {

/// A byte that percent-encoding leaves as it is: an ASCII letter or digit, or `-`, `.`, `_`, `~`.
pub open spec fn is_unreserved(b: u8) -> bool {
    (0x30 <= b <= 0x39) || (0x41 <= b <= 0x5a) || (0x61 <= b <= 0x7a) || b == 0x2d || b == 0x2e
        || b == 0x5f || b == 0x7e
}

/// The upper-case hexadecimal digit for `d < 16`.
pub open spec fn hex_digit(d: u8) -> char {
    if d < 10 {
        (0x30 + d) as char
    } else {
        (0x37 + d) as char
    }
}

/// Percent-encoding of a byte sequence: unreserved bytes stay, every other
/// byte becomes `%` and two upper-case hexadecimal digits.
pub open spec fn percent_encode(bytes: Seq<u8>) -> Seq<char>
    decreases bytes.len(),
{
    if bytes.len() == 0 {
        Seq::empty()
    } else {
        let b = bytes[0];
        let head = if is_unreserved(b) {
            seq![b as char]
        } else {
            seq!['%', hex_digit(b / 16), hex_digit(b % 16)]
        };
        head + percent_encode(bytes.drop_first())
    }
}

/// Percent-encoding of a text, through its UTF-8 bytes.
pub open spec fn url_encoded(s: Seq<char>) -> Seq<char> {
    percent_encode(encode_utf8(s))
}

/// Relies on urlencoding::encode: every UTF-8 byte of the text but ASCII
/// letters, digits, `-`, `.`, `_` and `~` becomes `%XX` in upper-case hex.
#[verifier::external_body]
pub(crate) fn url_encode(s: &str) -> (r: String)
    ensures
        r@ == url_encoded(s@),
{
    urlencoding::encode(s).into_owned()
}

/// The backend path (after its base address) that resolves a reference.
pub open spec fn request_path(r: ReferenceView) -> Seq<char> {
    match r.strategy {
        Strategy::DirectDownload => "/direct?url="@ + url_encoded(r.url),
        Strategy::PlatformExtractor => "/twitter/"@ + status_id(r.url),
        Strategy::GenericExtractor => "/ytdl?url="@ + url_encoded(r.url),
    }
}

/// The backend path for a reference: a media file's URL, a platform post's
/// numeric identifier, or a URL for the generic extractor.
pub fn backend_path(r: &MediaReference) -> (p: String)
    ensures
        p@ == request_path(r@),
{
    match r.strategy {
        Strategy::DirectDownload => {
            let enc = url_encode(r.url.as_str());
            owned("/direct?url=").concat(enc.as_str())
        },
        Strategy::PlatformExtractor => {
            let id = post_id(r.url.as_str());
            owned("/twitter/").concat(id.as_str())
        },
        Strategy::GenericExtractor => {
            let enc = url_encode(r.url.as_str());
            owned("/ytdl?url=").concat(enc.as_str())
        },
    }
}

} // verus!
