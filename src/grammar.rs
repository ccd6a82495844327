//! The link grammars of the pipeline, matched character by character: the
//! links of a message's text, the platform's post links, and the post
//! identifier inside such a link.

use vstd::prelude::*;
use crate::text::{opt_view, owned};

verus! {

/// ASCII case-insensitive equality with a character of a lower-case pattern.
pub open spec fn ci_eq(c: char, l: char) -> bool {
    c == l || (97 <= (l as u32) && (l as u32) <= 122 && (c as u32) == (l as u32) - 32)
}

/// The lower-case pattern `w` stands at index `i` of `s`, ignoring ASCII case.
pub open spec fn ci_at(s: Seq<char>, i: int, w: Seq<char>) -> bool {
    0 <= i && i + w.len() <= s.len() && forall|j: int| 0 <= j < w.len() ==> ci_eq(s[i + j], #[trigger] w[j])
}

/// Unicode white space.
pub open spec fn is_space(c: char) -> bool {
    let u = c as u32;
    (9 <= u && u <= 13) || u == 32 || u == 0x85 || u == 0xA0 || u == 0x1680 || (0x2000 <= u && u <= 0x200A)
        || u == 0x2028 || u == 0x2029 || u == 0x202F || u == 0x205F || u == 0x3000
}

/// An ASCII word character: letter, digit or `_`.
pub open spec fn is_word(c: char) -> bool {
    let u = c as u32;
    (48 <= u && u <= 57) || (65 <= u && u <= 90) || (97 <= u && u <= 122) || u == 95
}

pub open spec fn is_digit(c: char) -> bool {
    48 <= (c as u32) && (c as u32) <= 57
}

/// The first index at or after `i` that holds white space, else the length.
pub open spec fn next_space(s: Seq<char>, i: int) -> int
    decreases s.len() - i,
{
    if i < 0 || i >= s.len() {
        s.len() as int
    } else if is_space(s[i]) {
        i
    } else {
        next_space(s, i + 1)
    }
}

/// The first index at or after `i` that holds no word character, else the length.
pub open spec fn next_nonword(s: Seq<char>, i: int) -> int
    decreases s.len() - i,
{
    if i < 0 || i >= s.len() {
        s.len() as int
    } else if !is_word(s[i]) {
        i
    } else {
        next_nonword(s, i + 1)
    }
}

/// The first index at or after `i` that holds no ASCII digit, else the length.
pub open spec fn next_nondigit(s: Seq<char>, i: int) -> int
    decreases s.len() - i,
{
    if i < 0 || i >= s.len() {
        s.len() as int
    } else if !is_digit(s[i]) {
        i
    } else {
        next_nondigit(s, i + 1)
    }
}

/// The length of the `https://` or `http://` (any case) at `k`, or 0.
pub open spec fn scheme_len(s: Seq<char>, k: int) -> int {
    if ci_at(s, k, "https://"@) {
        "https://"@.len() as int
    } else if ci_at(s, k, "http://"@) {
        "http://"@.len() as int
    } else {
        0
    }
}

/// A link starts at `k`: a scheme followed by at least one non-space character.
pub open spec fn link_at(s: Seq<char>, k: int) -> bool {
    let n = scheme_len(s, k);
    n > 0 && k + n < s.len() && !is_space(s[k + n])
}

/// The leftmost link at index `i` or later: its scheme and the run of
/// non-space characters after it.
pub open spec fn link_from(s: Seq<char>, i: int) -> Option<Seq<char>>
    decreases s.len() - i,
{
    if i < 0 || i >= s.len() {
        None
    } else if link_at(s, i) {
        Some(s.subrange(i, next_space(s, i + scheme_len(s, i))))
    } else {
        link_from(s, i + 1)
    }
}

/// The leftmost link of a text.
pub open spec fn leftmost_link(s: Seq<char>) -> Option<Seq<char>> {
    link_from(s, 0)
}

/// `rest` unless the host `w` (with its `.com/`) stands at `e`; then the index after it.
pub open spec fn host_try(s: Seq<char>, e: int, w: Seq<char>, rest: int) -> int {
    if ci_at(s, e, w) {
        e + w.len()
    } else {
        rest
    }
}

/// The index after the allowed host and its `.com/` at `e`, or -1. The hosts
/// are the platform's domain, that domain behind a mirror prefix (`fx`, `px`,
/// `vx`, joined or as a subdomain), and known look-alike domains.
pub open spec fn host_end(s: Seq<char>, e: int) -> int {
    host_try(s, e, "twitter.com/"@,
    host_try(s, e, "twitter64.com/"@,
    host_try(s, e, "twxtter.com/"@,
    host_try(s, e, "twittpr.com/"@,
    host_try(s, e, "fxtwitter.com/"@,
    host_try(s, e, "pxtwitter.com/"@,
    host_try(s, e, "vxtwitter.com/"@,
    host_try(s, e, "fx.twitter.com/"@,
    host_try(s, e, "px.twitter.com/"@,
    host_try(s, e, "vx.twitter.com/"@, -1))))))))))
}

/// The index after `/statuses/` or `/status/` (any case) at `p`, or -1.
pub open spec fn status_digits_start(s: Seq<char>, p: int) -> int {
    if ci_at(s, p, "/statuses/"@) {
        p + "/statuses/"@.len()
    } else if ci_at(s, p, "/status/"@) {
        p + "/status/"@.len()
    } else {
        -1
    }
}

/// A post link starts at `k`: scheme, allowed host and `.com/`, a handle of 1
/// to 15 word characters, `/status/` or `/statuses/`, and a digit.
pub open spec fn short_link_at(s: Seq<char>, k: int) -> bool {
    let sl = scheme_len(s, k);
    let h = host_end(s, k + sl);
    let w = next_nonword(s, h);
    let d = status_digits_start(s, w);
    &&& sl > 0
    &&& h >= 0
    &&& 1 <= w - h <= 15
    &&& 0 <= d < s.len()
    &&& is_digit(s[d])
}

/// The URL is a post link: it starts with one, so its own host is on the
/// allow-list and its path begins with a handle, `/status(es)/` and a digit.
pub open spec fn short_link(s: Seq<char>) -> bool {
    short_link_at(s, 0)
}

/// The index of the first `?` or `#` at or after `i`, else the length.
pub open spec fn path_end(s: Seq<char>, i: int) -> int
    decreases s.len() - i,
{
    if i < 0 || i >= s.len() {
        s.len() as int
    } else if s[i] == '?' || s[i] == '#' {
        i
    } else {
        path_end(s, i + 1)
    }
}

/// A URL without its query and fragment.
pub open spec fn url_path(s: Seq<char>) -> Seq<char> {
    s.subrange(0, path_end(s, 0))
}

/// The digits after the first `/status/` or `/statuses/` at index `j` or
/// later that a digit follows; empty when there is none.
pub open spec fn status_from(p: Seq<char>, j: int) -> Seq<char>
    decreases p.len() - j,
{
    if j < 0 || j >= p.len() {
        Seq::empty()
    } else {
        let d = status_digits_start(p, j);
        if 0 <= d < p.len() && is_digit(p[d]) {
            p.subrange(d, next_nondigit(p, d))
        } else {
            status_from(p, j + 1)
        }
    }
}

/// The numeric post identifier of a link, read in its path.
pub open spec fn status_id(url: Seq<char>) -> Seq<char> {
    status_from(url_path(url), 0)
}

/// The characters of a string, one per element.
pub fn chars_of(s: &str) -> (r: Vec<char>)
    ensures
        r@ == s@,
{
    let n = s.unicode_len();
    let mut v: Vec<char> = Vec::new();
    let mut i: usize = 0;
    while i < n
        invariant
            n == s@.len(),
            i <= n,
            v@ == s@.subrange(0, i as int),
        decreases n - i,
    {
        v.push(s.get_char(i));
        assert(s@.subrange(0, i + 1) =~= s@.subrange(0, i as int).push(s@[i as int]));
        i = i + 1;
    }
    assert(s@.subrange(0, n as int) =~= s@);
    v
}

fn char_ci_eq(c: char, l: char) -> (r: bool)
    ensures
        r == ci_eq(c, l),
{
    c == l || (97 <= (l as u32) && (l as u32) <= 122 && (c as u32) == (l as u32) - 32)
}

/// Whether the lower-case pattern `w` stands at index `i` of `s`, ignoring ASCII case.
pub fn ci_match(s: &Vec<char>, i: usize, w: &str) -> (r: bool)
    ensures
        r == ci_at(s@, i as int, w@),
{
    let m = w.unicode_len();
    let n = s.len();
    if i > n || m > n - i {
        return false;
    }
    let mut j: usize = 0;
    while j < m
        invariant
            m == w@.len(),
            n == s@.len(),
            i + m <= s@.len(),
            j <= m,
            forall|jj: int| 0 <= jj < j ==> ci_eq(s@[i + jj], #[trigger] w@[jj]),
        decreases m - j,
    {
        if !char_ci_eq(s[i + j], w.get_char(j)) {
            return false;
        }
        j = j + 1;
    }
    true
}

fn char_is_space(c: char) -> (r: bool)
    ensures
        r == is_space(c),
{
    let u = c as u32;
    (9 <= u && u <= 13) || u == 32 || u == 0x85 || u == 0xA0 || u == 0x1680 || (0x2000 <= u && u <= 0x200A)
        || u == 0x2028 || u == 0x2029 || u == 0x202F || u == 0x205F || u == 0x3000
}

fn char_is_word(c: char) -> (r: bool)
    ensures
        r == is_word(c),
{
    let u = c as u32;
    (48 <= u && u <= 57) || (65 <= u && u <= 90) || (97 <= u && u <= 122) || u == 95
}

fn char_is_digit(c: char) -> (r: bool)
    ensures
        r == is_digit(c),
{
    48 <= (c as u32) && (c as u32) <= 57
}

fn space_after(s: &Vec<char>, i: usize) -> (r: usize)
    requires
        i <= s@.len(),
    ensures
        r as int == next_space(s@, i as int),
        i <= r <= s@.len(),
{
    let mut j = i;
    while j < s.len() && !char_is_space(s[j])
        invariant
            i <= j <= s@.len(),
            next_space(s@, i as int) == next_space(s@, j as int),
        decreases s@.len() - j,
    {
        j = j + 1;
    }
    j
}

fn nonword_after(s: &Vec<char>, i: usize) -> (r: usize)
    requires
        i <= s@.len(),
    ensures
        r as int == next_nonword(s@, i as int),
        i <= r <= s@.len(),
{
    let mut j = i;
    while j < s.len() && char_is_word(s[j])
        invariant
            i <= j <= s@.len(),
            next_nonword(s@, i as int) == next_nonword(s@, j as int),
        decreases s@.len() - j,
    {
        j = j + 1;
    }
    j
}

fn nondigit_after(s: &Vec<char>, i: usize) -> (r: usize)
    requires
        i <= s@.len(),
    ensures
        r as int == next_nondigit(s@, i as int),
        i <= r <= s@.len(),
{
    let mut j = i;
    while j < s.len() && char_is_digit(s[j])
        invariant
            i <= j <= s@.len(),
            next_nondigit(s@, i as int) == next_nondigit(s@, j as int),
        decreases s@.len() - j,
    {
        j = j + 1;
    }
    j
}

fn scheme_length(s: &Vec<char>, k: usize) -> (r: usize)
    ensures
        r as int == scheme_len(s@, k as int),
        r > 0 ==> k + r <= s@.len(),
{
    let _n = s.len();
    if ci_match(s, k, "https://") {
        "https://".unicode_len()
    } else if ci_match(s, k, "http://") {
        "http://".unicode_len()
    } else {
        0
    }
}

/// The leftmost `http://` or `https://` link of a text (any case), with the
/// run of non-space characters after its scheme; none when there is none.
pub fn first_link(text: &str) -> (r: Option<String>)
    ensures
        opt_view(r) == leftmost_link(text@),
{
    let s = chars_of(text);
    let n = s.len();
    let mut i: usize = 0;
    while i < n
        invariant
            s@ == text@,
            n == s@.len(),
            i <= n,
            leftmost_link(s@) == link_from(s@, i as int),
        decreases n - i,
    {
        let sl = scheme_length(&s, i);
        if sl > 0 && i + sl < n && !char_is_space(s[i + sl]) {
            let e = space_after(&s, i + sl);
            return Some(owned(text.substring_char(i, e)));
        }
        i = i + 1;
    }
    None
}

fn try_host(s: &Vec<char>, e: usize, w: &str) -> (r: Option<usize>)
    ensures
        match r {
            Some(h) => ci_at(s@, e as int, w@) && h == e + w@.len(),
            None => !ci_at(s@, e as int, w@),
        },
{
    let _n = s.len();
    if ci_match(s, e, w) {
        Some(e + w.unicode_len())
    } else {
        None
    }
}

fn host_after(s: &Vec<char>, e: usize) -> (r: Option<usize>)
    ensures
        match r {
            Some(h) => h == host_end(s@, e as int) && h >= 0,
            None => host_end(s@, e as int) == -1,
        },
{
    if let Some(h) = try_host(s, e, "twitter.com/") { return Some(h); }
    if let Some(h) = try_host(s, e, "twitter64.com/") { return Some(h); }
    if let Some(h) = try_host(s, e, "twxtter.com/") { return Some(h); }
    if let Some(h) = try_host(s, e, "twittpr.com/") { return Some(h); }
    if let Some(h) = try_host(s, e, "fxtwitter.com/") { return Some(h); }
    if let Some(h) = try_host(s, e, "pxtwitter.com/") { return Some(h); }
    if let Some(h) = try_host(s, e, "vxtwitter.com/") { return Some(h); }
    if let Some(h) = try_host(s, e, "fx.twitter.com/") { return Some(h); }
    if let Some(h) = try_host(s, e, "px.twitter.com/") { return Some(h); }
    if let Some(h) = try_host(s, e, "vx.twitter.com/") { return Some(h); }
    None
}

fn status_start(s: &Vec<char>, p: usize) -> (r: Option<usize>)
    ensures
        match r {
            Some(d) => d == status_digits_start(s@, p as int) && d >= 0,
            None => status_digits_start(s@, p as int) == -1,
        },
{
    let _n = s.len();
    if ci_match(s, p, "/statuses/") {
        Some(p + "/statuses/".unicode_len())
    } else if ci_match(s, p, "/status/") {
        Some(p + "/status/".unicode_len())
    } else {
        None
    }
}

fn short_link_starts(s: &Vec<char>, k: usize) -> (r: bool)
    ensures
        r == short_link_at(s@, k as int),
{
    let _n = s.len();
    let sl = scheme_length(s, k);
    if sl == 0 {
        return false;
    }
    let h = match host_after(s, k + sl) {
        Some(h) => h,
        None => return false,
    };
    if h > s.len() {
        return false;
    }
    let w = nonword_after(s, h);
    if w - h < 1 || w - h > 15 {
        return false;
    }
    match status_start(s, w) {
        Some(d) => d < s.len() && char_is_digit(s[d]),
        None => false,
    }
}

/// Whether the URL is a link to a post on the short-video platform: its
/// scheme, allowed host, handle and `/status(es)/<digits>` path, from its
/// first character on. Handles and digits are ASCII, and case is ignored
/// for ASCII letters only.
pub fn matches_twitter_link(url: &str) -> (r: bool)
    ensures
        r == short_link(url@),
{
    let s = chars_of(url);
    short_link_starts(&s, 0)
}

fn path_len(s: &Vec<char>) -> (r: usize)
    ensures
        r as int == path_end(s@, 0),
        r <= s@.len(),
{
    let mut j: usize = 0;
    while j < s.len() && s[j] != '?' && s[j] != '#'
        invariant
            j <= s@.len(),
            path_end(s@, 0) == path_end(s@, j as int),
        decreases s@.len() - j,
    {
        j = j + 1;
    }
    j
}

/// The URL without its query and fragment.
pub fn strip_query(url: &str) -> (r: &str)
    ensures
        r@ == url_path(url@),
{
    let s = chars_of(url);
    let pe = path_len(&s);
    url.substring_char(0, pe)
}

/// The numeric post identifier of a link: the digits after the first
/// `/status/` or `/statuses/` of its path that a digit follows; empty when
/// there is none.
pub fn post_id(url: &str) -> (r: String)
    ensures
        r@ == status_id(url@),
{
    let path = strip_query(url);
    let p = chars_of(path);
    let n = p.len();
    let mut j: usize = 0;
    while j < n
        invariant
            p@ == path@,
            path@ == url_path(url@),
            n == p@.len(),
            j <= n,
            status_from(p@, 0) == status_from(p@, j as int),
        decreases n - j,
    {
        if let Some(d) = status_start(&p, j) {
            if d < n && char_is_digit(p[d]) {
                let e = nondigit_after(&p, d);
                return owned(path.substring_char(d, e));
            }
        }
        j = j + 1;
    }
    String::new()
}

/// No `?` or `#` in `w`.
pub open spec fn no_mark(w: Seq<char>) -> bool {
    forall|j: int| 0 <= j < w.len() ==> w[j] != '?' && w[j] != '#'
}

proof fn clean_prefix(s: Seq<char>, i: int, w: Seq<char>)
    requires
        ci_at(s, i, w),
        no_mark(w),
    ensures
        forall|k: int| i <= k < i + w.len() ==> s[k] != '?' && s[k] != '#',
{
    assert forall|k: int| i <= k < i + w.len() implies s[k] != '?' && s[k] != '#' by {
        assert(ci_eq(s[i + (k - i)], w[k - i]));
    }
}

proof fn host_clean(s: Seq<char>, e: int)
    requires
        host_end(s, e) >= 0,
    ensures
        forall|k: int| e <= k < host_end(s, e) ==> s[k] != '?' && s[k] != '#',
{
    reveal_strlit("twitter.com/");
    reveal_strlit("twitter64.com/");
    reveal_strlit("twxtter.com/");
    reveal_strlit("twittpr.com/");
    reveal_strlit("fxtwitter.com/");
    reveal_strlit("pxtwitter.com/");
    reveal_strlit("vxtwitter.com/");
    reveal_strlit("fx.twitter.com/");
    reveal_strlit("px.twitter.com/");
    reveal_strlit("vx.twitter.com/");
    if ci_at(s, e, "twitter.com/"@) {
        clean_prefix(s, e, "twitter.com/"@);
    } else if ci_at(s, e, "twitter64.com/"@) {
        clean_prefix(s, e, "twitter64.com/"@);
    } else if ci_at(s, e, "twxtter.com/"@) {
        clean_prefix(s, e, "twxtter.com/"@);
    } else if ci_at(s, e, "twittpr.com/"@) {
        clean_prefix(s, e, "twittpr.com/"@);
    } else if ci_at(s, e, "fxtwitter.com/"@) {
        clean_prefix(s, e, "fxtwitter.com/"@);
    } else if ci_at(s, e, "pxtwitter.com/"@) {
        clean_prefix(s, e, "pxtwitter.com/"@);
    } else if ci_at(s, e, "vxtwitter.com/"@) {
        clean_prefix(s, e, "vxtwitter.com/"@);
    } else if ci_at(s, e, "fx.twitter.com/"@) {
        clean_prefix(s, e, "fx.twitter.com/"@);
    } else if ci_at(s, e, "px.twitter.com/"@) {
        clean_prefix(s, e, "px.twitter.com/"@);
    } else if ci_at(s, e, "vx.twitter.com/"@) {
        clean_prefix(s, e, "vx.twitter.com/"@);
    }
}

proof fn word_run(s: Seq<char>, i: int)
    requires
        0 <= i,
    ensures
        forall|k: int| i <= k < next_nonword(s, i) ==> is_word(s[k]),
        next_nonword(s, i) >= i || i > s.len(),
    decreases s.len() - i,
{
    if i < s.len() && is_word(s[i]) {
        word_run(s, i + 1);
    }
}

proof fn path_reaches(s: Seq<char>, j: int, m: int)
    requires
        0 <= j <= m <= s.len(),
        forall|k: int| j <= k < m ==> s[k] != '?' && s[k] != '#',
    ensures
        path_end(s, j) >= m,
    decreases m - j,
{
    if j < m {
        path_reaches(s, j + 1, m);
    } else {
        path_end_bound(s, j);
    }
}

proof fn path_end_bound(s: Seq<char>, i: int)
    requires
        0 <= i <= s.len(),
    ensures
        i <= path_end(s, i) <= s.len(),
    decreases s.len() - i,
{
    if i < s.len() && s[i] != '?' && s[i] != '#' {
        path_end_bound(s, i + 1);
    }
}

proof fn digit_run_bound(s: Seq<char>, i: int)
    requires
        0 <= i <= s.len(),
    ensures
        i <= next_nondigit(s, i) <= s.len(),
    decreases s.len() - i,
{
    if i < s.len() && is_digit(s[i]) {
        digit_run_bound(s, i + 1);
    }
}

proof fn status_found(p: Seq<char>, j: int, w: int)
    requires
        0 <= j <= w,
        0 <= status_digits_start(p, w) < p.len(),
        is_digit(p[status_digits_start(p, w)]),
    ensures
        status_from(p, j).len() > 0,
    decreases w - j,
{
    let d = status_digits_start(p, j);
    if 0 <= d < p.len() && is_digit(p[d]) {
        digit_run_bound(p, d + 1);
        assert(next_nondigit(p, d) > d);
    } else {
        status_found(p, j + 1, w);
    }
}

/// A post link always yields a post identifier: the digits after its
/// `/status/` lie before any query or fragment.
pub proof fn post_link_has_id(url: Seq<char>)
    requires
        short_link(url),
    ensures
        status_id(url).len() > 0,
{
    reveal_strlit("https://");
    reveal_strlit("http://");
    reveal_strlit("/statuses/");
    reveal_strlit("/status/");
    let s = url;
    let sl = scheme_len(s, 0);
    let h = host_end(s, sl);
    let w = next_nonword(s, h);
    let d = status_digits_start(s, w);
    if ci_at(s, 0, "https://"@) {
        clean_prefix(s, 0, "https://"@);
    } else {
        clean_prefix(s, 0, "http://"@);
    }
    host_clean(s, sl);
    word_run(s, h);
    if ci_at(s, w, "/statuses/"@) {
        clean_prefix(s, w, "/statuses/"@);
    } else {
        clean_prefix(s, w, "/status/"@);
    }
    path_reaches(s, 0, d + 1);
    path_end_bound(s, 0);
    let p = url_path(s);
    assert forall|k: int| 0 <= k <= d implies p[k] == s[k] by {}
    assert(ci_at(p, w, "/statuses/"@) == ci_at(s, w, "/statuses/"@));
    assert(ci_at(p, w, "/status/"@) == ci_at(s, w, "/status/"@));
    assert(status_digits_start(p, w) == d);
    status_found(p, 0, w);
}

} // verus!
