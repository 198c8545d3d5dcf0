//! What the viewer decides for a paste or file page: who may see it, how
//! long caches may keep it, the raw link, the paste page's HTML and the
//! shape of a raw-file response.
use vstd::prelude::*;
use vstd::string::*;
use crate::error::ApiError;
use crate::records::{StoredFile, StoredPaste};
use crate::text::{
    decimal, decimal_text, escape_html, lemma_occurs_in_extended, lemma_occurs_in_run, lemma_prefix_of_longer,
    occurs_in, percent_encode_text, percent_encoded, push_escaped,
};
use crate::time::{calendar_text, format_calendar, now, seconds_between, whole_seconds, UnixTime, LATEST_SECS};

verus! {

/// One year in seconds: the longest time a cache may keep a page.
pub const CACHE_YEAR: i64 = 31536000;

// ---------------------------------------------------------------- access

/// The query of a paste page: the password, for protected pastes.
#[derive(Clone, Debug)]
pub struct PasteQuery {
    pub password: Option<String>,
}

/// The query of a file page or raw file: the password, for protected files.
#[derive(Clone, Debug)]
pub struct ViewQuery {
    pub password: Option<String>,
}

/// How to decide whether a request may see a protected page.
#[derive(Clone, Debug, PartialEq, Eq)]
pub enum Unlock {
    /// Not protected: shown to everyone.
    Open,
    /// Protected and no password was given: hidden.
    Locked,
    /// Protected: shown when `password` matches `hash`.
    Verify { password: String, hash: String },
}

/// How a page protected by `hash` (if any) is unlocked by the password
/// given with the request (if any).
pub open spec fn unlock_spec(hash: Option<Seq<char>>, given: Option<Seq<char>>, u: Unlock) -> bool {
    match hash {
        None => u == Unlock::Open,
        Some(h) => match given {
            None => u == Unlock::Locked,
            Some(g) => u matches Unlock::Verify { password, hash } && password@ == g && hash@ == h,
        },
    }
}

/// The view of an optional text.
pub open spec fn opt_view(v: Option<String>) -> Option<Seq<char>> {
    match v {
        Some(s) => Some(s@),
        None => None,
    }
}

/// The view of an optional borrowed text.
pub open spec fn opt_str_view(v: Option<&str>) -> Option<Seq<char>> {
    match v {
        Some(s) => Some(s@),
        None => None,
    }
}

/// Whether a page with the stored password hash can be shown for the given
/// password: open pages always, protected pages never without a password,
/// else after the password is checked against the hash.
pub fn plan_unlock(hash: &Option<String>, given: Option<&str>) -> (u: Unlock)
    ensures
        unlock_spec(opt_view(*hash), opt_str_view(given), u),
{
    match hash {
        None => Unlock::Open,
        Some(h) => match given {
            None => Unlock::Locked,
            Some(g) => Unlock::Verify { password: g.to_owned(), hash: h.clone() },
        },
    }
}

/// A page that could not be unlocked is answered as if it did not exist.
pub fn require_unlocked(unlocked: bool) -> (r: Result<(), ApiError>)
    ensures
        unlocked ==> r is Ok,
        !unlocked ==> r == Err::<(), ApiError>(ApiError::NotFound),
{
    if unlocked {
        Ok(())
    } else {
        Err(ApiError::NotFound)
    }
}

// ---------------------------------------------------------------- caching

/// `v` clamped into `[lo, hi]`.
pub open spec fn clamp(v: int, lo: int, hi: int) -> int {
    if v < lo {
        lo
    } else if v > hi {
        hi
    } else {
        v
    }
}

/// How long caches may keep a page that expires at `expires` (if ever),
/// seen at `now`: the whole seconds left, between zero and a year.
pub open spec fn max_age(expires: Option<UnixTime>, now: UnixTime) -> int {
    match expires {
        None => CACHE_YEAR as int,
        Some(e) => clamp(whole_seconds(e.total_nanos() - now.total_nanos()), 0, CACHE_YEAR as int),
    }
}

/// Seconds that caches may keep a page expiring at `expires`, seen at `now`.
pub fn cache_max_age(expires: Option<UnixTime>, now: UnixTime) -> (r: u32)
    requires
        now.valid(),
        expires matches Some(e) ==> e.valid(),
    ensures
        r == max_age(expires, now),
{
    match expires {
        None => 31536000u32,
        Some(e) => {
            let left = seconds_between(e, now);
            if left < 0 {
                0
            } else if left > CACHE_YEAR {
                31536000u32
            } else {
                left as u32
            }
        },
    }
}

/// The caching a page gets.
#[derive(Clone, Copy, Debug, PartialEq, Eq, Structural)]
pub enum CachePolicy {
    /// Password-protected pages are never stored.
    NoStore,
    /// Other pages may be kept for this many seconds and never change.
    PublicImmutable(u32),
}

/// `Cache-Control` for a page: not stored when password-protected, else
/// public and immutable for the seconds left until it expires (at most a
/// year, a year when it never expires).
pub open spec fn cache_policy_spec(has_password: bool, expires: Option<UnixTime>, now: UnixTime) -> CachePolicy {
    if has_password {
        CachePolicy::NoStore
    } else {
        CachePolicy::PublicImmutable(max_age(expires, now) as u32)
    }
}

/// The `Cache-Control` header text of a policy.
pub open spec fn cache_header_text(p: CachePolicy) -> Seq<char> {
    match p {
        CachePolicy::NoStore => "no-store"@,
        CachePolicy::PublicImmutable(age) => "public, max-age="@ + decimal(age as nat) + ", immutable"@,
    }
}

impl CachePolicy {
    /// The header text: `no-store`, or `public, max-age=N, immutable`.
    pub fn header_value(&self) -> (r: String)
        ensures
            r@ == cache_header_text(*self),
    {
        match self {
            CachePolicy::NoStore => "no-store".to_owned(),
            CachePolicy::PublicImmutable(age) => {
                let mut s = "public, max-age=".to_owned();
                let digits = decimal_text(*age as u64);
                s.append(digits.as_str());
                s.append(", immutable");
                s
            },
        }
    }
}

/// The caching of a page, seen at `now`.
pub fn cache_policy_at(has_password: bool, expires: Option<UnixTime>, now: UnixTime) -> (p: CachePolicy)
    requires
        now.valid(),
        expires matches Some(e) ==> e.valid(),
    ensures
        p == cache_policy_spec(has_password, expires, now),
{
    if has_password {
        CachePolicy::NoStore
    } else {
        CachePolicy::PublicImmutable(cache_max_age(expires, now))
    }
}

/// The caching of a raw file, seen now.
pub fn file_cache_policy(file: &StoredFile) -> (p: CachePolicy)
    requires
        file.expires_at matches Some(e) ==> e.valid(),
    ensures
        exists|t: UnixTime| t.valid() && p == cache_policy_spec(file.password_hash is Some, file.expires_at, t),
        file.password_hash is Some ==> p == CachePolicy::NoStore,
        file.password_hash is None && file.expires_at is None ==> p == CachePolicy::PublicImmutable(31536000),
{
    let t = now();
    cache_policy_at(file.password_hash.is_some(), file.expires_at, t)
}

/// The `Cache-Control` text of a paste page, seen now.
pub fn paste_cache_control(paste: &StoredPaste) -> (r: String)
    requires
        paste.expires_at matches Some(e) ==> e.valid(),
    ensures
        exists|t: UnixTime|
            t.valid() && r@ == cache_header_text(cache_policy_spec(paste.password_hash is Some, paste.expires_at, t)),
        paste.password_hash is Some ==> r@ == "no-store"@,
        paste.password_hash is None && paste.expires_at is None ==> r@ == cache_header_text(
            CachePolicy::PublicImmutable(31536000),
        ),
{
    let t = now();
    let p = cache_policy_at(paste.password_hash.is_some(), paste.expires_at, t);
    p.header_value()
}

/// Password-protected pages are never stored by caches, whatever their
/// expiry.
pub proof fn lemma_protected_pages_never_cached(expires: Option<UnixTime>, now: UnixTime)
    ensures
        cache_policy_spec(true, expires, now) == CachePolicy::NoStore,
{
}

/// A protected page is never shown without a password, and an open page
/// never asks for one.
pub proof fn lemma_protected_pages_need_a_password(hash: Option<Seq<char>>, given: Option<Seq<char>>, u: Unlock)
    requires
        unlock_spec(hash, given, u),
    ensures
        hash is Some && given is None ==> u == Unlock::Locked,
        hash is Some ==> u != Unlock::Open,
        hash is None ==> u == Unlock::Open,
{
}

/// Seen `d` seconds later, a page that expires at `e` may be kept `d` seconds
/// less, and never less than not at all: the max-age counts down with the
/// clock to zero at the expiry.
pub proof fn lemma_max_age_counts_down(e: UnixTime, earlier: UnixTime, d: i64)
    requires
        e.valid(),
        earlier.valid(),
        0 <= d,
        earlier.secs + d <= LATEST_SECS,
    ensures
        max_age(Some(e), UnixTime { secs: (earlier.secs + d) as i64, nanos: earlier.nanos }) == clamp(
            whole_seconds(e.total_nanos() - earlier.total_nanos()) - d,
            0,
            CACHE_YEAR as int,
        ),
{
    let later = UnixTime { secs: (earlier.secs + d) as i64, nanos: earlier.nanos };
    let x = e.total_nanos() - earlier.total_nanos();
    let y = e.total_nanos() - later.total_nanos();
    assert(y == x - d * 1000000000);
    if x >= 0 {
        let q = x / 1000000000;
        let r = x % 1000000000;
        assert(x == q * 1000000000 + r && 0 <= r < 1000000000);
        if y >= 0 {
            assert(y / 1000000000 == q - d);
        } else {
            assert(q - d <= 0);
            assert((-y) / 1000000000 >= d - q - 1);
        }
    } else {
        assert(y < 0);
        let q = (-x) / 1000000000;
        assert((-y) / 1000000000 == q + d);
    }
}

/// A policy's max-age never exceeds a year.
pub proof fn lemma_max_age_bounded(expires: Option<UnixTime>, now: UnixTime)
    ensures
        0 <= max_age(expires, now) <= CACHE_YEAR,
{
}

// ---------------------------------------------------------------- links

/// The path of a file's raw bytes.
pub open spec fn raw_path_spec(prefix: Option<Seq<char>>, display_name: Seq<char>) -> Seq<char> {
    match prefix {
        None => "/raw/"@ + display_name,
        Some(p) => "/"@ + p + "/raw/"@ + display_name,
    }
}

/// `/raw/{name}`, or `/{prefix}/raw/{name}` on a prefixed domain.
pub fn raw_path(prefix: Option<&str>, display_name: &str) -> (r: String)
    ensures
        r@ == raw_path_spec(opt_str_view(prefix), display_name@),
{
    match prefix {
        None => {
            let mut s = "/raw/".to_owned();
            s.append(display_name);
            s
        },
        Some(p) => {
            let mut s = "/".to_owned();
            s.append(p);
            s.append("/raw/");
            s.append(display_name);
            s
        },
    }
}

/// The raw link with the password, percent-encoded, when one was given.
pub open spec fn raw_url_spec(base: Seq<char>, password: Option<&str>) -> Seq<char> {
    match password {
        None => base,
        Some(p) => base + "?password="@ + percent_encoded(p.spec_bytes()),
    }
}

/// `base`, with `?password=` and the percent-encoded password appended when
/// a password was given, so that the preview can load a protected file.
pub fn raw_url_for(base: &str, password: Option<&str>) -> (r: String)
    ensures
        r@ == raw_url_spec(base@, password),
{
    match password {
        None => base.to_owned(),
        Some(p) => {
            let mut s = base.to_owned();
            s.append("?password=");
            let enc = percent_encode_text(p);
            s.append(enc.as_str());
            s
        },
    }
}

// ---------------------------------------------------------------- paste page

/// The title a paste page shows.
pub open spec fn paste_title(paste: StoredPaste) -> Seq<char> {
    match paste.title {
        Some(t) => t@,
        None => "Paste"@,
    }
}

/// The syntax name a paste page shows.
pub open spec fn paste_syntax(paste: StoredPaste) -> Seq<char> {
    match paste.syntax {
        Some(s) => s@,
        None => "plain text"@,
    }
}

/// The HTML of a paste page: title, syntax, creation date and content, all
/// escaped.
pub open spec fn paste_page(paste: StoredPaste) -> Seq<char> {
    let title = paste_title(paste);
    "<!DOCTYPE html>"@
        + "<html><head><meta charset=\"utf-8\"><meta name=\"viewport\" content=\"width=device-width, initial-scale=1\"><title>"@
        + escape_html(title) + "</title><meta property=\"og:title\" content=\""@ + escape_html(title)
        + "\"><meta property=\"og:site_name\" content=\"iono\"><meta name=\"theme-color\" content=\"#7c3aed\"></head><body><main><header><h1>"@
        + escape_html(title) + "</h1><p>"@ + escape_html(paste_syntax(paste)) + " / "@ + escape_html(
        calendar_text(paste.created_at.secs, paste.created_at.nanos),
    ) + "</p></header><pre><code>"@ + escape_html(paste.content@)
        + "</code></pre></main></body></html>"@
}

/// The HTML page of a paste.
pub fn render_html(paste: &StoredPaste) -> (r: String)
    requires
        paste.created_at.valid(),
    ensures
        r@ == paste_page(*paste),
{
    let title: &str = match &paste.title {
        Some(t) => t.as_str(),
        None => "Paste",
    };
    let syntax: &str = match &paste.syntax {
        Some(s) => s.as_str(),
        None => "plain text",
    };
    let created = format_calendar(paste.created_at);
    let mut out = "<!DOCTYPE html>".to_owned();
    out.append(
        "<html><head><meta charset=\"utf-8\"><meta name=\"viewport\" content=\"width=device-width, initial-scale=1\"><title>",
    );
    push_escaped(&mut out, title);
    out.append("</title><meta property=\"og:title\" content=\"");
    push_escaped(&mut out, title);
    out.append(
        "\"><meta property=\"og:site_name\" content=\"iono\"><meta name=\"theme-color\" content=\"#7c3aed\"></head><body><main><header><h1>",
    );
    push_escaped(&mut out, title);
    out.append("</h1><p>");
    push_escaped(&mut out, syntax);
    out.append(" / ");
    push_escaped(&mut out, created.as_str());
    out.append("</p></header><pre><code>");
    push_escaped(&mut out, paste.content.as_str());
    out.append("</code></pre></main></body></html>");
    assert(out@ =~= paste_page(*paste));
    out
}

/// A paste page opens with a `<title>` holding the paste's title, or "Paste"
/// when it has none, escaped; its header line names the paste's syntax, or
/// "plain text" when it has none, escaped, before the " / " that leads to
/// the creation date.
pub proof fn lemma_paste_page_header(paste: StoredPaste)
    ensures
        ({
            let title = match paste.title {
                Some(t) => t@,
                None => "Paste"@,
            };
            ("<!DOCTYPE html>"@
                + "<html><head><meta charset=\"utf-8\"><meta name=\"viewport\" content=\"width=device-width, initial-scale=1\"><title>"@
                + escape_html(title) + "</title><meta property=\"og:title\" content=\""@).is_prefix_of(
                paste_page(paste),
            )
        }),
        paste.syntax matches Some(s) ==> occurs_in("</h1><p>"@ + escape_html(s@) + " / "@, paste_page(paste)),
        paste.syntax is None ==> occurs_in("</h1><p>"@ + escape_html("plain text"@) + " / "@, paste_page(paste)),
{
    let title = paste_title(paste);
    let e_title = escape_html(title);
    let e_syntax = escape_html(paste_syntax(paste));
    let e_date = escape_html(calendar_text(paste.created_at.secs, paste.created_at.nanos));
    let e_content = escape_html(paste.content@);
    let d = "<!DOCTYPE html>"@;
    let m = "<html><head><meta charset=\"utf-8\"><meta name=\"viewport\" content=\"width=device-width, initial-scale=1\"><title>"@;
    let t1 = "</title><meta property=\"og:title\" content=\""@;
    let h = "\"><meta property=\"og:site_name\" content=\"iono\"><meta name=\"theme-color\" content=\"#7c3aed\"></head><body><main><header><h1>"@;
    let p1 = "</h1><p>"@;
    let sep = " / "@;
    let p2 = "</p></header><pre><code>"@;
    let z = "</code></pre></main></body></html>"@;
    let page = paste_page(paste);
    assert(page == d + m + e_title + t1 + e_title + h + e_title + p1 + e_syntax + sep + e_date + p2 + e_content + z);

    // the title element
    let opening = d + m + e_title + t1;
    assert(opening.is_prefix_of(opening)) by {
        assert(opening.subrange(0, opening.len() as int) =~= opening);
    }
    lemma_prefix_of_longer(opening, opening, e_title);
    lemma_prefix_of_longer(opening, opening + e_title, h);
    lemma_prefix_of_longer(opening, opening + e_title + h, e_title);
    lemma_prefix_of_longer(opening, opening + e_title + h + e_title, p1);
    lemma_prefix_of_longer(opening, opening + e_title + h + e_title + p1, e_syntax);
    lemma_prefix_of_longer(opening, opening + e_title + h + e_title + p1 + e_syntax, sep);
    lemma_prefix_of_longer(opening, opening + e_title + h + e_title + p1 + e_syntax + sep, e_date);
    lemma_prefix_of_longer(opening, opening + e_title + h + e_title + p1 + e_syntax + sep + e_date, p2);
    lemma_prefix_of_longer(opening, opening + e_title + h + e_title + p1 + e_syntax + sep + e_date + p2, e_content);
    lemma_prefix_of_longer(
        opening,
        opening + e_title + h + e_title + p1 + e_syntax + sep + e_date + p2 + e_content,
        z,
    );

    // the syntax in the header line
    let before = opening + e_title + h + e_title;
    let line = p1 + e_syntax + sep;
    lemma_occurs_in_run(before, p1, e_syntax, sep);
    lemma_occurs_in_extended(line, before + p1 + e_syntax + sep, Seq::empty(), e_date);
    lemma_occurs_in_extended(line, before + p1 + e_syntax + sep + e_date, Seq::empty(), p2);
    lemma_occurs_in_extended(line, before + p1 + e_syntax + sep + e_date + p2, Seq::empty(), e_content);
    lemma_occurs_in_extended(line, before + p1 + e_syntax + sep + e_date + p2 + e_content, Seq::empty(), z);
}

// ---------------------------------------------------------------- raw response

/// How a raw file is answered.
#[derive(Clone, Debug)]
pub struct RawResponse {
    /// `206 Partial Content` when storage answered a range, else `200 OK`.
    pub partial: bool,
    pub content_type: String,
    /// Shown in the browser (`inline`) or downloaded (`attachment`).
    pub inline: bool,
    /// The file name offered with the disposition.
    pub filename: String,
    pub cache: CachePolicy,
    /// The `Content-Range` that storage answered with, if any.
    pub content_range: Option<String>,
    /// The body's length when storage knows it; the body is then sent
    /// without chunking.
    pub content_length: Option<u64>,
}

/// The response to a raw-file request, given what storage answered and
/// whether the file's type is safe to show inline, seen now.
pub fn plan_raw_response(
    file: &StoredFile,
    inline_safe: bool,
    content_range: Option<String>,
    content_length: Option<u64>,
) -> (r: RawResponse)
    requires
        file.expires_at matches Some(e) ==> e.valid(),
    ensures
        r.partial == content_range is Some,
        r.content_type@ == file.content_type@,
        r.inline == inline_safe,
        r.filename@ == file.display_name@,
        exists|t: UnixTime| t.valid() && r.cache == cache_policy_spec(file.password_hash is Some, file.expires_at, t),
        file.password_hash is Some ==> r.cache == CachePolicy::NoStore,
        r.content_range == content_range,
        r.content_length == content_length,
{
    let cache = file_cache_policy(file);
    RawResponse {
        partial: content_range.is_some(),
        content_type: file.content_type.clone(),
        inline: inline_safe,
        filename: file.display_name.clone(),
        cache,
        content_range,
        content_length,
    }
}

} // verus!
