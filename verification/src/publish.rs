//! What happens when something new is published: when it expires, whether
//! it is password-protected, the retries for a free key, its names and the
//! public link that is handed back.
use vstd::prelude::*;
use vstd::string::*;
use crate::error::{bad_request, internal, is_bad_request, is_internal, ApiError};
use crate::pages::{cache_header_text, cache_policy_spec, clamp, max_age, CachePolicy, CACHE_YEAR};
use crate::text::decimal;
use crate::time::{add_seconds, now, whole_seconds, UnixTime, EARLIEST_SECS, LATEST_SECS};

verus! {

// ---------------------------------------------------------------- expiry

/// When something published at `now` expires under the user's default
/// lifetime: never without one, else that many seconds later.
pub open spec fn expiry_spec(now: UnixTime, default_seconds: Option<i64>) -> Option<UnixTime> {
    match default_seconds {
        None => None,
        Some(s) => Some(UnixTime { secs: (now.secs + s) as i64, nanos: now.nanos }),
    }
}

/// The lifetime can be added to `now` without leaving the calendar range.
pub open spec fn expiry_in_range(now: UnixTime, default_seconds: Option<i64>) -> bool {
    match default_seconds {
        None => true,
        Some(s) => EARLIEST_SECS <= now.secs + s <= LATEST_SECS,
    }
}

/// The expiry of something published at `now`.
pub fn expires_at(now: UnixTime, default_seconds: Option<i64>) -> (r: Option<UnixTime>)
    requires
        now.valid(),
        expiry_in_range(now, default_seconds),
    ensures
        r == expiry_spec(now, default_seconds),
        r matches Some(t) ==> t.valid(),
{
    match default_seconds {
        None => None,
        Some(s) => Some(add_seconds(now, s)),
    }
}

/// Something published with a lifetime of `s` seconds is, at the moment of
/// publication, exactly `s` whole seconds from expiring: caches are then
/// allowed to keep its page for `s` seconds, or a year when `s` is longer.
pub proof fn lemma_expiry_is_lifetime_away(now: UnixTime, s: i64)
    requires
        now.valid(),
        expiry_in_range(now, Some(s)),
    ensures
        expiry_spec(now, Some(s))->Some_0.valid(),
        whole_seconds(expiry_spec(now, Some(s))->Some_0.total_nanos() - now.total_nanos()) == s,
        max_age(expiry_spec(now, Some(s)), now) == clamp(s as int, 0, CACHE_YEAR as int),
{
    let e = expiry_spec(now, Some(s))->Some_0;
    assert(e.total_nanos() - now.total_nanos() == s * 1000000000) by (nonlinear_arith)
        requires
            e.secs == now.secs + s,
            e.nanos == now.nanos,
    ;
    if s >= 0 {
        assert((s * 1000000000) / 1000000000 == s) by (nonlinear_arith);
    } else {
        assert((-(s * 1000000000)) / 1000000000 == -s) by (nonlinear_arith);
    }
}

/// At the moment of publication, something published with a lifetime of `s`
/// seconds and no password may be kept by caches for exactly `s` seconds
/// (a year when `s` is longer, not at all when it is negative), and its
/// `Cache-Control` says so.
pub proof fn lemma_fresh_page_cached_for_its_lifetime(now: UnixTime, s: i64)
    requires
        now.valid(),
        expiry_in_range(now, Some(s)),
    ensures
        cache_policy_spec(false, expiry_spec(now, Some(s)), now) == CachePolicy::PublicImmutable(
            clamp(s as int, 0, CACHE_YEAR as int) as u32,
        ),
        cache_header_text(cache_policy_spec(false, expiry_spec(now, Some(s)), now)) == "public, max-age="@
            + decimal(clamp(s as int, 0, CACHE_YEAR as int) as nat) + ", immutable"@,
{
    lemma_expiry_is_lifetime_away(now, s);
}

/// The expiry of something published at `now` under the user's default
/// lifetime: none without one, `now` plus the lifetime when that stays in the
/// calendar range, else an internal error.
pub fn expiry_from(now: UnixTime, default_seconds: Option<i64>) -> (r: Result<Option<UnixTime>, ApiError>)
    requires
        now.valid(),
    ensures
        r is Ok <==> expiry_in_range(now, default_seconds),
        r matches Ok(e) ==> e == expiry_spec(now, default_seconds),
        r matches Ok(e) ==> (e matches Some(t) ==> t.valid()),
        r matches Err(e) ==> is_internal(e, "expiry is out of range"@),
{
    match default_seconds {
        None => Ok(None),
        Some(s) => {
            if s > LATEST_SECS - now.secs || s < EARLIEST_SECS - now.secs {
                Err(internal("expiry is out of range"))
            } else {
                Ok(expires_at(now, default_seconds))
            }
        },
    }
}

/// The expiry of something published now: `expiry_from` at the clock's
/// reading. It always succeeds without a lifetime, and for a lifetime between
/// the calendar's start and zero, since the clock never reads before 1970.
pub fn expires_from_now(default_seconds: Option<i64>) -> (r: Result<Option<UnixTime>, ApiError>)
    ensures
        exists|t: UnixTime|
            t.valid() && t.secs >= 0 && (r is Ok <==> expiry_in_range(t, default_seconds)) && (r matches Ok(e)
                ==> e == expiry_spec(t, default_seconds)),
        r matches Ok(e) ==> (e is None <==> default_seconds is None),
        r matches Ok(e) ==> (e matches Some(t) ==> t.valid()),
        r matches Err(e) ==> is_internal(e, "expiry is out of range"@),
        default_seconds is None ==> r == Ok::<Option<UnixTime>, ApiError>(None),
        default_seconds matches Some(s) && EARLIEST_SECS <= s <= 0 ==> r is Ok,
        r is Err ==> (default_seconds matches Some(s) && (s > 0 || s < EARLIEST_SECS)),
{
    let t = now();
    let r = expiry_from(t, default_seconds);
    assert(t.valid() && t.secs >= 0 && (r is Ok <==> expiry_in_range(t, default_seconds)) && (r matches Ok(e)
        ==> e == expiry_spec(t, default_seconds)));
    r
}

// ---------------------------------------------------------------- passwords

/// A password protects something only when it is not empty.
pub open spec fn effective_password(p: Option<String>) -> Option<String> {
    match p {
        Some(s) => if s@.len() > 0 {
            Some(s)
        } else {
            None
        },
        None => None,
    }
}

/// The password given, unless it is empty.
pub fn nonempty_password(p: Option<String>) -> (r: Option<String>)
    ensures
        r == effective_password(p),
{
    match p {
        Some(s) => if s.as_str().is_empty() {
            None
        } else {
            Some(s)
        },
        None => None,
    }
}

// ---------------------------------------------------------------- keys

/// Inserts tried before giving up on finding a free key.
pub const KEY_ATTEMPTS: u32 = 5;

/// What is being published under a generated key.
#[derive(Clone, Copy, Debug, PartialEq, Eq, Structural)]
pub enum KeyedKind {
    Paste,
    ShortLink,
}

/// The error when no free key was found.
pub open spec fn exhausted_message(kind: KeyedKind) -> Seq<char> {
    match kind {
        KeyedKind::Paste => "failed to generate a unique paste key"@,
        KeyedKind::ShortLink => "failed to generate a unique short link key"@,
    }
}

/// What to do after an insert under a fresh key was answered.
#[derive(Clone, Debug)]
pub enum KeyStep {
    /// The key was taken: generate another and insert again.
    Retry,
    /// Stored under this id and key.
    Created { id: String, key: String },
    /// Every attempt hit a taken key.
    Exhausted(ApiError),
}

/// The inserts made so far while looking for a free key.
pub struct KeyAttempts {
    kind: KeyedKind,
    made: u32,
}

impl KeyAttempts {
    /// Inserts answered so far.
    pub closed spec fn made(&self) -> nat {
        self.made as nat
    }

    /// What is being published.
    pub closed spec fn kind(&self) -> KeyedKind {
        self.kind
    }

    /// Another insert may be made.
    pub open spec fn may_insert(&self) -> bool {
        self.made() < KEY_ATTEMPTS
    }

    /// No insert made yet.
    pub fn new(kind: KeyedKind) -> (s: Self)
        ensures
            s.made() == 0,
            s.kind() == kind,
            s.may_insert(),
    {
        KeyAttempts { kind, made: 0 }
    }

    /// Records how an insert was answered (`Some((id, key))` when it was
    /// stored, `None` when the key was taken) and says what comes next: done
    /// when stored, another try while fewer than five inserts were made, else
    /// an internal error.
    pub fn record(&mut self, inserted: Option<(String, String)>) -> (step: KeyStep)
        requires
            old(self).may_insert(),
        ensures
            final(self).made() == old(self).made() + 1,
            final(self).kind() == old(self).kind(),
            inserted matches Some(p) ==> step matches KeyStep::Created { id, key } && id == p.0 && key == p.1,
            inserted is None && final(self).made() < KEY_ATTEMPTS ==> step is Retry,
            inserted is None && final(self).made() >= KEY_ATTEMPTS ==> (step matches KeyStep::Exhausted(e)
                && is_internal(e, exhausted_message(old(self).kind()))),
            step is Retry ==> final(self).may_insert(),
    {
        self.made = self.made + 1;
        match inserted {
            Some((id, key)) => KeyStep::Created { id, key },
            None => {
                if self.made < KEY_ATTEMPTS {
                    KeyStep::Retry
                } else {
                    match self.kind {
                        KeyedKind::Paste => KeyStep::Exhausted(internal("failed to generate a unique paste key")),
                        KeyedKind::ShortLink => KeyStep::Exhausted(
                            internal("failed to generate a unique short link key"),
                        ),
                    }
                }
            },
        }
    }
}

// ---------------------------------------------------------------- links

/// The path segment for a user's prefix: the prefix and a slash, or nothing.
pub open spec fn prefix_segment(prefix: Option<Seq<char>>) -> Seq<char> {
    match prefix {
        Some(p) => p + "/"@,
        None => Seq::empty(),
    }
}

/// The view of an optional text.
pub open spec fn opt_seq(v: Option<String>) -> Option<Seq<char>> {
    match v {
        Some(s) => Some(s@),
        None => None,
    }
}

/// `https://{domain}/{section}{prefix/}{name}`.
pub open spec fn public_url(domain: Seq<char>, section: Seq<char>, prefix: Option<Seq<char>>, name: Seq<char>) -> Seq<char> {
    "https://"@ + domain + "/"@ + section + prefix_segment(prefix) + name
}

fn build_public_url(domain: &str, section: &str, prefix: &Option<String>, name: &str) -> (r: String)
    ensures
        r@ == public_url(domain@, section@, opt_seq(*prefix), name@),
{
    let mut s = "https://".to_owned();
    s.append(domain);
    s.append("/");
    s.append(section);
    match prefix {
        Some(p) => {
            s.append(p.as_str());
            s.append("/");
        },
        None => {},
    }
    s.append(name);
    proof {
        reveal_strlit("");
    }
    assert(s@ =~= public_url(domain@, section@, opt_seq(*prefix), name@));
    s
}

/// The public link of a paste: `https://{domain}/p/{prefix/}{key}`.
pub fn paste_url(domain: &str, prefix: &Option<String>, key: &str) -> (r: String)
    ensures
        r@ == public_url(domain@, "p/"@, opt_seq(*prefix), key@),
{
    build_public_url(domain, "p/", prefix, key)
}

/// The public link of a short link: `https://{domain}/l/{prefix/}{key}`.
pub fn short_link_url(domain: &str, prefix: &Option<String>, key: &str) -> (r: String)
    ensures
        r@ == public_url(domain@, "l/"@, opt_seq(*prefix), key@),
{
    build_public_url(domain, "l/", prefix, key)
}

/// The public link of a file: its page, `https://{domain}/{prefix/}{name}`,
/// or its raw bytes, `https://{domain}/{prefix/}raw/{name}`, when the user
/// wants raw links only.
pub fn file_url(domain: &str, prefix: &Option<String>, raw_links_only: bool, display_name: &str) -> (r: String)
    ensures
        raw_links_only ==> r@ == "https://"@ + domain@ + "/"@ + prefix_segment(opt_seq(*prefix)) + "raw/"@
            + display_name@,
        !raw_links_only ==> r@ == "https://"@ + domain@ + "/"@ + prefix_segment(opt_seq(*prefix))
            + display_name@,
{
    let mut s = "https://".to_owned();
    s.append(domain);
    s.append("/");
    match prefix {
        Some(p) => {
            s.append(p.as_str());
            s.append("/");
        },
        None => {},
    }
    if raw_links_only {
        s.append("raw/");
    }
    s.append(display_name);
    proof {
        reveal_strlit("");
    }
    if raw_links_only {
        assert(s@ =~= "https://"@ + domain@ + "/"@ + prefix_segment(opt_seq(*prefix)) + "raw/"@ + display_name@);
    } else {
        assert(s@ =~= "https://"@ + domain@ + "/"@ + prefix_segment(opt_seq(*prefix)) + display_name@);
    }
    s
}

// ---------------------------------------------------------------- uploads

/// An upload without bytes is refused.
pub fn require_file(len: usize) -> (r: Result<(), ApiError>)
    ensures
        r is Ok <==> len > 0,
        r matches Err(e) ==> is_bad_request(e, "missing file"@),
{
    if len == 0 {
        Err(bad_request("missing file"))
    } else {
        Ok(())
    }
}

/// The name a file is served under: the generated stem, with `.` and the
/// extension when the user wants extensions.
pub fn display_name_for(stem: String, extension: &str, include_extension: bool) -> (r: String)
    ensures
        include_extension ==> r@ == stem@ + "."@ + extension@,
        !include_extension ==> r@ == stem@,
{
    if include_extension {
        let mut s = stem;
        s.append(".");
        s.append(extension);
        s
    } else {
        stem
    }
}

/// The storage key of a file's bytes: its fresh id, `.` and the extension.
pub fn storage_key(id: &str, extension: &str) -> (r: String)
    ensures
        r@ == id@ + "."@ + extension@,
{
    let mut s = id.to_owned();
    s.append(".");
    s.append(extension);
    s
}

/// The stored size of an upload of `len` bytes.
pub fn stored_size(len: usize) -> (r: i64)
    requires
        len <= i64::MAX,
    ensures
        r == len,
{
    len as i64
}

} // verus!
