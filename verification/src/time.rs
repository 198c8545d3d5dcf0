//! Points in time as the service stores them, the clock, and the arithmetic
//! done on them: expiry dates and whole seconds until a date.
use vstd::prelude::*;
use chrono::{DateTime, Utc};

verus! {

/// Earliest second that a date of the service can hold (1 January of the
/// year -262143, UTC), counted from the Unix epoch.
pub const EARLIEST_SECS: i64 = -8334601315200;

/// Last second that a date of the service can hold (31 December 262142,
/// 23:59:59 UTC), counted from the Unix epoch.
pub const LATEST_SECS: i64 = 8210266876799;

/// Nanoseconds in a second.
pub const NANOS_PER_SEC: i64 = 1000000000;

/// A point in time: whole seconds since the Unix epoch and the nanoseconds
/// past that second.
#[derive(Clone, Copy, Debug, PartialEq, Eq, Structural)]
pub struct UnixTime {
    pub secs: i64,
    pub nanos: u32,
}

impl UnixTime {
    /// A date the service can hold: within the calendar range and with less
    /// than a second of nanoseconds.
    pub open spec fn valid(self) -> bool {
        &&& EARLIEST_SECS <= self.secs <= LATEST_SECS
        &&& self.nanos < 1000000000
    }

    /// The point in time as nanoseconds since the epoch.
    pub open spec fn total_nanos(self) -> int {
        self.secs * 1000000000 + self.nanos
    }
}

/// Whole seconds in `d` nanoseconds, rounded toward zero.
pub open spec fn whole_seconds(d: int) -> int {
    if d >= 0 {
        d / 1000000000
    } else {
        -((-d) / 1000000000)
    }
}

/// chrono's `Utc::now()`, read as seconds and nanoseconds. Claimed, as its
/// source shows (it is built from the system clock's duration since the
/// epoch): the nanoseconds are below one second and the seconds are not
/// negative and within the calendar range. Nothing is said of which instant
/// it is; chrono panics on a system clock set before 1970, which is left
/// unsaid here.
#[verifier::external_body]
pub fn now() -> (t: UnixTime)
    ensures
        t.valid(),
        t.secs >= 0,
{
    let t = Utc::now();
    UnixTime { secs: t.timestamp(), nanos: t.timestamp_subsec_nanos() }
}

/// Whole seconds from `earlier` to `later` rounded toward zero, as chrono's
/// `(later - earlier).num_seconds()` gives them.
pub fn seconds_between(later: UnixTime, earlier: UnixTime) -> (r: i64)
    requires
        later.valid(),
        earlier.valid(),
    ensures
        r == whole_seconds(later.total_nanos() - earlier.total_nanos()),
{
    let d: i128 = (later.secs as i128 - earlier.secs as i128) * 1000000000i128
        + (later.nanos as i128 - earlier.nanos as i128);
    assert(d == later.total_nanos() - earlier.total_nanos()) by (nonlinear_arith)
        requires
            d == (later.secs - earlier.secs) * 1000000000 + (later.nanos - earlier.nanos),
    ;
    let w: i128 = if d >= 0 {
        d / 1000000000i128
    } else {
        -((-d) / 1000000000i128)
    };
    assert(-20000000000000 <= w <= 20000000000000) by (nonlinear_arith)
        requires
            -20000000000000000000000 <= d <= 20000000000000000000000,
            d >= 0 ==> w == d / 1000000000,
            d < 0 ==> w == -((-d) / 1000000000),
    ;
    w as i64
}

/// The date `seconds` after `t`, as chrono's `t + Duration::seconds(seconds)`
/// gives it. chrono panics when that date leaves the calendar range, so
/// that input is left out.
pub fn add_seconds(t: UnixTime, seconds: i64) -> (r: UnixTime)
    requires
        t.valid(),
        EARLIEST_SECS <= t.secs + seconds <= LATEST_SECS,
    ensures
        r.valid(),
        r.secs == t.secs + seconds,
        r.nanos == t.nanos,
{
    UnixTime { secs: t.secs + seconds, nanos: t.nanos }
}

/// The text that chrono's `format("%B %-d, %Y at %H:%M UTC")` gives for the
/// UTC date at `secs` seconds and `nanos` nanoseconds past the epoch (such as
/// "March 5, 2024 at 14:07 UTC").
pub uninterp spec fn calendar_text(secs: i64, nanos: u32) -> Seq<char>;

/// The date formatted by chrono as "%B %-d, %Y at %H:%M UTC". Claimed: the
/// result is `calendar_text` of the date's seconds and nanoseconds; chrono's
/// `DateTime::from_timestamp` accepts every valid date, so the text is
/// always there.
#[verifier::external_body]
pub fn format_calendar(t: UnixTime) -> (r: String)
    requires
        t.valid(),
    ensures
        r@ == calendar_text(t.secs, t.nanos),
{
    DateTime::<Utc>::from_timestamp(t.secs, t.nanos).unwrap().format("%B %-d, %Y at %H:%M UTC").to_string()
}

} // verus!
