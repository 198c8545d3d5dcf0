//! Changes to a user's upload settings.
use vstd::prelude::*;
use crate::error::{bad_request, internal, is_bad_request, is_internal, ApiError};

verus! {

/// How long new uploads live before they are swept, as a user picks it.
#[derive(Clone, Copy, Debug, PartialEq, Eq, Structural)]
pub enum SelfDestructDuration {
    OneHour,
    ThreeHours,
    TwelveHours,
    OneDay,
    ThreeDays,
    OneWeek,
    Never,
}

/// Seconds in one hour.
pub const HOUR_SECONDS: i64 = 3600;

impl SelfDestructDuration {
    /// The lifetime in seconds, `None` for uploads that never expire.
    pub open spec fn seconds_spec(self) -> Option<i64> {
        match self {
            SelfDestructDuration::OneHour => Some(3600i64),
            SelfDestructDuration::ThreeHours => Some(10800i64),
            SelfDestructDuration::TwelveHours => Some(43200i64),
            SelfDestructDuration::OneDay => Some(86400i64),
            SelfDestructDuration::ThreeDays => Some(259200i64),
            SelfDestructDuration::OneWeek => Some(604800i64),
            SelfDestructDuration::Never => None,
        }
    }

    pub fn to_seconds(&self) -> (r: Option<i64>)
        ensures
            r == self.seconds_spec(),
    {
        match self {
            SelfDestructDuration::OneHour => Some(HOUR_SECONDS),
            SelfDestructDuration::ThreeHours => Some(3 * HOUR_SECONDS),
            SelfDestructDuration::TwelveHours => Some(12 * HOUR_SECONDS),
            SelfDestructDuration::OneDay => Some(24 * HOUR_SECONDS),
            SelfDestructDuration::ThreeDays => Some(3 * 24 * HOUR_SECONDS),
            SelfDestructDuration::OneWeek => Some(7 * 24 * HOUR_SECONDS),
            SelfDestructDuration::Never => None,
        }
    }
}

/// Shortest generated name a user may choose.
pub const MIN_DISPLAY_NAME_LENGTH: i16 = 16;

/// Longest generated name a user may choose.
pub const MAX_DISPLAY_NAME_LENGTH: i16 = 32;

/// A change to the upload settings: each field that is given replaces the
/// stored one.
#[derive(Clone, Debug)]
pub struct UpdateSettingsRequest {
    pub display_name_length: Option<i16>,
    /// The name of the style generated names follow.
    pub display_name_style: Option<String>,
    pub display_name_include_extension: Option<bool>,
    pub raw_links_only: Option<bool>,
    pub default_expires_in_seconds: Option<SelfDestructDuration>,
    pub lossless_images: Option<bool>,
}

/// What is written to the stored settings: each `Some` replaces the stored
/// value, `None` keeps it; the default lifetime is replaced by
/// `default_expires_in_seconds` when `replace_default_expiry` is set.
#[derive(Clone, Debug)]
pub struct SettingsUpdate {
    pub display_name_length: Option<i16>,
    pub display_name_style: Option<String>,
    pub display_name_include_extension: Option<bool>,
    pub raw_links_only: Option<bool>,
    pub replace_default_expiry: bool,
    pub default_expires_in_seconds: Option<i64>,
    pub lossless_images: Option<bool>,
}

/// The request names no setting at all.
pub open spec fn names_nothing(req: UpdateSettingsRequest) -> bool {
    &&& req.display_name_length is None
    &&& req.display_name_style is None
    &&& req.display_name_include_extension is None
    &&& req.raw_links_only is None
    &&& req.default_expires_in_seconds is None
    &&& req.lossless_images is None
}

/// The requested name length is outside 16 to 32.
pub open spec fn length_out_of_range(req: UpdateSettingsRequest) -> bool {
    req.display_name_length matches Some(n) && (n < MIN_DISPLAY_NAME_LENGTH || n > MAX_DISPLAY_NAME_LENGTH)
}

/// The new default lifetime in seconds, `None` for never expiring.
pub open spec fn requested_expiry(req: UpdateSettingsRequest) -> Option<i64> {
    match req.default_expires_in_seconds {
        Some(d) => d.seconds_spec(),
        None => None,
    }
}

/// Turns a settings change into what is written: refused when the name
/// length is outside 16 to 32 (`display_name_length: must be between 16 and
/// 32`) or when it names no setting (`no settings fields provided`);
/// otherwise every given field is written, and the default lifetime is
/// replaced exactly when one is given (with `never` clearing it).
pub fn plan_settings_update(req: UpdateSettingsRequest) -> (r: Result<SettingsUpdate, ApiError>)
    ensures
        length_out_of_range(req) ==> (r matches Err(e) && is_bad_request(
            e,
            "display_name_length: must be between 16 and 32"@,
        )),
        !length_out_of_range(req) && names_nothing(req) ==> (r matches Err(e) && is_bad_request(
            e,
            "no settings fields provided"@,
        )),
        r is Ok <==> !length_out_of_range(req) && !names_nothing(req),
        r matches Ok(u) ==> {
            &&& u.display_name_length == req.display_name_length
            &&& u.display_name_style == req.display_name_style
            &&& u.display_name_include_extension == req.display_name_include_extension
            &&& u.raw_links_only == req.raw_links_only
            &&& u.replace_default_expiry == req.default_expires_in_seconds is Some
            &&& u.default_expires_in_seconds == requested_expiry(req)
            &&& u.lossless_images == req.lossless_images
        },
{
    match req.display_name_length {
        Some(n) => {
            if n < MIN_DISPLAY_NAME_LENGTH || n > MAX_DISPLAY_NAME_LENGTH {
                return Err(bad_request("display_name_length: must be between 16 and 32"));
            }
        },
        None => {},
    }
    let replace_default_expiry = req.default_expires_in_seconds.is_some();
    if req.display_name_length.is_none() && req.display_name_style.is_none()
        && req.display_name_include_extension.is_none() && req.raw_links_only.is_none()
        && !replace_default_expiry && req.lossless_images.is_none() {
        return Err(bad_request("no settings fields provided"));
    }
    let default_expires_in_seconds = match &req.default_expires_in_seconds {
        Some(d) => d.to_seconds(),
        None => None,
    };
    Ok(SettingsUpdate {
        display_name_length: req.display_name_length,
        display_name_style: req.display_name_style,
        display_name_include_extension: req.display_name_include_extension,
        raw_links_only: req.raw_links_only,
        replace_default_expiry,
        default_expires_in_seconds,
        lossless_images: req.lossless_images,
    })
}

/// A settings change that touched no row means the user has no settings.
pub fn require_settings_row(rows_affected: u64) -> (r: Result<(), ApiError>)
    ensures
        r is Ok <==> rows_affected > 0,
        r matches Err(e) ==> is_internal(e, "user has no settings row to update"@),
{
    if rows_affected == 0 {
        Err(internal("user has no settings row to update"))
    } else {
        Ok(())
    }
}

/// The stored settings after an update is written: what the update gives
/// replaces, the rest stays.
pub open spec fn apply_update(old: crate::records::UserSettings, u: SettingsUpdate) -> crate::records::UserSettings {
    crate::records::UserSettings {
        display_name_length: match u.display_name_length {
            Some(n) => n,
            None => old.display_name_length,
        },
        display_name_style: match u.display_name_style {
            Some(s) => s,
            None => old.display_name_style,
        },
        display_name_include_extension: match u.display_name_include_extension {
            Some(b) => b,
            None => old.display_name_include_extension,
        },
        raw_links_only: match u.raw_links_only {
            Some(b) => b,
            None => old.raw_links_only,
        },
        default_expires_in_seconds: if u.replace_default_expiry {
            u.default_expires_in_seconds
        } else {
            old.default_expires_in_seconds
        },
        lossless_images: match u.lossless_images {
            Some(b) => b,
            None => old.lossless_images,
        },
    }
}

/// Writing the same settings change twice leaves what writing it once
/// leaves.
pub proof fn lemma_update_idempotent(old: crate::records::UserSettings, u: SettingsUpdate)
    ensures
        apply_update(apply_update(old, u), u) == apply_update(old, u),
{
}

/// Every lifetime a user can pick is at most a week, and only "never" has
/// none.
pub proof fn lemma_durations_at_most_a_week(d: SelfDestructDuration)
    ensures
        d.seconds_spec() is None <==> d == SelfDestructDuration::Never,
        d.seconds_spec() matches Some(s) ==> 3600 <= s <= 604800,
{
}

} // verus!
