//! Account security: password changes, re-authentication, TOTP, recovery
//! codes and passkeys, and the token version that every credential change
//! bumps.
use vstd::prelude::*;
use vstd::string::*;
use crate::error::{bad_request, conflict, is_bad_request, is_conflict, ApiError};
use crate::time::{add_seconds, UnixTime, LATEST_SECS};

verus! {

// ---------------------------------------------------------------- token version

/// The token version after a credential change. Every token issued before
/// carries an older version and is refused from then on.
pub fn next_token_version(v: i32) -> (r: i32)
    requires
        v < i32::MAX,
    ensures
        r == v + 1,
        r > v,
{
    v + 1
}

// ---------------------------------------------------------------- checks

/// A missing record is answered with not found.
pub fn require_found(found: bool) -> (r: Result<(), ApiError>)
    ensures
        found ==> r is Ok,
        !found ==> r == Err::<(), ApiError>(ApiError::NotFound),
{
    if found {
        Ok(())
    } else {
        Err(ApiError::NotFound)
    }
}

/// A failed password or code check is answered with unauthorized.
pub fn require_verified(verified: bool) -> (r: Result<(), ApiError>)
    ensures
        verified ==> r is Ok,
        !verified ==> r == Err::<(), ApiError>(ApiError::Unauthorized),
{
    if verified {
        Ok(())
    } else {
        Err(ApiError::Unauthorized)
    }
}

// ---------------------------------------------------------------- password change

/// Longest password accepted.
pub const MAX_PASSWORD_LENGTH: usize = 256;

/// Shortest new password accepted.
pub const MIN_NEW_PASSWORD_LENGTH: usize = 8;

/// A password change as a user sends it.
#[derive(Clone, Debug)]
pub struct ChangePasswordRequest {
    pub current_password: String,
    pub new_password: String,
}

/// The message for a too long current password.
pub open spec fn current_password_message() -> Seq<char> {
    "current_password: current password must be at most 256 characters"@
}

/// The message for a new password of the wrong length.
pub open spec fn new_password_message() -> Seq<char> {
    "new_password: new password must be 8-256 characters"@
}

/// The messages of the failing checks, one per line, in field order.
pub open spec fn change_password_problem(req: ChangePasswordRequest) -> Option<Seq<char>> {
    let bad_current = req.current_password@.len() > MAX_PASSWORD_LENGTH;
    let bad_new = req.new_password@.len() < MIN_NEW_PASSWORD_LENGTH || req.new_password@.len()
        > MAX_PASSWORD_LENGTH;
    if bad_current && bad_new {
        Some(current_password_message() + "\n"@ + new_password_message())
    } else if bad_current {
        Some(current_password_message())
    } else if bad_new {
        Some(new_password_message())
    } else {
        None
    }
}

/// Accepts a password change whose current password has at most 256
/// characters and whose new password has 8 to 256; else a bad request
/// naming each failing field.
pub fn validate_change_password(req: &ChangePasswordRequest) -> (r: Result<(), ApiError>)
    ensures
        r is Ok <==> change_password_problem(*req) is None,
        r matches Err(e) ==> is_bad_request(e, change_password_problem(*req)->Some_0),
{
    let current = req.current_password.as_str().unicode_len();
    let new = req.new_password.as_str().unicode_len();
    let bad_current = current > MAX_PASSWORD_LENGTH;
    let bad_new = new < MIN_NEW_PASSWORD_LENGTH || new > MAX_PASSWORD_LENGTH;
    if bad_current && bad_new {
        let mut m = "current_password: current password must be at most 256 characters".to_owned();
        m.append("\n");
        m.append("new_password: new password must be 8-256 characters");
        Err(ApiError::BadRequest(m))
    } else if bad_current {
        Err(bad_request("current_password: current password must be at most 256 characters"))
    } else if bad_new {
        Err(bad_request("new_password: new password must be 8-256 characters"))
    } else {
        Ok(())
    }
}

/// The stored password hash, or a bad request for accounts that have none.
pub fn require_password_hash(hash: &Option<String>) -> (r: Result<String, ApiError>)
    ensures
        hash matches Some(h) ==> r matches Ok(v) && v@ == h@,
        hash is None ==> (r matches Err(e) && is_bad_request(e, "account has no password set"@)),
{
    match hash {
        Some(h) => Ok(h.clone()),
        None => Err(bad_request("account has no password set")),
    }
}

// ---------------------------------------------------------------- re-authentication

/// A sensitive change confirmed with either the password or a TOTP code.
#[derive(Clone, Debug)]
pub struct ReauthRequest {
    pub password: Option<String>,
    pub totp_code: Option<String>,
}

/// Which check confirms a sensitive change.
#[derive(Clone, Debug)]
pub enum ReauthCheck {
    /// The password against the stored hash.
    Password { password: String, hash: String },
    /// The code against the stored TOTP secret.
    Totp { code: String, secret: String },
}

/// The check that `req` asks for on an account with the given password hash
/// and TOTP secret, or the error it is refused with.
pub open spec fn reauth_spec(
    hash: Option<String>,
    secret: Option<String>,
    req: ReauthRequest,
    r: Result<ReauthCheck, ApiError>,
) -> bool {
    match (req.password, req.totp_code) {
        (Some(p), None) => match hash {
            Some(h) => r matches Ok(ReauthCheck::Password { password, hash }) && password@ == p@ && hash@
                == h@,
            None => r matches Err(e) && is_bad_request(e, "account has no password set"@),
        },
        (None, Some(c)) => match secret {
            Some(s) => r matches Ok(ReauthCheck::Totp { code, secret }) && code@ == c@ && secret@ == s@,
            None => r matches Err(e) && is_bad_request(e, "totp is not enabled"@),
        },
        _ => r matches Err(e) && is_bad_request(e, "provide password or totp code"@),
    }
}

/// Exactly one of password and code must be given: the password is checked
/// against the stored hash (refused when the account has no password), the
/// code against the stored TOTP secret (refused when TOTP is not enabled).
pub fn plan_reauth(hash: &Option<String>, secret: &Option<String>, req: &ReauthRequest) -> (r: Result<
    ReauthCheck,
    ApiError,
>)
    ensures
        reauth_spec(*hash, *secret, *req, r),
{
    match (&req.password, &req.totp_code) {
        (Some(p), None) => match hash {
            Some(h) => Ok(ReauthCheck::Password { password: p.clone(), hash: h.clone() }),
            None => Err(bad_request("account has no password set")),
        },
        (None, Some(c)) => match secret {
            Some(s) => Ok(ReauthCheck::Totp { code: c.clone(), secret: s.clone() }),
            None => Err(bad_request("totp is not enabled")),
        },
        _ => Err(bad_request("provide password or totp code")),
    }
}

/// A request giving both a password and a code, or neither, is always
/// refused, whatever the account holds.
pub proof fn lemma_reauth_needs_exactly_one(
    hash: Option<String>,
    secret: Option<String>,
    req: ReauthRequest,
    r: Result<ReauthCheck, ApiError>,
)
    requires
        reauth_spec(hash, secret, req, r),
        req.password is Some == req.totp_code is Some,
    ensures
        r is Err,
{
}

// ---------------------------------------------------------------- TOTP

/// Digits in a TOTP code.
pub const TOTP_CODE_LENGTH: usize = 6;

/// A TOTP confirmation as a user sends it.
#[derive(Clone, Debug)]
pub struct ConfirmTotpRequest {
    pub code: String,
}

/// Accepts a code of exactly six characters; else `code: code must be 6
/// digits`.
pub fn validate_confirm_totp(req: &ConfirmTotpRequest) -> (r: Result<(), ApiError>)
    ensures
        r is Ok <==> req.code@.len() == TOTP_CODE_LENGTH,
        r matches Err(e) ==> is_bad_request(e, "code: code must be 6 digits"@),
{
    if req.code.as_str().unicode_len() != TOTP_CODE_LENGTH {
        Err(bad_request("code: code must be 6 digits"))
    } else {
        Ok(())
    }
}

/// The pending TOTP secret, or a bad request when setup was never started.
pub fn require_totp_secret(secret: &Option<String>) -> (r: Result<String, ApiError>)
    ensures
        secret matches Some(s) ==> r matches Ok(v) && v@ == s@,
        secret is None ==> (r matches Err(e) && is_bad_request(e, "totp setup has not been started"@)),
{
    match secret {
        Some(s) => Ok(s.clone()),
        None => Err(bad_request("totp setup has not been started")),
    }
}

/// TOTP setup may start only while TOTP is off.
pub fn require_totp_disabled(enabled: bool) -> (r: Result<(), ApiError>)
    ensures
        r is Ok <==> !enabled,
        r matches Err(e) ==> is_conflict(e, "totp is already enabled"@),
{
    if enabled {
        Err(conflict("totp is already enabled"))
    } else {
        Ok(())
    }
}

/// Recovery codes issued at a time.
pub const RECOVERY_CODE_COUNT: usize = 10;

/// Recovery codes collected while a fresh set is issued.
pub struct RecoveryCodes {
    codes: Vec<String>,
}

impl RecoveryCodes {
    /// The codes collected so far.
    pub closed spec fn view_codes(&self) -> Seq<String> {
        self.codes@
    }

    /// Never more than a full set.
    pub open spec fn wf(&self) -> bool {
        self.view_codes().len() <= RECOVERY_CODE_COUNT
    }

    /// An empty set.
    pub fn new() -> (r: Self)
        ensures
            r.view_codes().len() == 0,
            r.wf(),
    {
        RecoveryCodes { codes: Vec::new() }
    }

    /// Whether another code is still to be issued.
    pub fn needs_more(&self) -> (r: bool)
        ensures
            r == (self.view_codes().len() < RECOVERY_CODE_COUNT),
    {
        self.codes.len() < RECOVERY_CODE_COUNT
    }

    /// Adds a code that was generated and stored.
    pub fn add(&mut self, code: String)
        requires
            old(self).view_codes().len() < RECOVERY_CODE_COUNT,
        ensures
            final(self).view_codes() == old(self).view_codes().push(code),
            final(self).wf(),
    {
        self.codes.push(code);
    }

    /// The full set, in the order issued.
    pub fn finish(self) -> (r: Vec<String>)
        requires
            self.view_codes().len() == RECOVERY_CODE_COUNT,
        ensures
            r@ == self.view_codes(),
            r@.len() == RECOVERY_CODE_COUNT,
    {
        self.codes
    }
}

// ---------------------------------------------------------------- passkeys

/// Enabling or disabling the passkey requirement, confirmed by
/// re-authentication.
#[derive(Clone, Debug)]
pub struct RequirePasskeyRequest {
    pub required: bool,
    pub reauth: ReauthRequest,
}

/// A passkey ceremony may only be finished by the account that started it.
pub fn require_same_account(session_user: &Option<String>, user_id: &str) -> (r: Result<(), ApiError>)
    ensures
        r is Ok <==> (session_user matches Some(s) && s@ == user_id@),
        r matches Err(e) ==> e == ApiError::Unauthorized,
{
    match session_user {
        Some(s) => {
            if s.as_str().unicode_len() != user_id.unicode_len() {
                return Err(ApiError::Unauthorized);
            }
            let n = user_id.unicode_len();
            let mut i: usize = 0;
            while i < n
                invariant
                    n == user_id@.len(),
                    n == s@.len(),
                    *session_user matches Some(x) && x@ == s@,
                    i <= n,
                    forall|j: int| 0 <= j < i ==> s@[j] == user_id@[j],
                decreases n - i,
            {
                if s.as_str().get_char(i) != user_id.get_char(i) {
                    assert(s@[i as int] != user_id@[i as int]);
                    assert(s@ != user_id@);
                    return Err(ApiError::Unauthorized);
                }
                i = i + 1;
            }
            assert(s@ =~= user_id@);
            Ok(())
        },
        None => Err(ApiError::Unauthorized),
    }
}

/// While passkeys are required, the last one cannot be removed.
pub fn check_passkey_removal(passkey_required: bool, remaining_others: i64) -> (r: Result<(), ApiError>)
    ensures
        r is Ok <==> !(passkey_required && remaining_others == 0),
        r matches Err(e) ==> is_bad_request(e, "cannot remove the last passkey while passkeys are required"@),
{
    if passkey_required && remaining_others == 0 {
        Err(bad_request("cannot remove the last passkey while passkeys are required"))
    } else {
        Ok(())
    }
}

/// Passkeys can be required only once one is registered.
pub fn check_passkey_requirement(required: bool, registered: i64) -> (r: Result<(), ApiError>)
    ensures
        r is Ok <==> !(required && registered == 0),
        r matches Err(e) ==> is_bad_request(e, "register a passkey before requiring one"@),
{
    if required && registered == 0 {
        Err(bad_request("register a passkey before requiring one"))
    } else {
        Ok(())
    }
}

/// Minutes a passkey ceremony stays open.
pub const CEREMONY_TTL_MINUTES: i64 = 5;

/// When a passkey ceremony started at `now` closes.
pub fn ceremony_expires_at(now: UnixTime) -> (r: UnixTime)
    requires
        now.valid(),
        now.secs + 300 <= LATEST_SECS,
    ensures
        r.valid(),
        r.secs == now.secs + 300,
        r.nanos == now.nanos,
{
    add_seconds(now, CEREMONY_TTL_MINUTES * 60)
}

} // verus!
