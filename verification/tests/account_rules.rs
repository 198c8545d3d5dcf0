use iono::account::{
    ceremony_expires_at, check_passkey_removal, check_passkey_requirement, next_token_version, plan_reauth,
    require_found, require_password_hash, require_same_account, require_totp_disabled, require_totp_secret,
    require_verified, validate_change_password, validate_confirm_totp, ChangePasswordRequest,
    ConfirmTotpRequest, ReauthCheck, ReauthRequest, RecoveryCodes, RECOVERY_CODE_COUNT,
};
use iono::error::ApiError;
use iono::settings::{plan_settings_update, require_settings_row, SelfDestructDuration, UpdateSettingsRequest};
use iono::time::UnixTime;

fn bad<T>(msg: &str) -> Result<T, ApiError> {
    Err(ApiError::BadRequest(msg.into()))
}

#[test]
fn durations_in_seconds() {
    assert_eq!(SelfDestructDuration::OneHour.to_seconds(), Some(3_600));
    assert_eq!(SelfDestructDuration::ThreeHours.to_seconds(), Some(10_800));
    assert_eq!(SelfDestructDuration::TwelveHours.to_seconds(), Some(43_200));
    assert_eq!(SelfDestructDuration::OneDay.to_seconds(), Some(86_400));
    assert_eq!(SelfDestructDuration::ThreeDays.to_seconds(), Some(259_200));
    assert_eq!(SelfDestructDuration::OneWeek.to_seconds(), Some(604_800));
    assert_eq!(SelfDestructDuration::Never.to_seconds(), None);
}

fn empty_settings() -> UpdateSettingsRequest {
    UpdateSettingsRequest {
        display_name_length: None,
        display_name_style: None,
        display_name_include_extension: None,
        raw_links_only: None,
        default_expires_in_seconds: None,
        lossless_images: None,
    }
}

#[test]
fn settings_updates() {
    assert!(matches!(plan_settings_update(empty_settings()), Err(ApiError::BadRequest(m)) if m == "no settings fields provided"));
    let mut req = empty_settings();
    req.display_name_length = Some(15);
    assert!(matches!(plan_settings_update(req), Err(ApiError::BadRequest(m)) if m == "display_name_length: must be between 16 and 32"));
    let mut req = empty_settings();
    req.display_name_length = Some(33);
    assert!(plan_settings_update(req).is_err());
    let mut req = empty_settings();
    req.display_name_length = Some(16);
    let u = plan_settings_update(req).unwrap();
    assert_eq!(u.display_name_length, Some(16));
    assert!(!u.replace_default_expiry);
    let mut req = empty_settings();
    req.default_expires_in_seconds = Some(SelfDestructDuration::Never);
    let u = plan_settings_update(req).unwrap();
    assert!(u.replace_default_expiry);
    assert_eq!(u.default_expires_in_seconds, None);
    let mut req = empty_settings();
    req.default_expires_in_seconds = Some(SelfDestructDuration::OneDay);
    req.raw_links_only = Some(true);
    let u = plan_settings_update(req).unwrap();
    assert_eq!(u.default_expires_in_seconds, Some(86_400));
    assert_eq!(u.raw_links_only, Some(true));
    assert_eq!(require_settings_row(1), Ok(()));
    assert_eq!(require_settings_row(0), Err(ApiError::Internal("user has no settings row to update".into())));
}

#[test]
fn password_change_validation() {
    let ok = ChangePasswordRequest { current_password: "old".into(), new_password: "longenough".into() };
    assert_eq!(validate_change_password(&ok), Ok(()));
    let short = ChangePasswordRequest { current_password: "old".into(), new_password: "short".into() };
    assert_eq!(validate_change_password(&short), bad("new_password: new password must be 8-256 characters"));
    let long_current = ChangePasswordRequest { current_password: "x".repeat(257), new_password: "é".repeat(256) };
    assert_eq!(
        validate_change_password(&long_current),
        bad("current_password: current password must be at most 256 characters")
    );
    let both = ChangePasswordRequest { current_password: "x".repeat(257), new_password: "y".repeat(257) };
    assert_eq!(
        validate_change_password(&both),
        bad("current_password: current password must be at most 256 characters\nnew_password: new password must be 8-256 characters")
    );
    assert_eq!(require_password_hash(&Some("h".into())), Ok("h".to_string()));
    assert_eq!(require_password_hash(&None), bad("account has no password set"));
}

#[test]
fn token_versions_move_forward() {
    assert_eq!(next_token_version(0), 1);
    assert_eq!(next_token_version(-3), -2);
    assert_eq!(next_token_version(41), 42);
}

#[test]
fn reauthentication_needs_exactly_one_factor() {
    let hash = Some("h".to_string());
    let secret = Some("s".to_string());
    let both = ReauthRequest { password: Some("p".into()), totp_code: Some("123456".into()) };
    assert!(matches!(plan_reauth(&hash, &secret, &both), Err(ApiError::BadRequest(m)) if m == "provide password or totp code"));
    let neither = ReauthRequest { password: None, totp_code: None };
    assert!(matches!(plan_reauth(&hash, &secret, &neither), Err(ApiError::BadRequest(m)) if m == "provide password or totp code"));
    let pw = ReauthRequest { password: Some("p".into()), totp_code: None };
    assert!(matches!(plan_reauth(&hash, &secret, &pw), Ok(ReauthCheck::Password { password, hash }) if password == "p" && hash == "h"));
    assert!(matches!(plan_reauth(&None, &secret, &pw), Err(ApiError::BadRequest(m)) if m == "account has no password set"));
    let code = ReauthRequest { password: None, totp_code: Some("123456".into()) };
    assert!(matches!(plan_reauth(&hash, &secret, &code), Ok(ReauthCheck::Totp { code, secret }) if code == "123456" && secret == "s"));
    assert!(matches!(plan_reauth(&hash, &None, &code), Err(ApiError::BadRequest(m)) if m == "totp is not enabled"));
}

#[test]
fn totp_rules() {
    assert_eq!(validate_confirm_totp(&ConfirmTotpRequest { code: "123456".into() }), Ok(()));
    assert_eq!(validate_confirm_totp(&ConfirmTotpRequest { code: "12345".into() }), bad("code: code must be 6 digits"));
    assert_eq!(validate_confirm_totp(&ConfirmTotpRequest { code: "1234567".into() }), bad("code: code must be 6 digits"));
    assert_eq!(require_totp_secret(&Some("s".into())), Ok("s".to_string()));
    assert_eq!(require_totp_secret(&None), bad("totp setup has not been started"));
    assert_eq!(require_totp_disabled(false), Ok(()));
    assert_eq!(require_totp_disabled(true), Err(ApiError::Conflict("totp is already enabled".into())));
    assert_eq!(require_verified(true), Ok(()));
    assert_eq!(require_verified(false), Err(ApiError::Unauthorized));
    assert_eq!(require_found(false), Err(ApiError::NotFound));
}

#[test]
fn recovery_codes_come_in_tens() {
    let mut codes = RecoveryCodes::new();
    let mut n = 0;
    while codes.needs_more() {
        codes.add(format!("code-{n}"));
        n += 1;
    }
    let all = codes.finish();
    assert_eq!(all.len(), RECOVERY_CODE_COUNT);
    assert_eq!(all[0], "code-0");
    assert_eq!(all[9], "code-9");
}

#[test]
fn passkey_rules() {
    assert_eq!(require_same_account(&Some("u1".into()), "u1"), Ok(()));
    assert_eq!(require_same_account(&Some("u1".into()), "u2"), Err(ApiError::Unauthorized));
    assert_eq!(require_same_account(&Some("u1".into()), "u10"), Err(ApiError::Unauthorized));
    assert_eq!(require_same_account(&None, "u1"), Err(ApiError::Unauthorized));
    assert_eq!(check_passkey_removal(true, 0), bad("cannot remove the last passkey while passkeys are required"));
    assert_eq!(check_passkey_removal(true, 1), Ok(()));
    assert_eq!(check_passkey_removal(false, 0), Ok(()));
    assert_eq!(check_passkey_requirement(true, 0), bad("register a passkey before requiring one"));
    assert_eq!(check_passkey_requirement(true, 2), Ok(()));
    assert_eq!(check_passkey_requirement(false, 0), Ok(()));
    assert_eq!(ceremony_expires_at(UnixTime { secs: 100, nanos: 3 }), UnixTime { secs: 400, nanos: 3 });
}
