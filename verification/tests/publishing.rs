use iono::error::ApiError;
use iono::publish::{
    display_name_for, expires_at, expiry_from, expires_from_now, file_url, nonempty_password, paste_url, require_file,
    short_link_url, storage_key, stored_size, KeyAttempts, KeyStep, KeyedKind, KEY_ATTEMPTS,
};
use iono::requests::{
    accept_short_link_request, validate_paste_request, validate_target_url, CreatePasteRequest,
    CreateShortLinkRequest,
};
use iono::time::UnixTime;

fn bad(msg: &str) -> Result<(), ApiError> {
    Err(ApiError::BadRequest(msg.into()))
}

fn paste(content: &str) -> CreatePasteRequest {
    CreatePasteRequest { title: None, content: content.into(), syntax: None, password: None }
}

#[test]
fn paste_validation_order_and_limits() {
    assert_eq!(validate_paste_request(&paste("hi")), Ok(()));
    assert_eq!(validate_paste_request(&paste("")), bad("paste content must not be empty"));
    assert_eq!(validate_paste_request(&paste(&"a".repeat(1024 * 1024))), Ok(()));
    assert_eq!(
        validate_paste_request(&paste(&"a".repeat(1024 * 1024 + 1))),
        bad("paste content must be at most 1 MiB")
    );
    // 524_289 two-byte characters: fewer than 1 MiB characters, more than 1 MiB bytes
    assert_eq!(
        validate_paste_request(&paste(&"é".repeat(524_289))),
        bad("paste content must be at most 1 MiB")
    );
    let mut req = paste("x");
    req.title = Some("é".repeat(256));
    assert_eq!(validate_paste_request(&req), Ok(()));
    req.title = Some("t".repeat(257));
    assert_eq!(validate_paste_request(&req), bad("paste title must be at most 256 characters"));
    req.title = None;
    req.syntax = Some("s".repeat(65));
    assert_eq!(validate_paste_request(&req), bad("paste syntax must be at most 64 characters"));
    req.syntax = Some("s".repeat(64));
    req.password = Some("p".repeat(257));
    assert_eq!(validate_paste_request(&req), bad("paste password must be at most 256 characters"));
    // the first failing check wins
    let req = CreatePasteRequest {
        title: Some("t".repeat(300)),
        content: String::new(),
        syntax: Some("s".repeat(300)),
        password: None,
    };
    assert_eq!(validate_paste_request(&req), bad("paste content must not be empty"));
}

#[test]
fn short_link_targets() {
    assert_eq!(validate_target_url("https://example.com"), Ok(()));
    assert_eq!(validate_target_url("http://example.com"), Ok(()));
    assert_eq!(validate_target_url("ftp://example.com"), bad("target url must start with http:// or https://"));
    assert_eq!(validate_target_url("HTTPS://example.com"), bad("target url must start with http:// or https://"));
    let long = format!("https://{}", "a".repeat(2041));
    assert_eq!(long.len(), 2049);
    assert_eq!(validate_target_url(&long), bad("target url must be at most 2048 characters"));
    assert_eq!(validate_target_url(&long[..2048]), Ok(()));
}

#[test]
fn short_link_requests_are_trimmed() {
    let req = CreateShortLinkRequest { target_url: " \t https://x.io/a \n\u{3000}".into() };
    assert_eq!(accept_short_link_request(&req), Ok("https://x.io/a".to_string()));
    let req = CreateShortLinkRequest { target_url: "   ".into() };
    assert_eq!(
        accept_short_link_request(&req),
        Err(ApiError::BadRequest("target url must start with http:// or https://".into()))
    );
}

#[test]
fn expiry_adds_the_default_lifetime() {
    let now = UnixTime { secs: 100, nanos: 7 };
    assert_eq!(expires_at(now, None), None);
    assert_eq!(expires_at(now, Some(3600)), Some(UnixTime { secs: 3700, nanos: 7 }));
    assert_eq!(expires_from_now(None), Ok(None));
    let later = expires_from_now(Some(60)).unwrap().unwrap();
    assert!(later.secs > 60);
    assert_eq!(
        expires_from_now(Some(i64::MAX)),
        Err(ApiError::Internal("expiry is out of range".into()))
    );
}

#[test]
fn empty_passwords_protect_nothing() {
    assert_eq!(nonempty_password(None), None);
    assert_eq!(nonempty_password(Some(String::new())), None);
    assert_eq!(nonempty_password(Some("pw".into())), Some("pw".to_string()));
}

#[test]
fn key_attempts_give_up_after_five() {
    let mut attempts = KeyAttempts::new(KeyedKind::Paste);
    for _ in 0..KEY_ATTEMPTS - 1 {
        assert!(matches!(attempts.record(None), KeyStep::Retry));
    }
    match attempts.record(None) {
        KeyStep::Exhausted(e) => {
            assert_eq!(e, ApiError::Internal("failed to generate a unique paste key".into()))
        },
        other => panic!("unexpected {:?}", other),
    }
    let mut attempts = KeyAttempts::new(KeyedKind::ShortLink);
    assert!(matches!(attempts.record(None), KeyStep::Retry));
    match attempts.record(Some(("id".into(), "key".into()))) {
        KeyStep::Created { id, key } => {
            assert_eq!(id, "id");
            assert_eq!(key, "key");
        },
        other => panic!("unexpected {:?}", other),
    }
    let mut attempts = KeyAttempts::new(KeyedKind::ShortLink);
    for _ in 0..KEY_ATTEMPTS - 1 {
        attempts.record(None);
    }
    assert!(matches!(
        attempts.record(None),
        KeyStep::Exhausted(ApiError::Internal(m)) if m == "failed to generate a unique short link key"
    ));
}

#[test]
fn public_links() {
    assert_eq!(paste_url("p.io", &None, "abc"), "https://p.io/p/abc");
    assert_eq!(paste_url("p.io", &Some("me".into()), "abc"), "https://p.io/p/me/abc");
    assert_eq!(short_link_url("l.io", &None, "k"), "https://l.io/l/k");
    assert_eq!(short_link_url("l.io", &Some("x".into()), "k"), "https://l.io/l/x/k");
    assert_eq!(file_url("f.io", &None, false, "a.png"), "https://f.io/a.png");
    assert_eq!(file_url("f.io", &None, true, "a.png"), "https://f.io/raw/a.png");
    assert_eq!(file_url("f.io", &Some("me".into()), true, "a.png"), "https://f.io/me/raw/a.png");
    assert_eq!(file_url("f.io", &Some("me".into()), false, "a.png"), "https://f.io/me/a.png");
}

#[test]
fn upload_names() {
    assert_eq!(require_file(0), Err(ApiError::BadRequest("missing file".into())));
    assert_eq!(require_file(1), Ok(()));
    assert_eq!(display_name_for("AbCd".into(), "png", true), "AbCd.png");
    assert_eq!(display_name_for("AbCd".into(), "png", false), "AbCd");
    assert_eq!(storage_key("1234", "webp"), "1234.webp");
    assert_eq!(stored_size(70), 70i64);
}

#[test]
fn expiry_from_a_clock_reading() {
    let now = UnixTime { secs: 1_700_000_000, nanos: 9 };
    assert_eq!(expiry_from(now, None), Ok(None));
    assert_eq!(expiry_from(now, Some(3_600)), Ok(Some(UnixTime { secs: 1_700_003_600, nanos: 9 })));
    assert_eq!(expiry_from(now, Some(-1_700_000_000)), Ok(Some(UnixTime { secs: 0, nanos: 9 })));
    assert_eq!(
        expiry_from(now, Some(i64::MAX)),
        Err(ApiError::Internal("expiry is out of range".into()))
    );
    assert_eq!(
        expiry_from(now, Some(i64::MIN)),
        Err(ApiError::Internal("expiry is out of range".into()))
    );
}
