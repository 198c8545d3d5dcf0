use iono::pages::{
    cache_max_age, cache_policy_at, paste_cache_control, plan_raw_response, plan_unlock, raw_path,
    raw_url_for, render_html, require_unlocked, CachePolicy, Unlock,
};
use iono::error::ApiError;
use iono::records::{StoredFile, StoredPaste};
use iono::time::UnixTime;

fn paste(title: Option<&str>, content: &str) -> StoredPaste {
    StoredPaste {
        id: "p1".into(),
        user_id: "u1".into(),
        key: "abc".into(),
        title: title.map(Into::into),
        content: content.into(),
        syntax: None,
        password_hash: None,
        expires_at: None,
        created_at: UnixTime { secs: 1709647620, nanos: 0 },
    }
}

#[test]
fn escapes_paste_content_and_title() {
    let p = paste(Some("<script>title</script>"), "<script>alert(1)</script>");
    let html = render_html(&p);
    assert!(!html.contains("<script>alert"));
    assert!(html.contains("&lt;script&gt;alert(1)&lt;/script&gt;"));
}

#[test]
fn whole_paste_page_with_defaults() {
    let html = render_html(&paste(None, "fn main() {}"));
    assert_eq!(
        html,
        "<!DOCTYPE html><html><head><meta charset=\"utf-8\"><meta name=\"viewport\" content=\"width=device-width, initial-scale=1\"><title>Paste</title><meta property=\"og:title\" content=\"Paste\"><meta property=\"og:site_name\" content=\"iono\"><meta name=\"theme-color\" content=\"#7c3aed\"></head><body><main><header><h1>Paste</h1><p>plain text / March 5, 2024 at 14:07 UTC</p></header><pre><code>fn main() {}</code></pre></main></body></html>"
    );
}

#[test]
fn unlock_decisions() {
    assert_eq!(plan_unlock(&None, Some("x")), Unlock::Open);
    assert_eq!(plan_unlock(&None, None), Unlock::Open);
    assert_eq!(plan_unlock(&Some("h".into()), None), Unlock::Locked);
    assert_eq!(
        plan_unlock(&Some("h".into()), Some("pw")),
        Unlock::Verify { password: "pw".into(), hash: "h".into() }
    );
    assert_eq!(require_unlocked(true), Ok(()));
    assert_eq!(require_unlocked(false), Err(ApiError::NotFound));
}

#[test]
fn max_age_counts_whole_seconds_left() {
    let now = UnixTime { secs: 1000, nanos: 500_000_000 };
    assert_eq!(cache_max_age(None, now), 31_536_000);
    assert_eq!(cache_max_age(Some(UnixTime { secs: 1100, nanos: 0 }), now), 99);
    assert_eq!(cache_max_age(Some(UnixTime { secs: 1100, nanos: 600_000_000 }), now), 100);
    assert_eq!(cache_max_age(Some(UnixTime { secs: 900, nanos: 0 }), now), 0);
    assert_eq!(cache_max_age(Some(UnixTime { secs: 1000 + 40_000_000, nanos: 0 }), now), 31_536_000);
}

#[test]
fn cache_headers() {
    let now = UnixTime { secs: 10, nanos: 0 };
    assert_eq!(cache_policy_at(true, None, now), CachePolicy::NoStore);
    assert_eq!(cache_policy_at(true, None, now).header_value(), "no-store");
    let p = cache_policy_at(false, Some(UnixTime { secs: 70, nanos: 0 }), now);
    assert_eq!(p, CachePolicy::PublicImmutable(60));
    assert_eq!(p.header_value(), "public, max-age=60, immutable");
    assert_eq!(CachePolicy::PublicImmutable(0).header_value(), "public, max-age=0, immutable");
}

#[test]
fn paste_cache_control_without_expiry_is_a_year() {
    let p = paste(None, "x");
    assert_eq!(paste_cache_control(&p), "public, max-age=31536000, immutable");
    let mut locked = paste(None, "x");
    locked.password_hash = Some("h".into());
    assert_eq!(paste_cache_control(&locked), "no-store");
}

#[test]
fn raw_links() {
    assert_eq!(raw_path(None, "a.png"), "/raw/a.png");
    assert_eq!(raw_path(Some("me"), "a.png"), "/me/raw/a.png");
    assert_eq!(raw_url_for("/raw/a.png", None), "/raw/a.png");
    assert_eq!(raw_url_for("/raw/a.png", Some("p w?")), "/raw/a.png?password=p%20w%3F");
    assert_eq!(raw_url_for("/raw/a", Some("é")), "/raw/a?password=%C3%A9");
}

#[test]
fn raw_response_follows_storage_and_type() {
    let file = StoredFile {
        id: "f".into(),
        user_id: "u".into(),
        display_name: "a.png".into(),
        original_name: "k.png".into(),
        content_type: "image/png".into(),
        size_bytes: 3,
        password_hash: Some("h".into()),
        expires_at: None,
        created_at: UnixTime { secs: 0, nanos: 0 },
    };
    let r = plan_raw_response(&file, true, Some("bytes 0-1/3".into()), Some(2));
    assert!(r.partial);
    assert!(r.inline);
    assert_eq!(r.filename, "a.png");
    assert_eq!(r.content_type, "image/png");
    assert_eq!(r.cache, CachePolicy::NoStore);
    assert_eq!(r.content_range.as_deref(), Some("bytes 0-1/3"));
    assert_eq!(r.content_length, Some(2));
    let r = plan_raw_response(&file, false, None, None);
    assert!(!r.partial);
    assert!(!r.inline);
}
