use iono::embed::{render_embed_html, sanitize_color, DEFAULT_COLOR};
use iono::pages::{cache_max_age, cache_policy_at, plan_unlock, CachePolicy, Unlock};
use iono::publish::expires_at;
use iono::records::{EmbedPreset, StoredFile};
use iono::text::{percent_encode_text, trim_text};
use iono::time::UnixTime;

#[test]
fn sanitizing_twice_is_sanitizing_once() {
    for c in ["#abc", "#12345678", "red", "#12", "", "#zzzzzz"] {
        let once = sanitize_color(c);
        assert_eq!(sanitize_color(once), once);
        let hex = &once[1..];
        assert!(once.starts_with('#') && [3, 4, 6, 8].contains(&hex.len()));
        assert!(hex.chars().all(|c| c.is_ascii_hexdigit()));
    }
    assert_eq!(sanitize_color("nope"), DEFAULT_COLOR);
}

#[test]
fn trimming_twice_is_trimming_once() {
    for s in ["  a  ", "\u{3000}x\u{2028}", "", "   ", "a b"] {
        let once = trim_text(s);
        assert_eq!(trim_text(once), once);
        assert!(!once.starts_with(char::is_whitespace));
        assert!(!once.ends_with(char::is_whitespace));
    }
}

#[test]
fn percent_encoded_text_is_query_safe() {
    let enc = percent_encode_text("a b&c=d/é?#");
    assert!(enc.chars().all(|c| c.is_ascii_alphanumeric() || c == '%'));
}

#[test]
fn user_values_never_become_markup() {
    let preset = EmbedPreset {
        site_name: Some("<b>".into()),
        author_name: Some("\"><img src=x>".into()),
        title: Some("</title><script>".into()),
        description: Some("<".into()),
        color: Some("<".into()),
    };
    let file = StoredFile {
        id: "f".into(),
        user_id: "u".into(),
        display_name: "<a>".into(),
        original_name: "k".into(),
        content_type: "image/<x>".into(),
        size_bytes: 1,
        password_hash: None,
        expires_at: None,
        created_at: UnixTime { secs: 0, nanos: 0 },
    };
    let html = render_embed_html(&file, "\"/><script>", Some(&preset));
    assert!(!html.contains("<script>"));
    assert!(!html.contains("<b>"));
    assert!(!html.contains("<img src=x>"));
    assert!(html.contains("&lt;/title&gt;&lt;script&gt;"));
}

#[test]
fn protected_pages_are_never_cached_or_open() {
    let now = UnixTime { secs: 5, nanos: 0 };
    assert_eq!(cache_policy_at(true, Some(UnixTime { secs: 100, nanos: 0 }), now), CachePolicy::NoStore);
    assert_eq!(plan_unlock(&Some("h".into()), None), Unlock::Locked);
    assert_ne!(plan_unlock(&Some("h".into()), Some("")), Unlock::Open);
}

#[test]
fn a_fresh_upload_expires_exactly_its_lifetime_away() {
    let now = UnixTime { secs: 1_700_000_000, nanos: 123 };
    for s in [0i64, 1, 3_600, 604_800] {
        let e = expires_at(now, Some(s));
        assert_eq!(cache_max_age(e, now) as i64, s);
    }
    let e = expires_at(now, Some(40_000_000));
    assert_eq!(cache_max_age(e, now), 31_536_000);
}

#[test]
fn style_sheet_never_holds_a_tag() {
    for c in ["}</style><script>alert(1)</script>", "#fff", "<", "#1234"] {
        let css = iono::embed::page_css(sanitize_color(c));
        assert!(!css.contains('<'));
        assert!(!css.contains("</style"));
    }
}

#[test]
fn lifetimes_up_to_zero_always_give_an_expiry() {
    assert!(iono::publish::expires_from_now(Some(0)).unwrap().is_some());
    assert!(iono::publish::expires_from_now(Some(-3_600)).unwrap().is_some());
}
