use iono::embed::{page_css, render_embed_html, sanitize_color, DEFAULT_COLOR, PAGE_CSS_HEAD, PAGE_CSS_TAIL};
use iono::records::{EmbedPreset, StoredFile};
use iono::time::UnixTime;

fn now() -> UnixTime {
    let t = chrono::Utc::now();
    UnixTime { secs: t.timestamp(), nanos: t.timestamp_subsec_nanos() }
}

fn test_file(content_type: &str) -> StoredFile {
    StoredFile {
        id: "f1".into(),
        user_id: "u1".into(),
        display_name: "abc123.png".into(),
        original_name: "key.png".into(),
        content_type: content_type.into(),
        size_bytes: 70,
        password_hash: None,
        expires_at: None,
        created_at: now(),
    }
}

fn test_preset(title: &str, color: &str) -> EmbedPreset {
    EmbedPreset {
        site_name: None,
        author_name: None,
        title: Some(title.into()),
        description: None,
        color: Some(color.into()),
    }
}

#[test]
fn escapes_preset_values() {
    let preset = test_preset(r#""><script>alert(1)</script>"#, "#fff");
    let html = render_embed_html(&test_file("image/png"), "/raw/abc123.png", Some(&preset));
    assert!(!html.contains("<script>"));
    assert!(html.contains("&lt;script&gt;"));
}

#[test]
fn rejects_non_hex_colors() {
    let preset = test_preset("t", "}</style><script>alert(1)</script>");
    let html = render_embed_html(&test_file("image/png"), "/raw/abc123.png", Some(&preset));
    assert!(!html.contains("<script>alert"));
    assert!(html.contains(DEFAULT_COLOR));
}

#[test]
fn image_files_get_og_image_tags() {
    let html = render_embed_html(&test_file("image/png"), "/raw/abc123.png", None);
    assert!(html.contains(r#"property="og:image" content="/raw/abc123.png""#));
    assert!(html.contains("summary_large_image"));
}

#[test]
fn video_files_get_player_tags() {
    let html = render_embed_html(&test_file("video/mp4"), "/raw/abc123.mp4", None);
    assert!(html.contains(r#"property="og:video""#));
    assert!(html.contains(r#"content="video/mp4""#));
    assert!(html.contains("<video"));
}

#[test]
fn whole_page_for_a_plain_file() {
    let mut file = test_file("application/pdf");
    file.display_name = "doc.pdf".into();
    file.created_at = UnixTime { secs: 0, nanos: 0 };
    let html = render_embed_html(&file, "/raw/doc.pdf", None);
    let expected = format!(
        "<!DOCTYPE html><html><head><meta charset=\"utf-8\"><meta name=\"viewport\" content=\"width=device-width, initial-scale=1\"><title>doc.pdf</title><meta property=\"og:site_name\" content=\"iono\"><meta property=\"og:title\" content=\"doc.pdf\"><meta property=\"og:description\" content=\"\"><meta name=\"theme-color\" content=\"#7c3aed\"><meta name=\"twitter:card\" content=\"summary\"><style>{}#7c3aed{}</style></head><body><a class=\"download-link\" href=\"/raw/doc.pdf\">doc.pdf</a><div class=\"meta\">70 B / uploaded January 1, 1970 at 00:00 UTC</div></body></html>",
        PAGE_CSS_HEAD, PAGE_CSS_TAIL
    );
    assert_eq!(html, expected);
}

#[test]
fn preset_values_replace_the_defaults() {
    let preset = EmbedPreset {
        site_name: Some("my site".into()),
        author_name: Some("me".into()),
        title: Some("shot".into()),
        description: Some("a & b".into()),
        color: Some("#ABCDEF".into()),
    };
    let html = render_embed_html(&test_file("image/png"), "/raw/x.png?password=a%20b", Some(&preset));
    assert!(html.contains("<title>shot</title>"));
    assert!(html.contains("<meta property=\"og:site_name\" content=\"my site\">"));
    assert!(html.contains("<meta property=\"og:description\" content=\"a &amp; b\">"));
    assert!(html.contains("<meta name=\"theme-color\" content=\"#ABCDEF\">"));
    assert!(html.contains("<meta name=\"twitter:creator\" content=\"me\">"));
    assert!(html.contains("<img class=\"media\" src=\"/raw/x.png?password=a%20b\" alt=\"shot\">"));
}

#[test]
fn negative_sizes_count_as_zero_bytes() {
    let mut file = test_file("text/plain");
    file.size_bytes = -5;
    let html = render_embed_html(&file, "/raw/a", None);
    assert!(html.contains("<div class=\"meta\">0 B / uploaded "));
}

#[test]
fn sanitize_color_keeps_hex_colors_only() {
    assert_eq!(sanitize_color("#fff"), "#fff");
    assert_eq!(sanitize_color("#ffff"), "#ffff");
    assert_eq!(sanitize_color("#0a0B0c"), "#0a0B0c");
    assert_eq!(sanitize_color("#0a0b0c0d"), "#0a0b0c0d");
    assert_eq!(sanitize_color("#ff"), DEFAULT_COLOR);
    assert_eq!(sanitize_color("#fffff"), DEFAULT_COLOR);
    assert_eq!(sanitize_color("#ggg"), DEFAULT_COLOR);
    assert_eq!(sanitize_color("fff"), DEFAULT_COLOR);
    assert_eq!(sanitize_color("#éé"), DEFAULT_COLOR);
    assert_eq!(sanitize_color(""), DEFAULT_COLOR);
}

#[test]
fn page_css_puts_the_color_on_the_download_link() {
    let css = page_css("#123");
    assert!(css.contains(".download-link {\n    color: #123;\n"));
    assert!(css.starts_with("\n:root { color-scheme: light dark; }\n"));
    assert!(css.ends_with(".meta {\n    font-size: 0.85rem;\n    opacity: 0.7;\n}\n"));
}
