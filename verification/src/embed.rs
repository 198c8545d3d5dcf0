//! The HTML page that link previews (Discord, Twitter and the like) read for
//! an uploaded file: title, colour, media tags and a small style sheet.
use vstd::prelude::*;
use vstd::string::*;
use humansize::{format_size, FormatSizeOptions, WINDOWS};
use crate::records::{EmbedPreset, StoredFile};
use crate::text::{
    escape_html, has_prefix, lemma_occurs_in_extended, lemma_occurs_in_run, lemma_occurs_in_self, lemma_prefix_after,
    lemma_prefix_of_concat, lemma_prefix_trans, occurs_in, push_escaped,
};
use crate::time::{calendar_text, format_calendar};

verus! {

/// The site name shown when the user set none.
pub const DEFAULT_SITE_NAME: &'static str = "iono";

/// The accent colour used when the user set none, or set one that is not a
/// hex colour.
pub const DEFAULT_COLOR: &'static str = "#7c3aed";

/// The style sheet up to the link colour.
pub const PAGE_CSS_HEAD: &'static str = "\n:root { color-scheme: light dark; }\nbody {\n    margin: 0;\n    min-height: 100vh;\n    display: flex;\n    flex-direction: column;\n    align-items: center;\n    justify-content: center;\n    gap: 0.75rem;\n    padding: 1rem;\n    box-sizing: border-box;\n    background: #111;\n    color: #eee;\n    font-family: system-ui, sans-serif;\n}\n.media {\n    max-width: 90vw;\n    max-height: 80vh;\n    border-radius: 8px;\n}\n.download-link {\n    color: ";

/// The style sheet after the link colour.
pub const PAGE_CSS_TAIL: &'static str = ";\n    font-size: 1.5rem;\n    text-decoration: none;\n}\n.meta {\n    font-size: 0.85rem;\n    opacity: 0.7;\n}\n";

// ---------------------------------------------------------------- colour

/// An ASCII hexadecimal digit.
pub open spec fn is_hex_digit(c: char) -> bool {
    ('0' <= c && c <= '9') || ('a' <= c && c <= 'f') || ('A' <= c && c <= 'F')
}

/// `#` followed by 3, 4, 6 or 8 hexadecimal digits.
pub open spec fn is_hex_color(s: Seq<char>) -> bool {
    &&& s.len() >= 1
    &&& s[0] == '#'
    &&& (s.len() == 4 || s.len() == 5 || s.len() == 7 || s.len() == 9)
    &&& forall|i: int| 1 <= i < s.len() ==> is_hex_digit(#[trigger] s[i])
}

/// The colour a page uses for a requested colour.
pub open spec fn sanitized_color(color: Seq<char>) -> Seq<char> {
    if is_hex_color(color) {
        color
    } else {
        DEFAULT_COLOR@
    }
}

/// `color` when it is a hex colour (`#` and 3, 4, 6 or 8 hex digits), else
/// the default colour: the colour goes into a style sheet unescaped, so
/// nothing else may pass.
pub fn sanitize_color<'a>(color: &'a str) -> (r: &'a str)
    ensures
        r@ == sanitized_color(color@),
{
    let n = color.unicode_len();
    if n == 4 || n == 5 || n == 7 || n == 9 {
        if color.get_char(0) == '#' {
            let mut i: usize = 1;
            while i < n
                invariant
                    n == color@.len(),
                    1 <= i <= n,
                    color@[0] == '#',
                    n == 4 || n == 5 || n == 7 || n == 9,
                    forall|j: int| 1 <= j < i ==> is_hex_digit(#[trigger] color@[j]),
                decreases n - i,
            {
                let c = color.get_char(i);
                if !(('0' <= c && c <= '9') || ('a' <= c && c <= 'f') || ('A' <= c && c <= 'F')) {
                    return DEFAULT_COLOR;
                }
                i = i + 1;
            }
            return color;
        }
    }
    DEFAULT_COLOR
}

/// The default colour is itself a hex colour.
pub proof fn lemma_default_color_is_hex()
    ensures
        is_hex_color(DEFAULT_COLOR@),
{
    reveal_strlit("#7c3aed");
    assert(is_hex_digit(DEFAULT_COLOR@[1]));
}

/// Whatever colour is asked for, the page gets a hex colour.
pub proof fn lemma_sanitized_color_is_hex(color: Seq<char>)
    ensures
        is_hex_color(sanitized_color(color)),
{
    lemma_default_color_is_hex();
}

/// Sanitizing a colour twice gives what sanitizing it once gives.
pub proof fn lemma_sanitize_color_idempotent(color: Seq<char>)
    ensures
        sanitized_color(sanitized_color(color)) == sanitized_color(color),
{
    lemma_default_color_is_hex();
}

/// The page's style sheet with `color` as the link colour.
pub open spec fn page_css_text(color: Seq<char>) -> Seq<char> {
    PAGE_CSS_HEAD@ + color + PAGE_CSS_TAIL@
}

/// Whatever colour a preset asks for, the style sheet built from its
/// sanitized form holds no `<`: it is emitted unescaped inside `<style>`,
/// and so can never close that element or open a tag.
pub proof fn lemma_page_css_has_no_tag(color: Seq<char>)
    ensures
        forall|i: int|
            0 <= i < page_css_text(sanitized_color(color)).len() ==> #[trigger] page_css_text(
                sanitized_color(color),
            )[i] != '<',
{
    reveal_strlit("\n:root { color-scheme: light dark; }\nbody {\n    margin: 0;\n    min-height: 100vh;\n    display: flex;\n    flex-direction: column;\n    align-items: center;\n    justify-content: center;\n    gap: 0.75rem;\n    padding: 1rem;\n    box-sizing: border-box;\n    background: #111;\n    color: #eee;\n    font-family: system-ui, sans-serif;\n}\n.media {\n    max-width: 90vw;\n    max-height: 80vh;\n    border-radius: 8px;\n}\n.download-link {\n    color: ");
    reveal_strlit(";\n    font-size: 1.5rem;\n    text-decoration: none;\n}\n.meta {\n    font-size: 0.85rem;\n    opacity: 0.7;\n}\n");
    lemma_sanitized_color_is_hex(color);
    let c = sanitized_color(color);
    let h = PAGE_CSS_HEAD@;
    let t = PAGE_CSS_TAIL@;
    assert forall|i: int| 0 <= i < h.len() implies #[trigger] h[i] != '<' by {}
    assert forall|i: int| 0 <= i < t.len() implies #[trigger] t[i] != '<' by {}
    assert forall|i: int| 0 <= i < c.len() implies #[trigger] c[i] != '<' by {
        if i >= 1 {
            assert(is_hex_digit(c[i]));
        }
    }
    let all = page_css_text(c);
    assert forall|i: int| 0 <= i < all.len() implies #[trigger] all[i] != '<' by {
        if i < h.len() {
            assert(all[i] == h[i]);
        } else if i < h.len() + c.len() {
            assert(all[i] == c[i - h.len()]);
        } else {
            assert(all[i] == t[i - h.len() - c.len()]);
        }
    }
}

/// The page's style sheet with `color` as the link colour.
pub fn page_css(color: &str) -> (r: String)
    ensures
        r@ == page_css_text(color@),
{
    let mut s = PAGE_CSS_HEAD.to_owned();
    s.append(color);
    s.append(PAGE_CSS_TAIL);
    s
}

// ---------------------------------------------------------------- size

/// The text humansize's `format_size` gives for `bytes` with the Windows
/// options and one decimal place (such as "70 B" or "1.5 kB").
pub uninterp spec fn size_text(bytes: u64) -> Seq<char>;

/// humansize's `format_size(bytes, FormatSizeOptions::from(WINDOWS).decimal_places(1))`.
/// Claimed: the result is `size_text` of `bytes`.
#[verifier::external_body]
pub fn format_file_size(bytes: u64) -> (r: String)
    ensures
        r@ == size_text(bytes),
{
    format_size(bytes, FormatSizeOptions::from(WINDOWS).decimal_places(1))
}

/// A stored size read as a byte count: negative sizes count as zero.
pub open spec fn size_count(size_bytes: i64) -> u64 {
    if size_bytes < 0 {
        0
    } else {
        size_bytes as u64
    }
}

// ---------------------------------------------------------------- page

/// What kind of preview a file gets.
#[derive(Clone, Copy, Debug, PartialEq, Eq, Structural)]
pub enum PreviewKind {
    Image,
    Video,
    Other,
}

/// Images are previewed as images, videos as players, the rest as links.
pub open spec fn preview_kind(content_type: Seq<char>) -> PreviewKind {
    if "image/"@.is_prefix_of(content_type) {
        PreviewKind::Image
    } else if "video/"@.is_prefix_of(content_type) {
        PreviewKind::Video
    } else {
        PreviewKind::Other
    }
}

/// A field of the preset, when there is a preset and it sets the field.
pub open spec fn preset_value(field: Option<String>) -> Option<Seq<char>> {
    match field {
        Some(v) => Some(v@),
        None => None,
    }
}

/// The value of a preset field, or `fallback` when it is not set.
pub open spec fn or_default(v: Option<Seq<char>>, fallback: Seq<char>) -> Seq<char> {
    match v {
        Some(v) => v,
        None => fallback,
    }
}

/// The preset's title.
pub open spec fn preset_title(preset: Option<EmbedPreset>) -> Option<Seq<char>> {
    match preset {
        Some(p) => preset_value(p.title),
        None => None,
    }
}

/// The preset's description.
pub open spec fn preset_description(preset: Option<EmbedPreset>) -> Option<Seq<char>> {
    match preset {
        Some(p) => preset_value(p.description),
        None => None,
    }
}

/// The preset's site name.
pub open spec fn preset_site_name(preset: Option<EmbedPreset>) -> Option<Seq<char>> {
    match preset {
        Some(p) => preset_value(p.site_name),
        None => None,
    }
}

/// The preset's colour.
pub open spec fn preset_color(preset: Option<EmbedPreset>) -> Option<Seq<char>> {
    match preset {
        Some(p) => preset_value(p.color),
        None => None,
    }
}

/// The preset's author name.
pub open spec fn preset_author(preset: Option<EmbedPreset>) -> Option<Seq<char>> {
    match preset {
        Some(p) => preset_value(p.author_name),
        None => None,
    }
}

/// A `<meta property=.. content=..>` tag; the content is escaped.
pub open spec fn meta_property(property: Seq<char>, content: Seq<char>) -> Seq<char> {
    "<meta property=\""@ + property + "\" content=\""@ + escape_html(content) + "\">"@
}

/// A `<meta name=.. content=..>` tag; the content is escaped.
pub open spec fn meta_name(name: Seq<char>, content: Seq<char>) -> Seq<char> {
    "<meta name=\""@ + name + "\" content=\""@ + escape_html(content) + "\">"@
}

fn push_meta_property(out: &mut String, property: &str, content: &str)
    ensures
        final(out)@ == old(out)@ + meta_property(property@, content@),
{
    out.append("<meta property=\"");
    out.append(property);
    out.append("\" content=\"");
    push_escaped(out, content);
    out.append("\">");
    assert(final(out)@ =~= old(out)@ + meta_property(property@, content@));
}

fn push_meta_name(out: &mut String, name: &str, content: &str)
    ensures
        final(out)@ == old(out)@ + meta_name(name@, content@),
{
    out.append("<meta name=\"");
    out.append(name);
    out.append("\" content=\"");
    push_escaped(out, content);
    out.append("\">");
    assert(final(out)@ =~= old(out)@ + meta_name(name@, content@));
}

/// The tags that say what media the page shows.
pub open spec fn media_tags(kind: PreviewKind, raw_url: Seq<char>, content_type: Seq<char>) -> Seq<char> {
    match kind {
        PreviewKind::Image => meta_property("og:image"@, raw_url) + meta_name(
            "twitter:card"@,
            "summary_large_image"@,
        ),
        PreviewKind::Video => meta_property("og:video"@, raw_url) + meta_property(
            "og:video:type"@,
            content_type,
        ) + meta_name("twitter:card"@, "player"@),
        PreviewKind::Other => meta_name("twitter:card"@, "summary"@),
    }
}

/// The opening of the page's `<head>`: character set, viewport, title and
/// the site, title, description and colour tags.
pub open spec fn head_intro(title: Seq<char>, site_name: Seq<char>, description: Seq<char>, color: Seq<char>) -> Seq<char> {
    "<meta charset=\"utf-8\"><meta name=\"viewport\" content=\"width=device-width, initial-scale=1\"><title>"@
        + escape_html(title) + "</title>"@ + meta_property("og:site_name"@, site_name)
        + meta_property("og:title"@, title) + meta_property("og:description"@, description)
        + meta_name("theme-color"@, color)
}

/// The author tag, when there is an author.
pub open spec fn author_tag(author: Option<Seq<char>>) -> Seq<char> {
    match author {
        Some(a) => meta_name("twitter:creator"@, a),
        None => Seq::empty(),
    }
}

/// The page's style sheet inside a `<style>` element.
pub open spec fn style_block(color: Seq<char>) -> Seq<char> {
    "<style>"@ + page_css_text(color) + "</style>"@
}

/// The page's `<head>` contents.
pub open spec fn embed_head(
    title: Seq<char>,
    site_name: Seq<char>,
    description: Seq<char>,
    color: Seq<char>,
    author: Option<Seq<char>>,
    kind: PreviewKind,
    raw_url: Seq<char>,
    content_type: Seq<char>,
) -> Seq<char> {
    head_intro(title, site_name, description, color) + media_tags(kind, raw_url, content_type)
        + author_tag(author) + style_block(color)
}

/// The page's `<body>` contents: the media or a download link, then size
/// and upload date.
pub open spec fn embed_body(
    kind: PreviewKind,
    raw_url: Seq<char>,
    title: Seq<char>,
    size: Seq<char>,
    uploaded: Seq<char>,
) -> Seq<char> {
    (match kind {
        PreviewKind::Image => "<img class=\"media\" src=\""@ + escape_html(raw_url) + "\" alt=\""@
            + escape_html(title) + "\">"@,
        PreviewKind::Video => "<video class=\"media\" src=\""@ + escape_html(raw_url)
            + "\" controls></video>"@,
        PreviewKind::Other => "<a class=\"download-link\" href=\""@ + escape_html(raw_url) + "\">"@
            + escape_html(title) + "</a>"@,
    }) + "<div class=\"meta\">"@ + escape_html(size) + " / uploaded "@ + escape_html(uploaded)
        + "</div>"@
}

/// The preview page for `file` whose bytes are served at `raw_url`, styled
/// by the user's preset when there is one.
pub open spec fn embed_page(file: StoredFile, raw_url: Seq<char>, preset: Option<EmbedPreset>) -> Seq<char> {
    let title = or_default(preset_title(preset), file.display_name@);
    let description = or_default(preset_description(preset), Seq::empty());
    let site_name = or_default(preset_site_name(preset), DEFAULT_SITE_NAME@);
    let color = sanitized_color(or_default(preset_color(preset), DEFAULT_COLOR@));
    let kind = preview_kind(file.content_type@);
    "<!DOCTYPE html>"@ + "<html><head>"@ + embed_head(
        title,
        site_name,
        description,
        color,
        preset_author(preset),
        kind,
        raw_url,
        file.content_type@,
    ) + "</head><body>"@ + embed_body(
        kind,
        raw_url,
        title,
        size_text(size_count(file.size_bytes)),
        calendar_text(file.created_at.secs, file.created_at.nanos),
    ) + "</body></html>"@
}

fn field_or<'a>(field: &'a Option<String>, fallback: &'a str) -> (r: &'a str)
    ensures
        r@ == or_default(preset_value(*field), fallback@),
{
    match field {
        Some(v) => v.as_str(),
        None => fallback,
    }
}

fn classify(content_type: &str) -> (k: PreviewKind)
    ensures
        k == preview_kind(content_type@),
{
    if has_prefix(content_type, "image/") {
        PreviewKind::Image
    } else if has_prefix(content_type, "video/") {
        PreviewKind::Video
    } else {
        PreviewKind::Other
    }
}

fn push_head_intro(out: &mut String, title: &str, site_name: &str, description: &str, color: &str)
    ensures
        final(out)@ == old(out)@ + head_intro(title@, site_name@, description@, color@),
{
    let ghost start = out@;
    out.append(
        "<meta charset=\"utf-8\"><meta name=\"viewport\" content=\"width=device-width, initial-scale=1\"><title>",
    );
    push_escaped(out, title);
    out.append("</title>");
    push_meta_property(out, "og:site_name", site_name);
    push_meta_property(out, "og:title", title);
    push_meta_property(out, "og:description", description);
    push_meta_name(out, "theme-color", color);
    assert(out@ =~= start + head_intro(title@, site_name@, description@, color@));
}

fn push_media_tags(out: &mut String, kind: PreviewKind, raw_url: &str, content_type: &str)
    ensures
        final(out)@ == old(out)@ + media_tags(kind, raw_url@, content_type@),
{
    let ghost start = out@;
    match kind {
        PreviewKind::Image => {
            push_meta_property(out, "og:image", raw_url);
            push_meta_name(out, "twitter:card", "summary_large_image");
        },
        PreviewKind::Video => {
            push_meta_property(out, "og:video", raw_url);
            push_meta_property(out, "og:video:type", content_type);
            push_meta_name(out, "twitter:card", "player");
        },
        PreviewKind::Other => {
            push_meta_name(out, "twitter:card", "summary");
        },
    }
    assert(out@ =~= start + media_tags(kind, raw_url@, content_type@));
}

fn push_author_tag(out: &mut String, author: Option<&str>)
    ensures
        final(out)@ == old(out)@ + author_tag(match author {
            Some(a) => Some(a@),
            None => None,
        }),
{
    match author {
        Some(a) => {
            push_meta_name(out, "twitter:creator", a);
        },
        None => {
            assert(out@ =~= out@ + Seq::<char>::empty());
        },
    }
}

fn push_style_block(out: &mut String, color: &str)
    ensures
        final(out)@ == old(out)@ + style_block(color@),
{
    let ghost start = out@;
    out.append("<style>");
    let css = page_css(color);
    out.append(css.as_str());
    out.append("</style>");
    assert(out@ =~= start + style_block(color@));
}

fn push_head(
    out: &mut String,
    title: &str,
    site_name: &str,
    description: &str,
    color: &str,
    author: Option<&str>,
    kind: PreviewKind,
    raw_url: &str,
    content_type: &str,
)
    ensures
        final(out)@ == old(out)@ + embed_head(
            title@,
            site_name@,
            description@,
            color@,
            match author {
                Some(a) => Some(a@),
                None => None,
            },
            kind,
            raw_url@,
            content_type@,
        ),
{
    let ghost start = out@;
    push_head_intro(out, title, site_name, description, color);
    push_media_tags(out, kind, raw_url, content_type);
    push_author_tag(out, author);
    push_style_block(out, color);
    assert(out@ =~= start + embed_head(
        title@,
        site_name@,
        description@,
        color@,
        match author {
            Some(a) => Some(a@),
            None => None,
        },
        kind,
        raw_url@,
        content_type@,
    ));
}

fn push_body(out: &mut String, kind: PreviewKind, raw_url: &str, title: &str, size: &str, uploaded: &str)
    ensures
        final(out)@ == old(out)@ + embed_body(kind, raw_url@, title@, size@, uploaded@),
{
    let ghost start = out@;
    match kind {
        PreviewKind::Image => {
            out.append("<img class=\"media\" src=\"");
            push_escaped(out, raw_url);
            out.append("\" alt=\"");
            push_escaped(out, title);
            out.append("\">");
        },
        PreviewKind::Video => {
            out.append("<video class=\"media\" src=\"");
            push_escaped(out, raw_url);
            out.append("\" controls></video>");
        },
        PreviewKind::Other => {
            out.append("<a class=\"download-link\" href=\"");
            push_escaped(out, raw_url);
            out.append("\">");
            push_escaped(out, title);
            out.append("</a>");
        },
    }
    out.append("<div class=\"meta\">");
    push_escaped(out, size);
    out.append(" / uploaded ");
    push_escaped(out, uploaded);
    out.append("</div>");
    assert(out@ =~= start + embed_body(kind, raw_url@, title@, size@, uploaded@));
}

/// The preview page for `file` whose bytes are served at `raw_url`: the
/// preset's title, description, site name, colour and author where it sets
/// them, else the file's name, nothing, "iono", the default colour and no
/// author; image, video or link tags after the content type; every value
/// escaped, the colour sanitized.
pub fn render_embed_html(file: &StoredFile, raw_url: &str, preset: Option<&EmbedPreset>) -> (r: String)
    requires
        file.created_at.valid(),
    ensures
        r@ == embed_page(*file, raw_url@, match preset {
            Some(p) => Some(*p),
            None => None,
        }),
{
    let ghost preset_v = match preset {
        Some(p) => Some(*p),
        None => None,
    };
    let (title, description, site_name, requested_color, author): (&str, &str, &str, &str, Option<&str>) =
        match preset {
        Some(p) => (
            field_or(&p.title, file.display_name.as_str()),
            field_or(&p.description, ""),
            field_or(&p.site_name, DEFAULT_SITE_NAME),
            field_or(&p.color, DEFAULT_COLOR),
            match &p.author_name {
                Some(a) => Some(a.as_str()),
                None => None,
            },
        ),
        None => (file.display_name.as_str(), "", DEFAULT_SITE_NAME, DEFAULT_COLOR, None),
    };
    proof {
        reveal_strlit("");
    }
    assert(description@ == or_default(preset_description(preset_v), Seq::empty()));
    let color = sanitize_color(requested_color);
    let kind = classify(file.content_type.as_str());
    let size_bytes: u64 = if file.size_bytes < 0 {
        0
    } else {
        file.size_bytes as u64
    };
    let size = format_file_size(size_bytes);
    let uploaded = format_calendar(file.created_at);
    let mut out = "<!DOCTYPE html>".to_owned();
    out.append("<html><head>");
    push_head(&mut out, title, site_name, description, color, author, kind, raw_url, file.content_type.as_str());
    out.append("</head><body>");
    push_body(&mut out, kind, raw_url, title, size.as_str(), uploaded.as_str());
    out.append("</body></html>");
    assert(out@ =~= embed_page(*file, raw_url@, preset_v));
    out
}

/// The title a preview of `file` shows: the preset's title when a preset
/// sets one, else the file's display name.
pub open spec fn shown_title(file: StoredFile, preset: Option<EmbedPreset>) -> Seq<char> {
    match preset {
        Some(p) => match p.title {
            Some(t) => t@,
            None => file.display_name@,
        },
        None => file.display_name@,
    }
}

/// The opening of a preview page up to the end of its `<title>` element,
/// for the title `title`.
pub open spec fn embed_title_opening(title: Seq<char>) -> Seq<char> {
    ("<!DOCTYPE html>"@ + "<html><head>"@) + (
    "<meta charset=\"utf-8\"><meta name=\"viewport\" content=\"width=device-width, initial-scale=1\"><title>"@
        + escape_html(title) + "</title>"@)
}

/// A preview page opens with a `<title>` that holds the preset's title when a
/// preset sets one and the file's display name otherwise, escaped; the same
/// title is its `og:title`, and an image's `alt` text.
pub proof fn lemma_embed_page_title(file: StoredFile, raw_url: Seq<char>, preset: Option<EmbedPreset>)
    ensures
        embed_title_opening(shown_title(file, preset)).is_prefix_of(embed_page(file, raw_url, preset)),
        occurs_in(meta_property("og:title"@, shown_title(file, preset)), embed_page(file, raw_url, preset)),
        preview_kind(file.content_type@) == PreviewKind::Image ==> occurs_in(
            "\" alt=\""@ + escape_html(shown_title(file, preset)) + "\">"@,
            embed_page(file, raw_url, preset),
        ),
{
    let title = shown_title(file, preset);
    assert(or_default(preset_title(preset), file.display_name@) == title);
    let description = or_default(preset_description(preset), Seq::empty());
    let site_name = or_default(preset_site_name(preset), DEFAULT_SITE_NAME@);
    let color = sanitized_color(or_default(preset_color(preset), DEFAULT_COLOR@));
    let kind = preview_kind(file.content_type@);
    let size = size_text(size_count(file.size_bytes));
    let uploaded = calendar_text(file.created_at.secs, file.created_at.nanos);
    let start = "<!DOCTYPE html>"@ + "<html><head>"@;
    let inner = "<meta charset=\"utf-8\"><meta name=\"viewport\" content=\"width=device-width, initial-scale=1\"><title>"@
        + escape_html(title) + "</title>"@;
    let site_tag = meta_property("og:site_name"@, site_name);
    let title_tag = meta_property("og:title"@, title);
    let description_tag = meta_property("og:description"@, description);
    let color_tag = meta_name("theme-color"@, color);
    let intro = head_intro(title, site_name, description, color);
    let media = media_tags(kind, raw_url, file.content_type@);
    let author = author_tag(preset_author(preset));
    let style = style_block(color);
    let head = embed_head(title, site_name, description, color, preset_author(preset), kind, raw_url, file.content_type@);
    let body = embed_body(kind, raw_url, title, size, uploaded);
    let page = embed_page(file, raw_url, preset);
    assert(intro == inner + site_tag + title_tag + description_tag + color_tag);
    assert(head == intro + media + author + style);
    assert(page == start + head + "</head><body>"@ + body + "</body></html>"@);

    // the title element
    lemma_prefix_of_concat(inner, site_tag);
    lemma_prefix_of_concat(inner + site_tag, title_tag);
    lemma_prefix_trans(inner, inner + site_tag, inner + site_tag + title_tag);
    lemma_prefix_of_concat(inner + site_tag + title_tag, description_tag);
    lemma_prefix_trans(inner, inner + site_tag + title_tag, inner + site_tag + title_tag + description_tag);
    lemma_prefix_of_concat(inner + site_tag + title_tag + description_tag, color_tag);
    lemma_prefix_trans(inner, inner + site_tag + title_tag + description_tag, intro);
    lemma_prefix_of_concat(intro, media + author + style);
    assert(intro + (media + author + style) =~= head);
    lemma_prefix_trans(inner, intro, head);
    lemma_prefix_after(start, inner, head);
    lemma_prefix_of_concat(start + head, "</head><body>"@ + body + "</body></html>"@);
    assert(start + head + ("</head><body>"@ + body + "</body></html>"@) =~= page);
    lemma_prefix_trans(start + inner, start + head, page);
    assert(embed_title_opening(title) == start + inner);

    // the og:title tag
    lemma_occurs_in_self(title_tag);
    lemma_occurs_in_extended(title_tag, title_tag, inner + site_tag, description_tag);
    lemma_occurs_in_extended(title_tag, inner + site_tag + title_tag, Seq::empty(), description_tag);
    lemma_occurs_in_extended(title_tag, inner + site_tag + title_tag + description_tag, Seq::empty(), color_tag);
    lemma_occurs_in_extended(title_tag, intro, start, media + author + style);
    lemma_occurs_in_extended(title_tag, start + intro, Seq::empty(), media + author + style);
    assert(start + intro + (media + author + style) =~= start + head);
    lemma_occurs_in_extended(title_tag, start + head, Seq::empty(), "</head><body>"@ + body + "</body></html>"@);

    // the image's alt text
    if kind == PreviewKind::Image {
        let alt = "\" alt=\""@ + escape_html(title) + "\">"@;
        let before = "<img class=\"media\" src=\""@ + escape_html(raw_url);
        let after = "<div class=\"meta\">"@ + escape_html(size) + " / uploaded "@ + escape_html(uploaded) + "</div>"@;
        lemma_occurs_in_run(before, "\" alt=\""@, escape_html(title), "\">"@);
        lemma_occurs_in_extended(alt, before + "\" alt=\""@ + escape_html(title) + "\">"@, Seq::empty(), after);
        assert(before + "\" alt=\""@ + escape_html(title) + "\">"@ + after =~= body);
        lemma_occurs_in_extended(alt, body, start + head + "</head><body>"@, Seq::empty());
        lemma_occurs_in_extended(alt, start + head + "</head><body>"@ + body, Seq::empty(), "</body></html>"@);
    }
}

/// A preset that sets no title leaves the preview's title to the file's
/// display name, exactly as when the user has no preset at all.
pub proof fn lemma_untitled_preset_keeps_file_name(file: StoredFile, raw_url: Seq<char>, preset: EmbedPreset)
    requires
        preset.title is None,
    ensures
        embed_title_opening(file.display_name@).is_prefix_of(embed_page(file, raw_url, Some(preset))),
        embed_title_opening(file.display_name@).is_prefix_of(embed_page(file, raw_url, None)),
{
    lemma_embed_page_title(file, raw_url, Some(preset));
    lemma_embed_page_title(file, raw_url, None);
}

} // verus!
