//! Checks on new pastes and short links before anything is stored.
use vstd::prelude::*;
use vstd::string::*;
use vstd::utf8::encode_utf8;
use crate::error::{bad_request, is_bad_request, ApiError};
use crate::text::{has_prefix, trim, trim_text};

verus! {

/// Largest paste content, in bytes of UTF-8 (1 MiB).
pub const MAX_CONTENT_LENGTH: usize = 1048576;

/// Most characters in a paste title.
pub const MAX_TITLE_LENGTH: usize = 256;

/// Most characters in a paste's syntax name.
pub const MAX_SYNTAX_LENGTH: usize = 64;

/// Most characters in a paste password.
pub const MAX_PASSWORD_LENGTH: usize = 256;

/// Longest target of a short link, in bytes (what browsers accept in the
/// address bar).
pub const MAX_TARGET_URL_LENGTH: usize = 2048;

/// A new paste as a user sends it.
#[derive(Clone, Debug)]
pub struct CreatePasteRequest {
    pub title: Option<String>,
    pub content: String,
    pub syntax: Option<String>,
    pub password: Option<String>,
}

/// The field is present and has more than `max` characters.
pub open spec fn longer_than(field: Option<String>, max: usize) -> bool {
    match field {
        Some(v) => v@.len() > max,
        None => false,
    }
}

/// The reason a new paste is refused, checked in this order; `None` when it
/// is accepted.
pub open spec fn paste_request_problem(req: CreatePasteRequest) -> Option<Seq<char>> {
    if req.content@.len() == 0 {
        Some("paste content must not be empty"@)
    } else if encode_utf8(req.content@).len() > MAX_CONTENT_LENGTH {
        Some("paste content must be at most 1 MiB"@)
    } else if longer_than(req.title, MAX_TITLE_LENGTH) {
        Some("paste title must be at most 256 characters"@)
    } else if longer_than(req.syntax, MAX_SYNTAX_LENGTH) {
        Some("paste syntax must be at most 64 characters"@)
    } else if longer_than(req.password, MAX_PASSWORD_LENGTH) {
        Some("paste password must be at most 256 characters"@)
    } else {
        None
    }
}

fn longer_than_exec(field: &Option<String>, max: usize) -> (r: bool)
    ensures
        r == longer_than(*field, max),
{
    match field {
        Some(v) => v.as_str().unicode_len() > max,
        None => false,
    }
}

/// Accepts a new paste when its content is not empty and at most 1 MiB,
/// and its title, syntax and password, where given, are at most 256, 64
/// and 256 characters; else the first of these that fails, as a bad request.
pub fn validate_paste_request(req: &CreatePasteRequest) -> (r: Result<(), ApiError>)
    ensures
        r is Ok <==> paste_request_problem(*req) is None,
        r matches Err(e) ==> is_bad_request(e, paste_request_problem(*req)->Some_0),
{
    let content = req.content.as_str();
    if content.is_empty() {
        return Err(bad_request("paste content must not be empty"));
    }
    if content.as_bytes().len() > MAX_CONTENT_LENGTH {
        return Err(bad_request("paste content must be at most 1 MiB"));
    }
    if longer_than_exec(&req.title, MAX_TITLE_LENGTH) {
        return Err(bad_request("paste title must be at most 256 characters"));
    }
    if longer_than_exec(&req.syntax, MAX_SYNTAX_LENGTH) {
        return Err(bad_request("paste syntax must be at most 64 characters"));
    }
    if longer_than_exec(&req.password, MAX_PASSWORD_LENGTH) {
        return Err(bad_request("paste password must be at most 256 characters"));
    }
    Ok(())
}

/// A new short link as a user sends it.
#[derive(Clone, Debug)]
pub struct CreateShortLinkRequest {
    pub target_url: String,
}

/// The reason a (trimmed) short-link target is refused, checked in this
/// order; `None` when it is accepted.
pub open spec fn target_url_problem(url: Seq<char>) -> Option<Seq<char>> {
    if encode_utf8(url).len() > MAX_TARGET_URL_LENGTH {
        Some("target url must be at most 2048 characters"@)
    } else if !"http://"@.is_prefix_of(url) && !"https://"@.is_prefix_of(url) {
        Some("target url must start with http:// or https://"@)
    } else {
        None
    }
}

/// Accepts a target of at most 2048 bytes that starts with `http://` or
/// `https://`; else the first of these that fails, as a bad request.
pub fn validate_target_url(url: &str) -> (r: Result<(), ApiError>)
    ensures
        r is Ok <==> target_url_problem(url@) is None,
        r matches Err(e) ==> is_bad_request(e, target_url_problem(url@)->Some_0),
{
    if url.as_bytes().len() > MAX_TARGET_URL_LENGTH {
        return Err(bad_request("target url must be at most 2048 characters"));
    }
    if !has_prefix(url, "http://") && !has_prefix(url, "https://") {
        return Err(bad_request("target url must start with http:// or https://"));
    }
    Ok(())
}

/// The target of a new short link: the request's target without surrounding
/// white space, when it passes the checks on targets.
pub fn accept_short_link_request(req: &CreateShortLinkRequest) -> (r: Result<String, ApiError>)
    ensures
        r is Ok <==> target_url_problem(trim(req.target_url@)) is None,
        r matches Ok(u) ==> u@ == trim(req.target_url@),
        r matches Err(e) ==> is_bad_request(e, target_url_problem(trim(req.target_url@))->Some_0),
{
    let url = trim_text(req.target_url.as_str());
    validate_target_url(url)?;
    Ok(url.to_owned())
}

} // verus!
