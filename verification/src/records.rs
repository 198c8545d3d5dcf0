//! What the service reads of its stored records.
use vstd::prelude::*;
use crate::time::UnixTime;

verus! {

/// An uploaded file as the viewer reads it.
#[derive(Clone, Debug)]
pub struct StoredFile {
    pub id: String,
    pub user_id: String,
    /// The name the file is served under.
    pub display_name: String,
    /// The storage key of the file's bytes.
    pub original_name: String,
    pub content_type: String,
    pub size_bytes: i64,
    pub password_hash: Option<String>,
    pub expires_at: Option<UnixTime>,
    pub created_at: UnixTime,
}

/// A paste as the viewer reads it.
#[derive(Clone, Debug)]
pub struct StoredPaste {
    pub id: String,
    pub user_id: String,
    pub key: String,
    pub title: Option<String>,
    pub content: String,
    pub syntax: Option<String>,
    pub password_hash: Option<String>,
    pub expires_at: Option<UnixTime>,
    pub created_at: UnixTime,
}

/// The values a user set for the link previews of their files.
#[derive(Clone, Debug)]
pub struct EmbedPreset {
    pub site_name: Option<String>,
    pub author_name: Option<String>,
    pub title: Option<String>,
    pub description: Option<String>,
    pub color: Option<String>,
}

/// A user's upload settings as stored.
#[derive(Clone, Debug)]
pub struct UserSettings {
    /// Characters in generated names.
    pub display_name_length: i16,
    /// The name of the style generated names follow.
    pub display_name_style: String,
    pub display_name_include_extension: bool,
    pub raw_links_only: bool,
    pub default_expires_in_seconds: Option<i64>,
    pub lossless_images: bool,
}

} // verus!
