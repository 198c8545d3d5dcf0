use iono::sharex::{attachment_disposition, build_config, DestinationKind};

#[test]
fn file_config_targets_the_ingest_upload_route() {
    let (filename, config) = build_config(DestinationKind::File, "iono_secret", "https://up.iono.pics");

    assert_eq!(filename, "iono-file.sxcu");
    assert_eq!(config.request_url, "https://up.iono.pics/");
    assert_eq!(config.file_form_name.as_deref(), Some("file"));
    assert_eq!(config.authorization, "Bearer iono_secret");
}

#[test]
fn paste_config_posts_json_to_the_gateway() {
    let (filename, config) = build_config(DestinationKind::Paste, "iono_secret", "https://up.iono.pics");

    assert_eq!(filename, "iono-paste.sxcu");
    assert_eq!(config.request_url, "https://up.iono.pics/pastes");
    assert_eq!(config.body, "JSON");

    let data: serde_json::Value = serde_json::from_str(config.data.as_deref().unwrap()).unwrap();
    assert_eq!(data["content"], "{input}");
}

#[test]
fn destination_kind_parses_from_lowercase() {
    let name: String = serde_json::from_str("\"paste\"").unwrap();
    let kind = DestinationKind::from_name(&name).unwrap();
    assert!(matches!(kind, DestinationKind::Paste));
    let other: String = serde_json::from_str("\"nope\"").unwrap();
    assert!(DestinationKind::from_name(&other).is_none());
}

#[test]
fn file_config_has_the_fixed_fields() {
    let (_, config) = build_config(DestinationKind::File, "k", "https://u");
    assert_eq!(config.version, "21.0.0");
    assert_eq!(config.name, "iono (images)");
    assert_eq!(config.destination_type, "ImageUploader, FileUploader");
    assert_eq!(config.request_method, "POST");
    assert_eq!(config.body, "MultipartFormData");
    assert_eq!(config.url, "{json:url}");
    assert!(config.data.is_none());
}

#[test]
fn paste_config_has_the_fixed_fields() {
    let (_, config) = build_config(DestinationKind::Paste, "k", "https://u");
    assert_eq!(config.name, "iono (pastes)");
    assert_eq!(config.destination_type, "TextUploader");
    assert_eq!(config.authorization, "Bearer k");
    assert_eq!(config.data.as_deref(), Some("{\"content\":\"{input}\"}"));
    assert!(config.file_form_name.is_none());
}

#[test]
fn destination_names_are_case_sensitive() {
    assert_eq!(DestinationKind::from_name("file"), Some(DestinationKind::File));
    assert_eq!(DestinationKind::from_name("File"), None);
    assert_eq!(DestinationKind::from_name("pastes"), None);
    assert_eq!(DestinationKind::from_name(""), None);
}

#[test]
fn configurations_download_as_attachments() {
    assert_eq!(attachment_disposition("iono-file.sxcu"), "attachment; filename=\"iono-file.sxcu\"");
}
