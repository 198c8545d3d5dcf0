//! ShareX custom-uploader configurations that a user downloads to upload
//! files or pastes with their API key.
use vstd::prelude::*;
use vstd::string::*;

verus! {

/// What a configuration uploads.
#[derive(Clone, Copy, Debug, PartialEq, Eq, Structural)]
pub enum DestinationKind {
    File,
    Paste,
}

/// The query of a configuration request: which destination to generate.
#[derive(Clone, Copy, Debug, PartialEq, Eq, Structural)]
pub struct SharexQuery {
    pub kind: DestinationKind,
}

impl DestinationKind {
    /// The lower-case name a request uses for the destination.
    pub open spec fn name_spec(self) -> Seq<char> {
        match self {
            DestinationKind::File => "file"@,
            DestinationKind::Paste => "paste"@,
        }
    }

    /// The destination named `name` (`file` or `paste`, lower case); `None`
    /// for any other name.
    pub fn from_name(name: &str) -> (r: Option<DestinationKind>)
        ensures
            r matches Some(k) ==> k.name_spec() == name@,
            r is None ==> name@ != "file"@ && name@ != "paste"@,
    {
        let file = "file";
        let paste = "paste";
        if name.unicode_len() == 4 && name.get_char(0) == 'f' && name.get_char(1) == 'i'
            && name.get_char(2) == 'l' && name.get_char(3) == 'e' {
            proof {
                reveal_strlit("file");
            }
            assert(name@ =~= "file"@);
            Some(DestinationKind::File)
        } else if name.unicode_len() == 5 && name.get_char(0) == 'p' && name.get_char(1) == 'a'
            && name.get_char(2) == 's' && name.get_char(3) == 't' && name.get_char(4) == 'e' {
            proof {
                reveal_strlit("paste");
            }
            assert(name@ =~= "paste"@);
            Some(DestinationKind::Paste)
        } else {
            proof {
                reveal_strlit("file");
                reveal_strlit("paste");
                if name@ == "file"@ {
                    assert(name@[0] == 'f' && name@[1] == 'i' && name@[2] == 'l' && name@[3] == 'e');
                }
                if name@ == "paste"@ {
                    assert(name@[0] == 'p' && name@[1] == 'a' && name@[2] == 's' && name@[3] == 't'
                        && name@[4] == 'e');
                }
            }
            None
        }
    }
}

/// A ShareX custom uploader (`.sxcu`) configuration.
#[derive(Clone, Debug)]
pub struct SharexConfig {
    pub version: String,
    pub name: String,
    pub destination_type: String,
    pub request_method: String,
    pub request_url: String,
    /// The `Authorization` header ShareX sends.
    pub authorization: String,
    pub body: String,
    /// The form field the file goes in (file uploads).
    pub file_form_name: Option<String>,
    /// The JSON body template (paste uploads).
    pub data: Option<String>,
    pub url: String,
}

/// The file name a configuration is downloaded as.
pub open spec fn config_file_name(kind: DestinationKind) -> Seq<char> {
    match kind {
        DestinationKind::File => "iono-file.sxcu"@,
        DestinationKind::Paste => "iono-paste.sxcu"@,
    }
}

/// The configuration for `kind`, uploading to `ingest_url` with `api_key`.
pub open spec fn config_spec(kind: DestinationKind, api_key: Seq<char>, ingest_url: Seq<char>, c: SharexConfig) -> bool {
    &&& c.version@ == "21.0.0"@
    &&& c.request_method@ == "POST"@
    &&& c.authorization@ == "Bearer "@ + api_key
    &&& c.url@ == "{json:url}"@
    &&& match kind {
        DestinationKind::File => {
            &&& c.name@ == "iono (images)"@
            &&& c.destination_type@ == "ImageUploader, FileUploader"@
            &&& c.request_url@ == ingest_url + "/"@
            &&& c.body@ == "MultipartFormData"@
            &&& c.file_form_name matches Some(f) && f@ == "file"@
            &&& c.data is None
        },
        DestinationKind::Paste => {
            &&& c.name@ == "iono (pastes)"@
            &&& c.destination_type@ == "TextUploader"@
            &&& c.request_url@ == ingest_url + "/pastes"@
            &&& c.body@ == "JSON"@
            &&& c.file_form_name is None
            &&& c.data matches Some(d) && d@ == "{\"content\":\"{input}\"}"@
        },
    }
}

/// The configuration for `kind` and the file name it is downloaded as:
/// files go as multipart form data to `{ingest_url}/`, pastes as JSON
/// `{"content":"{input}"}` to `{ingest_url}/pastes`, both with
/// `Authorization: Bearer {api_key}`.
pub fn build_config(kind: DestinationKind, api_key: &str, ingest_url: &str) -> (r: (String, SharexConfig))
    ensures
        r.0@ == config_file_name(kind),
        config_spec(kind, api_key@, ingest_url@, r.1),
{
    let mut authorization = "Bearer ".to_owned();
    authorization.append(api_key);
    match kind {
        DestinationKind::File => {
            let mut request_url = ingest_url.to_owned();
            request_url.append("/");
            (
                "iono-file.sxcu".to_owned(),
                SharexConfig {
                    version: "21.0.0".to_owned(),
                    name: "iono (images)".to_owned(),
                    destination_type: "ImageUploader, FileUploader".to_owned(),
                    request_method: "POST".to_owned(),
                    request_url,
                    authorization,
                    body: "MultipartFormData".to_owned(),
                    file_form_name: Some("file".to_owned()),
                    data: None,
                    url: "{json:url}".to_owned(),
                },
            )
        },
        DestinationKind::Paste => {
            let mut request_url = ingest_url.to_owned();
            request_url.append("/pastes");
            (
                "iono-paste.sxcu".to_owned(),
                SharexConfig {
                    version: "21.0.0".to_owned(),
                    name: "iono (pastes)".to_owned(),
                    destination_type: "TextUploader".to_owned(),
                    request_method: "POST".to_owned(),
                    request_url,
                    authorization,
                    body: "JSON".to_owned(),
                    file_form_name: None,
                    data: Some("{\"content\":\"{input}\"}".to_owned()),
                    url: "{json:url}".to_owned(),
                },
            )
        },
    }
}

/// The `Content-Disposition` that offers a configuration as a download.
pub fn attachment_disposition(filename: &str) -> (r: String)
    ensures
        r@ == "attachment; filename=\""@ + filename@ + "\""@,
{
    let mut s = "attachment; filename=\"".to_owned();
    s.append(filename);
    s.append("\"");
    s
}

} // verus!
