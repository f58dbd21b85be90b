//! The upload step: what is sent with the recording, and the shareable link
//! read back from the storage service's response.

use vstd::prelude::*;
use crate::error::PipelineError;

verus! {

/// Where recordings are uploaded.
pub const UPLOAD_URL: &'static str = "https://www.googleapis.com/upload/drive/v3/files";

/// The content type of a recording.
pub const MIME_TYPE: &'static str = "audio/wav";

/// The content type of the metadata part.
pub const METADATA_MIME: &'static str = "application/json;charset=UTF-8";

/// The credential scope that an upload needs.
pub const DRIVE_SCOPE: &'static str = "https://www.googleapis.com/auth/drive.file";

/// The text that a shareable link starts with; the object id follows.
pub const SHARE_PREFIX: &'static str = "https://drive.google.com/uc?id=";

/// The shareable link of the object `id`.
pub open spec fn link_spec(id: Seq<char>) -> Seq<char> {
    SHARE_PREFIX@ + id
}

/// The fields that an upload of one recording needs.
#[derive(Debug)]
pub struct RequiredFields {
    pub file_name: String,
    pub parent_id: String,
    pub mime_type: String,
    pub upload_url: String,
}

/// The JSON string literal that serde_json writes for `s`: quoted, with
/// quotes, backslashes and control characters escaped.
pub uninterp spec fn json_quoted(s: Seq<char>) -> Seq<char>;

/// Relies on serde_json::Value::String and its `to_string`, which cannot fail
/// for a string: the text is a function of the string alone.
#[verifier::external_body]
pub(crate) fn json_string(s: &str) -> (r: String)
    ensures
        r@ == json_quoted(s@),
{
    serde_json::Value::String(s.to_string()).to_string()
}

/// The metadata object `{"name":..,"mimeType":..,"parents":[..]}` of an
/// upload, each value a JSON string.
pub open spec fn metadata_spec(name: Seq<char>, mime_type: Seq<char>, parent_id: Seq<char>) -> Seq<char> {
    "{\"name\":"@ + json_quoted(name) + ",\"mimeType\":"@ + json_quoted(mime_type)
        + ",\"parents\":["@ + json_quoted(parent_id) + "]}"@
}

impl RequiredFields {
    pub fn new(file_name: String, parent_id: String, mime_type: String, upload_url: String) -> (r: Self)
        ensures
            r.file_name == file_name,
            r.parent_id == parent_id,
            r.mime_type == mime_type,
            r.upload_url == upload_url,
    {
        RequiredFields { file_name, parent_id, mime_type, upload_url }
    }

    /// The fields of a recording named `file_name`, stored under the folder
    /// `parent_id`, sent to the service's multipart upload address.
    pub fn for_recording(file_name: &str, parent_id: &str) -> (r: Self)
        ensures
            r.file_name@ == file_name@,
            r.parent_id@ == parent_id@,
            r.mime_type@ == MIME_TYPE@,
            r.upload_url@ == UPLOAD_URL@,
    {
        RequiredFields {
            file_name: String::from_str(file_name),
            parent_id: String::from_str(parent_id),
            mime_type: String::from_str(MIME_TYPE),
            upload_url: String::from_str(UPLOAD_URL),
        }
    }

    /// The metadata part: the object's name, content type and parent folder.
    pub fn metadata(&self) -> (r: String)
        ensures
            r@ == metadata_spec(self.file_name@, self.mime_type@, self.parent_id@),
    {
        let mut text = String::from_str("{\"name\":");
        text.append(json_string(self.file_name.as_str()).as_str());
        text.append(",\"mimeType\":");
        text.append(json_string(self.mime_type.as_str()).as_str());
        text.append(",\"parents\":[");
        text.append(json_string(self.parent_id.as_str()).as_str());
        text.append("]}");
        text
    }
}

/// The link for the object `id`.
pub fn link_for_id(id: &str) -> (r: String)
    ensures
        r@ == link_spec(id@),
{
    let mut link = String::from_str(SHARE_PREFIX);
    link.append(id);
    link
}

/// The link for the `id` member read from an upload response: a missing or
/// empty id is refused, and no link is made for it.
pub fn link_from_member(member: Option<&str>) -> (r: Result<String, PipelineError>)
    ensures
        match member {
            Some(id) if id@.len() > 0 => r matches Ok(link) && link@ == link_spec(id@),
            _ => r == Err::<String, PipelineError>(PipelineError::MissingObjectId),
        },
{
    match member {
        Some(id) => {
            if id.is_empty() {
                Err(PipelineError::MissingObjectId)
            } else {
                Ok(link_for_id(id))
            }
        },
        None => Err(PipelineError::MissingObjectId),
    }
}

/// Whether serde_json parses the text as JSON.
pub uninterp spec fn json_valid(text: Seq<char>) -> bool;

/// The string value of member `key` of the JSON object in `text`; none when
/// the text is not an object, has no such member, or its value is no string.
pub uninterp spec fn json_str_member(text: Seq<char>, key: Seq<char>) -> Option<Seq<char>>;

#[verifier::external_type_specification]
#[verifier::external_body]
pub struct ExJsonError(serde_json::Error);

/// Relies on serde_json::from_str into a serde_json::Value, which fails just
/// when the text is not JSON, then Value::get, which finds a member of an
/// object only, and Value::as_str, which takes a string value only.
#[verifier::external_body]
fn read_str_member(text: &str, key: &str) -> (r: Result<Option<String>, serde_json::Error>)
    ensures
        r is Ok <==> json_valid(text@),
        r matches Ok(m) ==> match m {
            Some(s) => json_str_member(text@, key@) == Some(s@),
            None => json_str_member(text@, key@) is None,
        },
{
    let value = serde_json::from_str::<serde_json::Value>(text)?;
    Ok(value.get(key).and_then(serde_json::Value::as_str).map(str::to_string))
}

/// The shareable link of the object that an upload response describes.
pub fn extract_link(response: &str) -> (r: Result<String, PipelineError>)
    ensures
        !json_valid(response@) ==> r == Err::<String, PipelineError>(PipelineError::UploadFailure),
        json_valid(response@) ==> match json_str_member(response@, "id"@) {
            Some(id) if id.len() > 0 => r matches Ok(link) && link@ == link_spec(id),
            _ => r == Err::<String, PipelineError>(PipelineError::MissingObjectId),
        },
{
    match read_str_member(response, "id") {
        Ok(Some(id)) => link_from_member(Some(id.as_str())),
        Ok(None) => link_from_member(None),
        Err(_) => Err(PipelineError::UploadFailure),
    }
}

} // verus!
