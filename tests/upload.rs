use volp_raspberrypi::error::PipelineError;
use volp_raspberrypi::upload::{extract_link, link_for_id, link_from_member, RequiredFields, MIME_TYPE, UPLOAD_URL};

#[test]
fn link_is_read_from_the_id_member() {
    let body = "{\"id\": \"abc123\", \"name\": \"2024.wav\", \"kind\": \"drive#file\"}";
    assert_eq!(extract_link(body), Ok("https://drive.google.com/uc?id=abc123".to_string()));
}

#[test]
fn id_characters_are_kept_whole() {
    let body = "{\"id\": \"\\\"q-_9\\\"\"}";
    assert_eq!(extract_link(body), Ok("https://drive.google.com/uc?id=\"q-_9\"".to_string()));
}

#[test]
fn missing_id_is_refused() {
    assert_eq!(extract_link("{\"name\": \"x\"}"), Err(PipelineError::MissingObjectId));
    assert_eq!(extract_link("{\"id\": 42}"), Err(PipelineError::MissingObjectId));
    assert_eq!(extract_link("{\"id\": \"\"}"), Err(PipelineError::MissingObjectId));
    assert_eq!(extract_link("[\"id\"]"), Err(PipelineError::MissingObjectId));
}

#[test]
fn malformed_response_is_an_upload_failure() {
    assert_eq!(extract_link("not json"), Err(PipelineError::UploadFailure));
    assert_eq!(extract_link("{\"id\": \"abc\""), Err(PipelineError::UploadFailure));
}

#[test]
fn link_from_member_needs_a_non_empty_id() {
    assert_eq!(link_from_member(Some("abc123")), Ok("https://drive.google.com/uc?id=abc123".to_string()));
    assert_eq!(link_from_member(Some("")), Err(PipelineError::MissingObjectId));
    assert_eq!(link_from_member(None), Err(PipelineError::MissingObjectId));
    assert_eq!(link_for_id("file42"), "https://drive.google.com/uc?id=file42");
}

#[test]
fn required_fields_hold_what_they_were_given() {
    let f = RequiredFields::new("a.wav".to_string(), "p".to_string(), "audio/wav".to_string(), "u".to_string());
    assert_eq!(f.file_name, "a.wav");
    assert_eq!(f.parent_id, "p");
    assert_eq!(f.mime_type, "audio/wav");
    assert_eq!(f.upload_url, "u");
    let r = RequiredFields::for_recording("b.wav", "folder");
    assert_eq!(r.mime_type, MIME_TYPE);
    assert_eq!(r.upload_url, UPLOAD_URL);
}

#[test]
fn metadata_names_file_type_and_parent() {
    let r = RequiredFields::for_recording("2024-01-02-03-04-05.wav", "folder\"1");
    let text = r.metadata();
    let v: serde_json::Value = serde_json::from_str(&text).unwrap();
    assert_eq!(v.get("name").and_then(|x| x.as_str()), Some("2024-01-02-03-04-05.wav"));
    assert_eq!(v.get("mimeType").and_then(|x| x.as_str()), Some("audio/wav"));
    let parents = v.get("parents").and_then(|x| x.as_array()).unwrap();
    assert_eq!(parents.len(), 1);
    assert_eq!(parents[0].as_str(), Some("folder\"1"));
    assert_eq!(v.as_object().unwrap().len(), 3);
    assert_eq!(
        text,
        "{\"name\":\"2024-01-02-03-04-05.wav\",\"mimeType\":\"audio/wav\",\"parents\":[\"folder\\\"1\"]}"
    );
}
