use mr_copier::decode::{decode_created, decode_merge_request};
use mr_copier::model::{DecodeError, DocField};

#[test]
fn decode_valid_merge_request() {
    let body = "{\"source_branch\":\"feature/x\",\"title\":\"Add X\",\"description\":\"desc\",\"iid\":42}";
    let doc = decode_merge_request(body).unwrap();
    assert_eq!(doc.source_branch, "feature/x");
    assert_eq!(doc.title, "Add X");
    assert_eq!(doc.description, "desc");
}

#[test]
fn decode_rejects_invalid_json() {
    let r = decode_merge_request("not json at all");
    assert_eq!(r.unwrap_err(), DecodeError::InvalidJson);
}

#[test]
fn decode_rejects_missing_source_branch() {
    let body = "{\"title\":\"Add X\",\"description\":\"desc\"}";
    let r = decode_merge_request(body);
    assert_eq!(r.unwrap_err(), DecodeError::MissingField(DocField::SourceBranch));
}

#[test]
fn decode_rejects_missing_title() {
    let body = "{\"source_branch\":\"feature/x\",\"description\":\"desc\"}";
    let r = decode_merge_request(body);
    assert_eq!(r.unwrap_err(), DecodeError::MissingField(DocField::Title));
}

#[test]
fn decode_rejects_missing_description() {
    let body = "{\"source_branch\":\"feature/x\",\"title\":\"Add X\"}";
    let r = decode_merge_request(body);
    assert_eq!(r.unwrap_err(), DecodeError::MissingField(DocField::Description));
}

#[test]
fn decode_rejects_non_string_field() {
    let body = "{\"source_branch\":\"feature/x\",\"title\":5,\"description\":\"desc\"}";
    let r = decode_merge_request(body);
    assert_eq!(r.unwrap_err(), DecodeError::MissingField(DocField::Title));
}

#[test]
fn decode_unescapes_string_values() {
    let body = "{\"source_branch\":\"a\\\"b\",\"title\":\"line\\nbreak\",\"description\":\"\"}";
    let doc = decode_merge_request(body).unwrap();
    assert_eq!(doc.source_branch, "a\"b");
    assert_eq!(doc.title, "line\nbreak");
    assert_eq!(doc.description, "");
}

#[test]
fn decode_valid_created() {
    let body = "{\"iid\":9,\"web_url\":\"https://git.example.com/p/-/merge_requests/9\"}";
    let created = decode_created(body).unwrap();
    assert_eq!(created.web_url, "https://git.example.com/p/-/merge_requests/9");
}

#[test]
fn decode_created_rejects_missing_web_url() {
    let r = decode_created("{\"iid\":9}");
    assert_eq!(r.unwrap_err(), DecodeError::MissingField(DocField::WebUrl));
}

#[test]
fn decode_created_rejects_invalid_json() {
    let r = decode_created("{\"iid\":");
    assert_eq!(r.unwrap_err(), DecodeError::InvalidJson);
}
