//! Defensive decoding of the hosting API's JSON responses into the
//! library's own documents.

use vstd::prelude::*;

use crate::model::{Created, CreatedV, DecodeError, DocField, MergeRequest, MergeRequestV};

verus! {

/// Whether `serde_json` accepts `s` as a JSON document.
pub uninterp spec fn json_text_ok(s: Seq<char>) -> bool;

/// The string value at `key` in the top-level object of the JSON text `s`:
/// `None` where `s` is not valid JSON, not an object, has no such key, or
/// holds a non-string value there.
pub uninterp spec fn json_str_field(s: Seq<char>, key: Seq<char>) -> Option<Seq<char>>;

/// Relies on `serde_json::from_str::<serde_json::Value>`: it returns `Ok`
/// exactly when the text is valid JSON, a function of the text alone.
#[verifier::external_body]
fn json_text_is_valid(s: &str) -> (r: bool)
    ensures
        r == json_text_ok(s@),
{
    serde_json::from_str::<serde_json::Value>(s).is_ok()
}

/// Relies on `serde_json::from_str`, `serde_json::Value::get` and
/// `serde_json::Value::as_str`: parsing `s` and looking `key` up in the
/// top-level object yields a string value, or nothing, as a function of
/// `s` and `key` alone; an unparsable text yields nothing.
#[verifier::external_body]
fn json_get_str_field(s: &str, key: &str) -> (r: Option<String>)
    ensures
        r is Some <==> json_str_field(s@, key@) is Some,
        r matches Some(v) ==> json_str_field(s@, key@) == Some(v@),
        !json_text_ok(s@) ==> r is None,
{
    match serde_json::from_str::<serde_json::Value>(s) {
        Ok(doc) => match doc.get(key) {
            Some(field) => field.as_str().map(|text| text.to_string()),
            None => None,
        },
        Err(_) => None,
    }
}

/// What decoding a fetched merge-request body yields: the three copied
/// fields, or the first decode error, fields checked in a fixed order.
pub open spec fn spec_decode_merge_request(s: Seq<char>) -> Result<MergeRequestV, DecodeError> {
    if !json_text_ok(s) {
        Err(DecodeError::InvalidJson)
    } else {
        match json_str_field(s, "source_branch"@) {
            None => Err(DecodeError::MissingField(DocField::SourceBranch)),
            Some(source_branch) => match json_str_field(s, "title"@) {
                None => Err(DecodeError::MissingField(DocField::Title)),
                Some(title) => match json_str_field(s, "description"@) {
                    None => Err(DecodeError::MissingField(DocField::Description)),
                    Some(description) => Ok(MergeRequestV { source_branch, title, description }),
                },
            },
        }
    }
}

/// What decoding a creation-response body yields: its `web_url`, or the
/// first decode error.
pub open spec fn spec_decode_created(s: Seq<char>) -> Result<CreatedV, DecodeError> {
    if !json_text_ok(s) {
        Err(DecodeError::InvalidJson)
    } else {
        match json_str_field(s, "web_url"@) {
            None => Err(DecodeError::MissingField(DocField::WebUrl)),
            Some(web_url) => Ok(CreatedV { web_url }),
        }
    }
}

/// Decodes a fetched merge-request body, exactly as
/// `spec_decode_merge_request` describes it.
pub fn decode_merge_request(body: &str) -> (r: Result<MergeRequest, DecodeError>)
    ensures
        r matches Ok(doc) ==> spec_decode_merge_request(body@) == Ok::<MergeRequestV, DecodeError>(doc@),
        r matches Err(e) ==> spec_decode_merge_request(body@) == Err::<MergeRequestV, DecodeError>(e),
{
    if !json_text_is_valid(body) {
        return Err(DecodeError::InvalidJson);
    }
    let source_branch = match json_get_str_field(body, "source_branch") {
        Some(v) => v,
        None => {
            return Err(DecodeError::MissingField(DocField::SourceBranch));
        },
    };
    let title = match json_get_str_field(body, "title") {
        Some(v) => v,
        None => {
            return Err(DecodeError::MissingField(DocField::Title));
        },
    };
    let description = match json_get_str_field(body, "description") {
        Some(v) => v,
        None => {
            return Err(DecodeError::MissingField(DocField::Description));
        },
    };
    Ok(MergeRequest { source_branch, title, description })
}

/// Decodes a creation-response body, exactly as `spec_decode_created`
/// describes it.
pub fn decode_created(body: &str) -> (r: Result<Created, DecodeError>)
    ensures
        r matches Ok(doc) ==> spec_decode_created(body@) == Ok::<CreatedV, DecodeError>(doc@),
        r matches Err(e) ==> spec_decode_created(body@) == Err::<CreatedV, DecodeError>(e),
{
    if !json_text_is_valid(body) {
        return Err(DecodeError::InvalidJson);
    }
    match json_get_str_field(body, "web_url") {
        Some(web_url) => Ok(Created { web_url }),
        None => Err(DecodeError::MissingField(DocField::WebUrl)),
    }
}

} // verus!
