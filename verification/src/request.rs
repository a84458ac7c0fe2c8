//! Building the two kinds of HTTP request the copier issues, with their
//! exact URLs and JSON bodies.

use vstd::prelude::*;

use crate::model::{Config, ConfigV, MergeRequest, MergeRequestV};
use crate::text::{decimal_digits, escape_string, json_escape, u32_decimal};

verus! {

/// The HTTP method of a request.
#[derive(Debug, Clone, Copy, PartialEq, Eq, Structural)]
pub enum Method {
    Get,
    Post,
}

/// One HTTP request the copier asks its caller to issue. The caller adds
/// the `PRIVATE-TOKEN` header; a body, where present, is a JSON document.
#[derive(Debug, Clone, PartialEq, Eq)]
pub struct HttpRequest {
    pub method: Method,
    pub url: String,
    pub body: Option<String>,
}

/// Mathematical view of an `HttpRequest`.
pub struct HttpRequestV {
    pub method: Method,
    pub url: Seq<char>,
    pub body: Option<Seq<char>>,
}

impl View for HttpRequest {
    type V = HttpRequestV;

    open spec fn view(&self) -> HttpRequestV {
        HttpRequestV {
            method: self.method,
            url: self.url@,
            body: match self.body {
                Some(b) => Some(b@),
                None => None,
            },
        }
    }
}

/// The URL the source merge request is fetched from.
pub open spec fn spec_fetch_url(c: ConfigV) -> Seq<char> {
    c.gitlab_url + "/api/v4/projects/"@ + decimal_digits(c.project_id as nat)
        + "/merge_requests/"@ + decimal_digits(c.source_mr_id as nat)
}

/// The URL new merge requests are created at.
pub open spec fn spec_create_url(c: ConfigV) -> Seq<char> {
    c.gitlab_url + "/api/v4/projects/"@ + decimal_digits(c.project_id as nat)
        + "/merge_requests"@
}

/// A JSON string literal: the escaped text between double quotes.
pub open spec fn spec_json_string(s: Seq<char>) -> Seq<char> {
    seq!['"'] + escape_string(s) + seq!['"']
}

/// The body of a creation request: the source branch, title and description
/// of the fetched document, copied verbatim, with the given target branch.
pub open spec fn spec_create_body(doc: MergeRequestV, target_branch: Seq<char>) -> Seq<char> {
    "{\"source_branch\":"@ + spec_json_string(doc.source_branch)
        + ",\"target_branch\":"@ + spec_json_string(target_branch)
        + ",\"title\":"@ + spec_json_string(doc.title)
        + ",\"description\":"@ + spec_json_string(doc.description) + "}"@
}

/// The request that fetches the source merge request.
pub open spec fn spec_fetch_request(c: ConfigV) -> HttpRequestV {
    HttpRequestV { method: Method::Get, url: spec_fetch_url(c), body: None }
}

/// The request that creates the copy aimed at target branch `i`.
pub open spec fn spec_create_request(c: ConfigV, doc: MergeRequestV, i: int) -> HttpRequestV {
    HttpRequestV {
        method: Method::Post,
        url: spec_create_url(c),
        body: Some(spec_create_body(doc, c.target_branches[i])),
    }
}

/// Builds the fetch URL, exactly as `spec_fetch_url` describes it.
pub fn fetch_url(config: &Config) -> (r: String)
    ensures
        r@ == spec_fetch_url(config@),
{
    let mut r = config.gitlab_url.clone();
    r.append("/api/v4/projects/");
    let project = u32_decimal(config.project_id);
    r.append(project.as_str());
    r.append("/merge_requests/");
    let mr_id = u32_decimal(config.source_mr_id);
    r.append(mr_id.as_str());
    proof {
        assert(r@ =~= spec_fetch_url(config@));
    }
    r
}

/// Builds the creation URL, exactly as `spec_create_url` describes it.
pub fn create_url(config: &Config) -> (r: String)
    ensures
        r@ == spec_create_url(config@),
{
    let mut r = config.gitlab_url.clone();
    r.append("/api/v4/projects/");
    let project = u32_decimal(config.project_id);
    r.append(project.as_str());
    r.append("/merge_requests");
    proof {
        assert(r@ =~= spec_create_url(config@));
    }
    r
}

/// Builds a creation body, exactly as `spec_create_body` describes it:
/// `source_branch`, `title` and `description` come verbatim from `doc`,
/// `target_branch` is the given branch.
pub fn create_body(doc: &MergeRequest, target_branch: &str) -> (r: String)
    ensures
        r@ == spec_create_body(doc@, target_branch@),
{
    let mut r = String::new();
    r.append("{\"source_branch\":");
    append_json_string(&mut r, doc.source_branch.as_str());
    r.append(",\"target_branch\":");
    append_json_string(&mut r, target_branch);
    r.append(",\"title\":");
    append_json_string(&mut r, doc.title.as_str());
    r.append(",\"description\":");
    append_json_string(&mut r, doc.description.as_str());
    r.append("}");
    proof {
        assert(r@ =~= spec_create_body(doc@, target_branch@));
    }
    r
}

/// Appends the JSON string literal for `s` to `out`.
fn append_json_string(out: &mut String, s: &str)
    ensures
        final(out)@ == old(out)@ + spec_json_string(s@),
{
    crate::text::push_char(out, '"');
    let escaped = json_escape(s);
    out.append(escaped.as_str());
    crate::text::push_char(out, '"');
    proof {
        assert(final(out)@ =~= old(out)@ + spec_json_string(s@));
    }
}

/// Builds the fetch request, exactly as `spec_fetch_request` describes it.
pub fn fetch_request(config: &Config) -> (r: HttpRequest)
    ensures
        r@ == spec_fetch_request(config@),
{
    HttpRequest { method: Method::Get, url: fetch_url(config), body: None }
}

/// Builds the creation request for target branch `index`, exactly as
/// `spec_create_request` describes it.
pub fn create_request(config: &Config, doc: &MergeRequest, index: usize) -> (r: HttpRequest)
    requires
        index < config@.target_branches.len(),
    ensures
        r@ == spec_create_request(config@, doc@, index as int),
{
    let branch: &String = &config.target_branches[index];
    let body = create_body(doc, branch.as_str());
    HttpRequest { method: Method::Post, url: create_url(config), body: Some(body) }
}

} // verus!
