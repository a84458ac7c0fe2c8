//! The data the copier works on: the run configuration, the two merge-request
//! documents, and the error taxonomy, each with a mathematical view.

use vstd::prelude::*;

verus! {

/// The run configuration: where the project lives, which merge request to
/// copy, and the target branches to copy it onto, in order.
#[derive(Debug, Clone, PartialEq, Eq)]
pub struct Config {
    pub gitlab_url: String,
    pub project_id: u32,
    pub source_mr_id: u32,
    pub target_branches: Vec<String>,
}

/// Mathematical view of a `Config`.
pub struct ConfigV {
    pub gitlab_url: Seq<char>,
    pub project_id: u32,
    pub source_mr_id: u32,
    pub target_branches: Seq<Seq<char>>,
}

impl View for Config {
    type V = ConfigV;

    open spec fn view(&self) -> ConfigV {
        ConfigV {
            gitlab_url: self.gitlab_url@,
            project_id: self.project_id,
            source_mr_id: self.source_mr_id,
            target_branches: self.target_branches.deep_view(),
        }
    }
}

/// The fields of a fetched merge request that the copier reads.
#[derive(Debug, Clone, PartialEq, Eq)]
pub struct MergeRequest {
    pub source_branch: String,
    pub title: String,
    pub description: String,
}

/// Mathematical view of a `MergeRequest`.
pub struct MergeRequestV {
    pub source_branch: Seq<char>,
    pub title: Seq<char>,
    pub description: Seq<char>,
}

impl View for MergeRequest {
    type V = MergeRequestV;

    open spec fn view(&self) -> MergeRequestV {
        MergeRequestV {
            source_branch: self.source_branch@,
            title: self.title@,
            description: self.description@,
        }
    }
}

/// The one field of a creation response that the copier reads.
#[derive(Debug, Clone, PartialEq, Eq)]
pub struct Created {
    pub web_url: String,
}

/// Mathematical view of a `Created`.
pub struct CreatedV {
    pub web_url: Seq<char>,
}

impl View for Created {
    type V = CreatedV;

    open spec fn view(&self) -> CreatedV {
        CreatedV { web_url: self.web_url@ }
    }
}

/// The field whose absence a decode error reports.
#[derive(Debug, Clone, Copy, PartialEq, Eq, Structural)]
pub enum DocField {
    SourceBranch,
    Title,
    Description,
    WebUrl,
}

/// Why a response body could not be decoded.
#[derive(Debug, Clone, Copy, PartialEq, Eq, Structural)]
pub enum DecodeError {
    /// The body is not valid JSON.
    InvalidJson,
    /// The named field is absent, or not a string.
    MissingField(DocField),
}

/// How an HTTP exchange failed, as the transport layer reports it.
#[derive(Debug, Clone, Copy, PartialEq, Eq, Structural)]
pub enum HttpFailure {
    /// Connection or transport failure; no usable response arrived.
    Network,
    /// The server answered with the given non-success status.
    Api(u16),
}

/// Everything that can go wrong during a run.
#[derive(Debug, Clone, Copy, PartialEq, Eq, Structural)]
pub enum CopyError {
    /// No access token was available at startup.
    Auth,
    /// Connection or transport failure.
    Network,
    /// Non-success HTTP status from the hosting API.
    Api(u16),
    /// The response body could not be decoded.
    Decode(DecodeError),
}

/// The library error a transport failure maps to.
pub open spec fn spec_failure_error(f: HttpFailure) -> CopyError {
    match f {
        HttpFailure::Network => CopyError::Network,
        HttpFailure::Api(status) => CopyError::Api(status),
    }
}

/// Maps a transport failure to the library's error, exactly as
/// `spec_failure_error` says.
pub fn failure_error(f: HttpFailure) -> (e: CopyError)
    ensures
        e == spec_failure_error(f),
{
    match f {
        HttpFailure::Network => CopyError::Network,
        HttpFailure::Api(status) => CopyError::Api(status),
    }
}

} // verus!
