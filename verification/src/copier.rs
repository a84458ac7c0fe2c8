//! The copy workflow as a state machine: one fetch, then one creation per
//! target branch, in listed order, stopping at the first failure. The
//! caller performs each requested HTTP call and feeds the outcome back as
//! an event; every decision is made here.

use vstd::prelude::*;

use crate::decode::{
    decode_created, decode_merge_request, spec_decode_created, spec_decode_merge_request,
};
use crate::model::{
    Config, ConfigV, CopyError, Created, CreatedV, HttpFailure, MergeRequest, MergeRequestV,
    spec_failure_error, failure_error,
};
use crate::request::{
    HttpRequest, HttpRequestV, create_request, fetch_request, spec_create_request,
    spec_fetch_request,
};

verus! {

/// Where the workflow stands.
#[derive(Debug, Clone, PartialEq, Eq)]
pub enum Phase {
    /// The fetch request is out; no answer yet.
    Fetching,
    /// The source document is in hand; the creation request for target
    /// branch `next` is out.
    Creating { doc: MergeRequest, next: usize },
    /// Every target branch was processed.
    Finished,
    /// A failure stopped the run.
    Failed,
}

/// Mathematical view of a `Phase`.
pub enum PhaseV {
    Fetching,
    Creating { doc: MergeRequestV, next: int },
    Finished,
    Failed,
}

impl View for Phase {
    type V = PhaseV;

    open spec fn view(&self) -> PhaseV {
        match self {
            Phase::Fetching => PhaseV::Fetching,
            Phase::Creating { doc, next } => PhaseV::Creating { doc: doc@, next: *next as int },
            Phase::Finished => PhaseV::Finished,
            Phase::Failed => PhaseV::Failed,
        }
    }
}

/// What the last HTTP exchange came to, after decoding.
#[derive(Debug, Clone, PartialEq, Eq)]
pub enum Event {
    FetchOk(MergeRequest),
    FetchFailed(CopyError),
    CreateOk(Created),
    CreateFailed(CopyError),
}

/// Mathematical view of an `Event`.
pub enum EventV {
    FetchOk(MergeRequestV),
    FetchFailed(CopyError),
    CreateOk(CreatedV),
    CreateFailed(CopyError),
}

impl View for Event {
    type V = EventV;

    open spec fn view(&self) -> EventV {
        match self {
            Event::FetchOk(doc) => EventV::FetchOk(doc@),
            Event::FetchFailed(e) => EventV::FetchFailed(*e),
            Event::CreateOk(created) => EventV::CreateOk(created@),
            Event::CreateFailed(e) => EventV::CreateFailed(*e),
        }
    }
}

/// One line of the run's report.
#[derive(Debug, Clone, PartialEq, Eq)]
pub enum Report {
    /// A copy was created: the target branch and the new `web_url`,
    /// separated by one space. Goes to standard output.
    Success(String),
    /// A failure, to be shown to the operator. Goes to standard error.
    Failure(CopyError),
}

/// Mathematical view of a `Report`.
pub enum ReportV {
    Success(Seq<char>),
    Failure(CopyError),
}

impl View for Report {
    type V = ReportV;

    open spec fn view(&self) -> ReportV {
        match self {
            Report::Success(line) => ReportV::Success(line@),
            Report::Failure(e) => ReportV::Failure(*e),
        }
    }
}

/// What one step asks of the caller: perhaps a line to print, perhaps the
/// next HTTP request to issue. With no request, the run is over.
#[derive(Debug, Clone, PartialEq, Eq)]
pub struct Outcome {
    pub report: Option<Report>,
    pub request: Option<HttpRequest>,
}

/// Mathematical view of an `Outcome`.
pub struct OutcomeV {
    pub report: Option<ReportV>,
    pub request: Option<HttpRequestV>,
}

impl View for Outcome {
    type V = OutcomeV;

    open spec fn view(&self) -> OutcomeV {
        OutcomeV {
            report: match &self.report {
                Some(r) => Some(r@),
                None => None,
            },
            request: match &self.request {
                Some(r) => Some(r@),
                None => None,
            },
        }
    }
}

/// An outcome that asks nothing of the caller.
pub open spec fn spec_empty_outcome() -> OutcomeV {
    OutcomeV { report: None, request: None }
}

/// The success line for one created copy: target branch, one space, web URL.
pub open spec fn spec_success_line(branch: Seq<char>, web_url: Seq<char>) -> Seq<char> {
    branch + " "@ + web_url
}

/// A phase fits a configuration when a pending creation points at one of
/// its target branches.
pub open spec fn phase_inv(c: ConfigV, p: PhaseV) -> bool {
    p matches PhaseV::Creating { next, .. } ==> 0 <= next < c.target_branches.len()
}

/// Which events can answer which phase.
pub open spec fn event_fits(p: PhaseV, e: EventV) -> bool {
    match p {
        PhaseV::Fetching => e is FetchOk || e is FetchFailed,
        PhaseV::Creating { .. } => e is CreateOk || e is CreateFailed,
        PhaseV::Finished => false,
        PhaseV::Failed => false,
    }
}

/// The whole decision logic of the copier, one step at a time.
///
/// - A successful fetch starts the creations at the first target branch,
///   or finishes at once when there is none.
/// - A failed fetch stops the run with its error and issues nothing more.
/// - A successful creation reports its success line and issues the request
///   for the next target branch, or finishes after the last one.
/// - A failed creation stops the run with its error and issues nothing
///   more: later target branches are never attempted.
pub open spec fn spec_step(c: ConfigV, p: PhaseV, e: EventV) -> (PhaseV, OutcomeV) {
    match (p, e) {
        (PhaseV::Fetching, EventV::FetchOk(doc)) => {
            if c.target_branches.len() == 0 {
                (PhaseV::Finished, spec_empty_outcome())
            } else {
                (
                    PhaseV::Creating { doc, next: 0 },
                    OutcomeV { report: None, request: Some(spec_create_request(c, doc, 0)) },
                )
            }
        },
        (PhaseV::Fetching, EventV::FetchFailed(err)) => (
            PhaseV::Failed,
            OutcomeV { report: Some(ReportV::Failure(err)), request: None },
        ),
        (PhaseV::Creating { doc, next }, EventV::CreateOk(created)) => {
            let report = ReportV::Success(
                spec_success_line(c.target_branches[next], created.web_url),
            );
            if next + 1 < c.target_branches.len() {
                (
                    PhaseV::Creating { doc, next: next + 1 },
                    OutcomeV {
                        report: Some(report),
                        request: Some(spec_create_request(c, doc, next + 1)),
                    },
                )
            } else {
                (PhaseV::Finished, OutcomeV { report: Some(report), request: None })
            }
        },
        (PhaseV::Creating { .. }, EventV::CreateFailed(err)) => (
            PhaseV::Failed,
            OutcomeV { report: Some(ReportV::Failure(err)), request: None },
        ),
        (PhaseV::Finished, _) => (PhaseV::Finished, spec_empty_outcome()),
        (PhaseV::Failed, _) => (PhaseV::Failed, spec_empty_outcome()),
        _ => (PhaseV::Failed, spec_empty_outcome()),
    }
}

/// Opens a run: with an access token in hand it hands back the fetch
/// request to issue from the `Fetching` phase; without one it refuses,
/// and no request exists to issue.
pub fn start(config: &Config, token: Option<&str>) -> (r: Result<HttpRequest, CopyError>)
    ensures
        r is Ok <==> token is Some,
        r matches Ok(req) ==> req@ == spec_fetch_request(config@),
        r matches Err(e) ==> e == CopyError::Auth,
{
    match token {
        Some(_) => Ok(fetch_request(config)),
        None => Err(CopyError::Auth),
    }
}

/// Builds the success line, exactly as `spec_success_line` describes it.
pub fn success_line(branch: &str, web_url: &str) -> (r: String)
    ensures
        r@ == spec_success_line(branch@, web_url@),
{
    let mut r = String::new();
    r.append(branch);
    r.append(" ");
    r.append(web_url);
    proof {
        assert(r@ =~= spec_success_line(branch@, web_url@));
    }
    r
}

/// Turns the answer to the fetch request into an event: a transport
/// failure or a body that does not decode fails the fetch; a decoded
/// body hands the document over.
pub fn fetch_event(resp: Result<String, HttpFailure>) -> (e: Event)
    ensures
        e@ == match resp {
            Ok(body) => match spec_decode_merge_request(body@) {
                Ok(doc) => EventV::FetchOk(doc),
                Err(err) => EventV::FetchFailed(CopyError::Decode(err)),
            },
            Err(f) => EventV::FetchFailed(spec_failure_error(f)),
        },
{
    match resp {
        Ok(body) => match decode_merge_request(body.as_str()) {
            Ok(doc) => Event::FetchOk(doc),
            Err(err) => Event::FetchFailed(CopyError::Decode(err)),
        },
        Err(f) => Event::FetchFailed(failure_error(f)),
    }
}

/// Turns the answer to a creation request into an event, the same way.
pub fn create_event(resp: Result<String, HttpFailure>) -> (e: Event)
    ensures
        e@ == match resp {
            Ok(body) => match spec_decode_created(body@) {
                Ok(created) => EventV::CreateOk(created),
                Err(err) => EventV::CreateFailed(CopyError::Decode(err)),
            },
            Err(f) => EventV::CreateFailed(spec_failure_error(f)),
        },
{
    match resp {
        Ok(body) => match decode_created(body.as_str()) {
            Ok(created) => Event::CreateOk(created),
            Err(err) => Event::CreateFailed(CopyError::Decode(err)),
        },
        Err(f) => Event::CreateFailed(failure_error(f)),
    }
}

/// Takes one step of the workflow, exactly as `spec_step` describes it.
pub fn step(config: &Config, phase: Phase, event: Event) -> (r: (Phase, Outcome))
    requires
        phase_inv(config@, phase@),
        event_fits(phase@, event@),
    ensures
        (r.0@, r.1@) == spec_step(config@, phase@, event@),
        phase_inv(config@, r.0@),
{
    match (phase, event) {
        (Phase::Fetching, Event::FetchOk(doc)) => {
            if config.target_branches.len() == 0 {
                (Phase::Finished, Outcome { report: None, request: None })
            } else {
                let request = create_request(config, &doc, 0);
                (
                    Phase::Creating { doc, next: 0 },
                    Outcome { report: None, request: Some(request) },
                )
            }
        },
        (Phase::Fetching, Event::FetchFailed(err)) => (
            Phase::Failed,
            Outcome { report: Some(Report::Failure(err)), request: None },
        ),
        (Phase::Creating { doc, next }, Event::CreateOk(created)) => {
            let total = config.target_branches.len();
            proof {
                assert(config@.target_branches.len() == config.target_branches@.len());
                assert(next < total);
            }
            let branch: &String = &config.target_branches[next];
            let line = success_line(branch.as_str(), created.web_url.as_str());
            let report = Report::Success(line);
            if next + 1 < total {
                let request = create_request(config, &doc, next + 1);
                (
                    Phase::Creating { doc, next: next + 1 },
                    Outcome { report: Some(report), request: Some(request) },
                )
            } else {
                (Phase::Finished, Outcome { report: Some(report), request: None })
            }
        },
        (Phase::Creating { .. }, Event::CreateFailed(err)) => (
            Phase::Failed,
            Outcome { report: Some(Report::Failure(err)), request: None },
        ),
        (phase, _) => (phase, Outcome { report: None, request: None }),
    }
}

} // verus!
