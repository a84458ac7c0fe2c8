use mr_copier::copier::{create_event, fetch_event, start, step, Event, Outcome, Phase, Report};
use mr_copier::model::{Config, CopyError, DecodeError, HttpFailure, MergeRequest};
use mr_copier::request::{HttpRequest, Method};

fn example_config() -> Config {
    Config {
        gitlab_url: "https://git.example.com".to_string(),
        project_id: 7,
        source_mr_id: 42,
        target_branches: vec!["release/1.0".to_string(), "release/1.1".to_string()],
    }
}

const FETCH_BODY: &str = "{\"source_branch\":\"feature/x\",\"title\":\"Add X\",\"description\":\"desc\"}";

/// Runs the whole workflow against a scripted server: `responses` answers
/// the fetch and then each creation, in order. Returns every issued
/// request and every reported line.
fn drive(
    config: &Config,
    token: Option<&str>,
    responses: Vec<Result<String, HttpFailure>>,
) -> (Vec<HttpRequest>, Vec<Report>) {
    let mut requests: Vec<HttpRequest> = Vec::new();
    let mut reports: Vec<Report> = Vec::new();
    let first = match start(config, token) {
        Ok(req) => req,
        Err(e) => {
            reports.push(Report::Failure(e));
            return (requests, reports);
        }
    };
    let mut phase = Phase::Fetching;
    let mut pending = Some(first);
    let mut answers = responses.into_iter();
    while let Some(req) = pending {
        requests.push(req);
        let resp = answers.next().expect("the script ran out of responses");
        let event: Event = match phase {
            Phase::Fetching => fetch_event(resp),
            Phase::Creating { .. } => create_event(resp),
            _ => panic!("no request can be pending in a terminal phase"),
        };
        let (next_phase, outcome): (Phase, Outcome) = step(config, phase, event);
        if let Some(report) = outcome.report {
            reports.push(report);
        }
        phase = next_phase;
        pending = outcome.request;
    }
    (requests, reports)
}

fn ok(body: &str) -> Result<String, HttpFailure> {
    Ok(body.to_string())
}

#[test]
fn happy_run_issues_one_fetch_and_n_creates_in_order() {
    let config = example_config();
    let (requests, reports) = drive(
        &config,
        Some("token"),
        vec![
            ok(FETCH_BODY),
            ok("{\"web_url\":\"https://git.example.com/p/-/merge_requests/1\"}"),
            ok("{\"web_url\":\"https://git.example.com/p/-/merge_requests/2\"}"),
        ],
    );
    assert_eq!(requests.len(), 3);
    assert_eq!(requests[0].method, Method::Get);
    assert_eq!(requests[0].url, "https://git.example.com/api/v4/projects/7/merge_requests/42");
    for req in &requests[1..] {
        assert_eq!(req.method, Method::Post);
        assert_eq!(req.url, "https://git.example.com/api/v4/projects/7/merge_requests");
    }
    let body1: serde_json::Value = serde_json::from_str(requests[1].body.as_ref().unwrap()).unwrap();
    assert_eq!(body1.get("source_branch").unwrap().as_str().unwrap(), "feature/x");
    assert_eq!(body1.get("target_branch").unwrap().as_str().unwrap(), "release/1.0");
    assert_eq!(body1.get("title").unwrap().as_str().unwrap(), "Add X");
    assert_eq!(body1.get("description").unwrap().as_str().unwrap(), "desc");
    let body2: serde_json::Value = serde_json::from_str(requests[2].body.as_ref().unwrap()).unwrap();
    assert_eq!(body2.get("target_branch").unwrap().as_str().unwrap(), "release/1.1");
    assert_eq!(body2.get("source_branch").unwrap().as_str().unwrap(), "feature/x");
    assert_eq!(
        reports,
        vec![
            Report::Success("release/1.0 https://git.example.com/p/-/merge_requests/1".to_string()),
            Report::Success("release/1.1 https://git.example.com/p/-/merge_requests/2".to_string()),
        ]
    );
}

#[test]
fn missing_token_aborts_before_any_request() {
    let config = example_config();
    let (requests, reports) = drive(&config, None, vec![]);
    assert_eq!(requests.len(), 0);
    assert_eq!(reports, vec![Report::Failure(CopyError::Auth)]);
}

#[test]
fn failed_fetch_issues_zero_creates() {
    let config = example_config();
    let (requests, reports) = drive(&config, Some("token"), vec![Err(HttpFailure::Network)]);
    assert_eq!(requests.len(), 1);
    assert_eq!(requests[0].method, Method::Get);
    assert_eq!(reports, vec![Report::Failure(CopyError::Network)]);
}

#[test]
fn fetch_status_error_issues_zero_creates() {
    let config = example_config();
    let (requests, reports) = drive(&config, Some("token"), vec![Err(HttpFailure::Api(404))]);
    assert_eq!(requests.len(), 1);
    assert_eq!(reports, vec![Report::Failure(CopyError::Api(404))]);
}

#[test]
fn undecodable_fetch_body_issues_zero_creates() {
    let config = example_config();
    let (requests, reports) = drive(&config, Some("token"), vec![ok("[1, 2]")]);
    assert_eq!(requests.len(), 1);
    assert_eq!(
        reports,
        vec![Report::Failure(CopyError::Decode(DecodeError::MissingField(
            mr_copier::model::DocField::SourceBranch
        )))]
    );
}

#[test]
fn failed_create_stops_remaining_branches() {
    let config = Config {
        target_branches: vec![
            "release/1.0".to_string(),
            "release/1.1".to_string(),
            "release/1.2".to_string(),
        ],
        ..example_config()
    };
    let (requests, reports) = drive(
        &config,
        Some("token"),
        vec![
            ok(FETCH_BODY),
            ok("{\"web_url\":\"https://git.example.com/p/-/merge_requests/1\"}"),
            Err(HttpFailure::Api(409)),
        ],
    );
    // One fetch, then the creations for the first two branches only.
    assert_eq!(requests.len(), 3);
    let failed_body: serde_json::Value =
        serde_json::from_str(requests[2].body.as_ref().unwrap()).unwrap();
    assert_eq!(failed_body.get("target_branch").unwrap().as_str().unwrap(), "release/1.1");
    assert_eq!(
        reports,
        vec![
            Report::Success("release/1.0 https://git.example.com/p/-/merge_requests/1".to_string()),
            Report::Failure(CopyError::Api(409)),
        ]
    );
}

#[test]
fn no_target_branches_finishes_after_the_fetch() {
    let config = Config { target_branches: vec![], ..example_config() };
    let (requests, reports) = drive(&config, Some("token"), vec![ok(FETCH_BODY)]);
    assert_eq!(requests.len(), 1);
    assert_eq!(requests[0].method, Method::Get);
    assert_eq!(reports, vec![]);
}

#[test]
fn start_hands_out_the_fetch_request() {
    let config = example_config();
    let req = start(&config, Some("token")).unwrap();
    assert_eq!(req.method, Method::Get);
    assert_eq!(req.url, "https://git.example.com/api/v4/projects/7/merge_requests/42");
    assert_eq!(req.body, None);
}

#[test]
fn step_reads_created_web_url_from_the_response() {
    let config = example_config();
    let doc = MergeRequest {
        source_branch: "feature/x".to_string(),
        title: "Add X".to_string(),
        description: "desc".to_string(),
    };
    let event = create_event(ok("{\"web_url\":\"https://git.example.com/p/-/merge_requests/5\"}"));
    let (phase, outcome) = step(&config, Phase::Creating { doc, next: 0 }, event);
    assert_eq!(
        outcome.report,
        Some(Report::Success(
            "release/1.0 https://git.example.com/p/-/merge_requests/5".to_string()
        ))
    );
    assert!(matches!(phase, Phase::Creating { next: 1, .. }));
    assert!(outcome.request.is_some());
}
