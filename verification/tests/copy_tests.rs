use dashboard_copy::channels::ChannelMap;
use dashboard_copy::client::{Api, ClientFailure, FetchOutcome, SubmitOutcome, SubmitResponse, MAX_TEXT};
use dashboard_copy::copy::{destination_looked_up, source_fetched, submitted, CopyError, Report, Stage};
use dashboard_copy::document::{AlertRule, Dashboard, Fields, NotificationRef, Panel};
use dashboard_copy::reconcile::Decision;
use serde_json::Value;

fn source(channels: &[&str]) -> Dashboard {
    let mut rest = Fields::new();
    rest.insert("title".to_string(), Value::String("Service health".to_string()));
    let mut panel_rest = Fields::new();
    panel_rest.insert("gridPos".to_string(), Value::Array(vec![Value::from(0), Value::from(12)]));
    Dashboard {
        id: Some(7),
        uid: "dash-1".to_string(),
        version: 9,
        panels: vec![Panel {
            alert: Some(AlertRule {
                notifications: channels
                    .iter()
                    .map(|c| NotificationRef { channel_id: c.to_string(), rest: Fields::new() })
                    .collect(),
                rest: Fields::new(),
            }),
            rest: panel_rest,
        }],
        rest,
    }
}

fn pager_table() -> ChannelMap {
    let mut table = ChannelMap::new();
    table.insert("staging-pager".to_string(), "prod-pager".to_string());
    table
}

fn destination() -> Api {
    Api::new("https://prod.example.com".to_string(), "key".to_string()).unwrap()
}

fn transport() -> ClientFailure {
    ClientFailure::Transport { detail: "connection refused".to_string() }
}

#[test]
fn source_found_is_mapped() {
    let result = source_fetched(FetchOutcome::Found(source(&["staging-pager"])), &pager_table());
    assert_eq!(result, Ok(source(&["prod-pager"])));
}

#[test]
fn source_with_unmapped_channel_ends_copy() {
    let result = source_fetched(FetchOutcome::Found(source(&["staging-slack"])), &pager_table());
    assert_eq!(result, Err(CopyError::Unmapped { channel_id: "staging-slack".to_string() }));
}

#[test]
fn source_without_references_needs_no_table() {
    let result = source_fetched(FetchOutcome::Found(source(&[])), &ChannelMap::new());
    assert_eq!(result, Ok(source(&[])));
}

#[test]
fn source_missing_ends_copy() {
    assert_eq!(
        source_fetched(FetchOutcome::NotFound, &pager_table()),
        Err(CopyError::SourceMissing)
    );
}

#[test]
fn source_failure_names_stage() {
    assert_eq!(
        source_fetched(FetchOutcome::Failed(transport()), &pager_table()),
        Err(CopyError::Remote { stage: Stage::FetchSource, failure: transport() })
    );
}

#[test]
fn lookup_not_found_plans_creation() {
    let plan = destination_looked_up(source(&["prod-pager"]), FetchOutcome::NotFound).unwrap();
    assert_eq!(plan.decision, Decision::Create);
    let mut expected = source(&["prod-pager"]);
    expected.id = None;
    expected.version = 0;
    assert_eq!(plan.document, expected);
}

#[test]
fn lookup_found_plans_update() {
    let mut held = source(&["other"]);
    held.id = Some(42);
    held.version = 1;
    held.rest = Fields::new();
    let plan = destination_looked_up(source(&["prod-pager"]), FetchOutcome::Found(held)).unwrap();
    assert_eq!(plan.decision, Decision::Update);
    let mut expected = source(&["prod-pager"]);
    expected.id = Some(42);
    expected.version = 1;
    assert_eq!(plan.document, expected);
}

#[test]
fn lookup_failure_names_stage() {
    let failure = ClientFailure::Status { code: 500, body: "boom".to_string() };
    assert_eq!(
        destination_looked_up(source(&[]), FetchOutcome::Failed(failure.clone())),
        Err(CopyError::Remote { stage: Stage::LookupDestination, failure })
    );
}

#[test]
fn accepted_submission_is_reported() {
    let response = SubmitResponse {
        id: 42,
        uid: "dash-1".to_string(),
        url: "/d/dash-1/service-health".to_string(),
        version: 1,
    };
    let report = submitted(Decision::Create, &destination(), SubmitOutcome::Accepted(response));
    assert_eq!(
        report,
        Ok(Report {
            decision: Decision::Create,
            id: 42,
            uid: "dash-1".to_string(),
            version: 1,
            location: Some("https://prod.example.com/d/dash-1/service-health".to_string()),
        })
    );
}

#[test]
fn report_of_update_carries_decision() {
    let response =
        SubmitResponse { id: 42, uid: "dash-1".to_string(), url: "/d/dash-1".to_string(), version: 2 };
    let report =
        submitted(Decision::Update, &destination(), SubmitOutcome::Accepted(response)).unwrap();
    assert_eq!(report.decision, Decision::Update);
    assert_eq!(report.id, 42);
    assert_eq!(report.version, 2);
}

#[test]
fn overlong_reported_path_leaves_location_open() {
    let response = SubmitResponse {
        id: 1,
        uid: "dash-1".to_string(),
        url: "a".repeat(MAX_TEXT + 1),
        version: 1,
    };
    let report =
        submitted(Decision::Create, &destination(), SubmitOutcome::Accepted(response)).unwrap();
    assert_eq!(report.location, None);
    assert_eq!(report.id, 1);
}

#[test]
fn rejected_submission_names_stage() {
    let failure = ClientFailure::Status { code: 412, body: "stale".to_string() };
    assert_eq!(
        submitted(Decision::Update, &destination(), SubmitOutcome::Failed(failure.clone())),
        Err(CopyError::Remote { stage: Stage::SubmitDestination, failure })
    );
}

#[test]
fn stage_names() {
    assert_eq!(Stage::FetchSource.name(), "fetch from source");
    assert_eq!(Stage::LookupDestination.name(), "lookup on destination");
    assert_eq!(Stage::SubmitDestination.name(), "submit to destination");
}

#[test]
fn copy_twice_creates_then_updates() {
    let table = pager_table();
    let target = destination();

    // First run: the destination has no dashboard with the identifier.
    let mapped = source_fetched(FetchOutcome::Found(source(&["staging-pager"])), &table).unwrap();
    let first = destination_looked_up(mapped, FetchOutcome::NotFound).unwrap();
    assert_eq!(first.decision, Decision::Create);
    assert_eq!(first.document.id, None);
    assert_eq!(first.document.version, 0);
    let answer = SubmitResponse { id: 42, uid: "dash-1".to_string(), url: "/d/dash-1".to_string(), version: 1 };
    let report = submitted(first.decision, &target, SubmitOutcome::Accepted(answer)).unwrap();
    assert_eq!((report.id, report.version), (42, 1));

    // Second run: the destination holds what the first run wrote.
    let mut held = first.document.clone();
    held.id = Some(report.id);
    held.version = report.version;
    let mapped = source_fetched(FetchOutcome::Found(source(&["staging-pager"])), &table).unwrap();
    let second = destination_looked_up(mapped, FetchOutcome::Found(held)).unwrap();
    assert_eq!(second.decision, Decision::Update);
    assert_eq!(second.document.id, Some(42));
    assert_eq!(second.document.version, 1);
    let answer = SubmitResponse { id: 42, uid: "dash-1".to_string(), url: "/d/dash-1".to_string(), version: 2 };
    let report = submitted(second.decision, &target, SubmitOutcome::Accepted(answer)).unwrap();
    assert_eq!((report.id, report.version), (42, 2));
    assert_eq!(report.location, Some("https://prod.example.com/d/dash-1".to_string()));
}
