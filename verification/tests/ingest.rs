//! Reports of builds, with a table of builds in memory.

use platform_services::ingest::{
    self, build_row, get_builds, get_summary, immediate_reply, judge, report_text, route,
    upsert_build, validate_report, BuildRecord, BuildReport, Reply, Route, SummaryRecord,
    UPSERT_BUILD,
};
use platform_services::ops::sql::Value;

fn sample_report(run_id: &str) -> BuildReport {
    BuildReport {
        repo: Some("chris-arsenault/test-repo".into()),
        workflow: Some("Deploy".into()),
        status: Some("success".into()),
        branch: Some("main".into()),
        commit_sha: Some("abc123".into()),
        run_id: Some(run_id.into()),
        run_url: Some("https://github.com/test/actions/runs/1".into()),
        duration_seconds: Some(42),
        lint_passed: Some(true),
        test_passed: Some(true),
    }
}

#[test]
fn test_validate_report_ok() {
    let report = sample_report("run-1");
    assert!(validate_report(&report).is_ok());
}

#[test]
fn test_validate_report_missing_repo() {
    let mut report = sample_report("run-1");
    report.repo = None;
    assert!(validate_report(&report).is_err());
}

#[test]
fn test_validate_report_empty_status() {
    let mut report = sample_report("run-1");
    report.status = Some("".into());
    assert!(validate_report(&report).is_err());
}

/// The table of builds: one for each run, in the order of their creation, which
/// is a second later for each.
#[derive(Default)]
struct Builds {
    rows: Vec<Vec<Value>>,
}

fn text(value: &Value) -> String {
    match value {
        Value::Text(Some(text)) => text.clone(),
        _ => panic!("a text"),
    }
}

fn optional(value: &Value) -> Option<String> {
    match value {
        Value::Text(text) => text.clone(),
        _ => panic!("a text"),
    }
}

fn number(value: &Value) -> Option<i32> {
    match value {
        Value::Int(n) => *n,
        _ => panic!("a number"),
    }
}

fn flag(value: &Value) -> Option<bool> {
    match value {
        Value::Bool(b) => *b,
        _ => panic!("a flag"),
    }
}

const START: i64 = 1_700_000_000_000_000;

impl Builds {
    fn upsert(&mut self, report: &BuildReport) {
        let values = upsert_build(report);
        assert_eq!(values.len(), UPSERT_BUILD.matches('$').count());
        let run_id = text(&values[5]);
        match self.rows.iter_mut().find(|row| text(&row[5]) == run_id) {
            Some(row) => {
                row[2] = Value::Text(Some(text(&values[2])));
                row[7] = Value::Int(number(&values[7]));
                row[8] = Value::Bool(flag(&values[8]));
                row[9] = Value::Bool(flag(&values[9]));
            }
            None => self.rows.push(values),
        }
    }

    fn builds(&self) -> Vec<BuildRecord> {
        let mut records: Vec<BuildRecord> = self
            .rows
            .iter()
            .enumerate()
            .map(|(i, row)| BuildRecord {
                repo: text(&row[0]),
                workflow: text(&row[1]),
                status: text(&row[2]),
                branch: text(&row[3]),
                commit_sha: text(&row[4]),
                run_id: text(&row[5]),
                run_url: optional(&row[6]),
                duration_seconds: number(&row[7]),
                lint_passed: flag(&row[8]),
                test_passed: flag(&row[9]),
                created_micros: START + 1_000_000 * i as i64,
            })
            .collect();
        records.reverse();
        records.truncate(100);
        records
    }

    fn summary(&self) -> Vec<SummaryRecord> {
        let mut summary: Vec<SummaryRecord> = vec![];
        for record in self.builds() {
            if !summary.iter().any(|s| s.repo == record.repo && s.workflow == record.workflow) {
                summary.push(SummaryRecord {
                    repo: record.repo,
                    workflow: record.workflow,
                    status: record.status,
                    branch: record.branch,
                    commit_sha: record.commit_sha,
                    run_url: record.run_url,
                    created_micros: record.created_micros,
                });
            }
        }
        summary
    }
}

#[test]
fn test_upsert_and_get_builds() {
    let mut table = Builds::default();
    table.upsert(&sample_report("run-100"));
    table.upsert(&sample_report("run-101"));
    let builds = get_builds(table.builds()).unwrap();
    assert_eq!(builds.len(), 2);
    assert_eq!(builds[0].run_id, "run-101");
    assert_eq!(builds[1].run_id, "run-100");
}

#[test]
fn test_upsert_updates_on_conflict() {
    let mut table = Builds::default();
    let mut report = sample_report("run-200");
    report.status = Some("running".into());
    report.lint_passed = None;
    table.upsert(&report);
    report.status = Some("success".into());
    report.lint_passed = Some(true);
    table.upsert(&report);
    let builds = get_builds(table.builds()).unwrap();
    assert_eq!(builds.len(), 1);
    assert_eq!(builds[0].status, "success");
    assert_eq!(builds[0].lint_passed, Some(true));
}

#[test]
fn test_summary_returns_latest_per_repo_workflow() {
    let mut table = Builds::default();
    let mut r1 = sample_report("run-300");
    r1.status = Some("failure".into());
    table.upsert(&r1);
    let mut r2 = sample_report("run-301");
    r2.status = Some("success".into());
    table.upsert(&r2);
    let summary = get_summary(table.summary()).unwrap();
    assert_eq!(summary.len(), 1);
    assert_eq!(summary[0].status, "success");
}

#[test]
fn test_summary_groups_by_repo_and_workflow() {
    let mut table = Builds::default();
    table.upsert(&sample_report("run-400"));
    let mut different_workflow = sample_report("run-401");
    different_workflow.workflow = Some("Lint".into());
    table.upsert(&different_workflow);
    let summary = get_summary(table.summary()).unwrap();
    assert_eq!(summary.len(), 2);
}

#[test]
fn test_empty_builds() {
    let table = Builds::default();
    let builds = get_builds(table.builds()).unwrap();
    assert!(builds.is_empty());
}

#[test]
fn test_empty_summary() {
    let table = Builds::default();
    let summary = get_summary(table.summary()).unwrap();
    assert!(summary.is_empty());
}

#[test]
fn moments_are_written_in_rfc_3339() {
    let mut table = Builds::default();
    table.upsert(&sample_report("run-1"));
    let builds = get_builds(table.builds()).unwrap();
    assert_eq!(builds[0].created_at, "2023-11-14T22:13:20+00:00");
    let mut record = table.builds();
    record[0].created_micros = 1_500_000;
    assert_eq!(get_builds(record).unwrap()[0].created_at, "1970-01-01T00:00:01.500+00:00");
    let mut record = table.builds();
    record[0].created_micros = 123_456;
    assert_eq!(get_builds(record).unwrap()[0].created_at, "1970-01-01T00:00:00.123456+00:00");
}

#[test]
fn a_moment_out_of_range_shows_nothing() {
    let mut table = Builds::default();
    table.upsert(&sample_report("run-1"));
    let mut records = table.builds();
    records[0].created_micros = i64::MAX;
    assert!(get_builds(records).is_none());
    let mut records = table.summary();
    records[0].created_micros = i64::MIN;
    assert!(get_summary(records).is_none());
}

#[test]
fn a_build_is_shown_as_it_was_reported() {
    let mut table = Builds::default();
    table.upsert(&sample_report("run-1"));
    let record = table.builds().remove(0);
    let row = build_row(record, "now".to_string());
    assert_eq!(row.repo, "chris-arsenault/test-repo");
    assert_eq!(row.workflow, "Deploy");
    assert_eq!(row.branch, "main");
    assert_eq!(row.commit_sha, "abc123");
    assert_eq!(row.run_url.as_deref(), Some("https://github.com/test/actions/runs/1"));
    assert_eq!(row.duration_seconds, Some(42));
    assert_eq!(row.test_passed, Some(true));
    assert_eq!(row.created_at, "now");
}

#[test]
fn every_required_field_is_required() {
    let blank = |report: &mut BuildReport, i: usize| match i {
        0 => report.repo = None,
        1 => report.workflow = None,
        2 => report.status = None,
        3 => report.branch = None,
        4 => report.commit_sha = None,
        _ => report.run_id = None,
    };
    for i in 0..6 {
        let mut report = sample_report("run-1");
        blank(&mut report, i);
        assert_eq!(validate_report(&report), Err("Missing required fields"));
    }
    let mut report = sample_report("run-1");
    report.run_url = None;
    report.duration_seconds = None;
    report.lint_passed = None;
    report.test_passed = None;
    assert_eq!(validate_report(&report), Ok(()));
}

#[test]
fn requests_are_routed_by_method_and_path() {
    assert!(route("POST", "/api/ci/report") == Route::Report);
    assert!(route("GET", "/api/ci/builds") == Route::Builds);
    assert!(route("GET", "/api/ci/summary") == Route::Summary);
    assert!(route("GET", "/api/ci/health") == Route::Health);
    assert!(route("GET", "/api/ci/report") == Route::Unknown);
    assert!(route("POST", "/api/ci/builds") == Route::Unknown);
    assert!(route("get", "/api/ci/builds") == Route::Unknown);
}

fn parts(reply: Option<Reply>) -> Option<(u16, Option<bool>, Option<String>)> {
    reply.map(|r| (r.status, r.ok, r.error))
}

#[test]
fn health_and_unknown_requests_are_answered_at_once() {
    assert_eq!(parts(immediate_reply(Route::Health)), Some((200, Some(true), None)));
    assert_eq!(
        parts(immediate_reply(Route::Unknown)),
        Some((404, None, Some("Not found".to_string())))
    );
    assert_eq!(parts(immediate_reply(Route::Builds)), None);
}

#[test]
fn an_incomplete_report_is_refused_before_the_token_is_looked_at() {
    let mut report = sample_report("run-1");
    report.branch = None;
    assert_eq!(
        parts(judge(&report, &Some("t".into()), &None)),
        Some((400, None, Some("Missing required fields".to_string())))
    );
}

#[test]
fn a_report_needs_the_token_that_is_set() {
    let report = sample_report("run-1");
    let unauthorized = Some((401, None, Some("Unauthorized".to_string())));
    let token = Some("t0ken".to_string());
    assert_eq!(parts(judge(&report, &token, &None)), unauthorized);
    assert_eq!(parts(judge(&report, &token, &Some("t0ken".into()))), unauthorized);
    assert_eq!(parts(judge(&report, &token, &Some("Bearer other".into()))), unauthorized);
    assert_eq!(parts(judge(&report, &token, &Some("bearer t0ken".into()))), unauthorized);
    assert_eq!(parts(judge(&report, &token, &Some("Bearer t0ken".into()))), None);
    assert_eq!(parts(judge(&report, &None, &None)), None);
    let fine = Reply::fine();
    assert_eq!((fine.status, fine.ok, fine.error), (200, Some(true), None));
}

#[test]
fn a_body_that_is_no_text_is_an_empty_object() {
    assert_eq!(report_text(vec![0x7b, 0xc3, 0xa9, 0x7d]), "{é}");
    assert_eq!(report_text(vec![0xff, 0x7b]), "{}");
    assert_eq!(report_text(vec![]), "");
}

#[test]
fn the_queries_order_and_limit() {
    assert!(ingest::SELECT_BUILDS.ends_with("ORDER BY created_at DESC LIMIT 100"));
    assert!(ingest::SELECT_SUMMARY.starts_with("SELECT DISTINCT ON (repo, workflow)"));
    assert!(UPSERT_BUILD.contains("ON CONFLICT (run_id) DO UPDATE SET"));
}
