//! Taking in reports of builds and showing them.

use vstd::prelude::*;

use crate::ops::sql::Value;
use crate::text;

verus! {

/// A report of a build.
pub struct BuildReport {
    pub repo: Option<String>,
    pub workflow: Option<String>,
    pub status: Option<String>,
    pub branch: Option<String>,
    pub commit_sha: Option<String>,
    pub run_id: Option<String>,
    pub run_url: Option<String>,
    pub duration_seconds: Option<i32>,
    pub lint_passed: Option<bool>,
    pub test_passed: Option<bool>,
}

/// A build as it is shown.
pub struct BuildRow {
    pub repo: String,
    pub workflow: String,
    pub status: String,
    pub branch: String,
    pub commit_sha: String,
    pub run_id: String,
    pub run_url: Option<String>,
    pub duration_seconds: Option<i32>,
    pub lint_passed: Option<bool>,
    pub test_passed: Option<bool>,
    pub created_at: String,
}

/// The last build of a workflow as it is shown.
pub struct SummaryRow {
    pub repo: String,
    pub workflow: String,
    pub status: String,
    pub branch: String,
    pub commit_sha: String,
    pub run_url: Option<String>,
    pub created_at: String,
}

// ---------------------------------------------------------------------------
// Reports
// ---------------------------------------------------------------------------

/// Whether a field holds anything.
pub open spec fn is_given(field: Option<String>) -> bool {
    field matches Some(text) && text@.len() > 0
}

/// Whether a report holds everything that is needed.
pub open spec fn is_complete(report: BuildReport) -> bool {
    &&& is_given(report.repo)
    &&& is_given(report.workflow)
    &&& is_given(report.status)
    &&& is_given(report.branch)
    &&& is_given(report.commit_sha)
    &&& is_given(report.run_id)
}

fn given(field: &Option<String>) -> (r: bool)
    ensures
        r == is_given(*field),
{
    match field {
        Some(text) => {
            proof {
                reveal_strlit("");
                if text@.len() == 0 {
                    assert(text@ =~= ""@);
                }
            }
            !text::same(text.as_str(), "")
        },
        None => false,
    }
}

/// Whether a report holds everything that is needed.
pub fn validate_report(report: &BuildReport) -> (r: Result<(), &'static str>)
    ensures
        r is Ok <==> is_complete(*report),
        r matches Err(message) ==> message@ == "Missing required fields"@,
{
    if given(&report.repo) && given(&report.workflow) && given(&report.status) && given(
        &report.branch,
    ) && given(&report.commit_sha) && given(&report.run_id) {
        Ok(())
    } else {
        Err("Missing required fields")
    }
}

/// The insertion of a build, or the update of the one with its run.
pub const UPSERT_BUILD: &'static str =
    "INSERT INTO ci_builds (repo, workflow, status, branch, commit_sha, run_id, run_url, duration_seconds, lint_passed, test_passed)
         VALUES ($1, $2, $3, $4, $5, $6, $7, $8, $9, $10)
         ON CONFLICT (run_id) DO UPDATE SET
           status = EXCLUDED.status,
           duration_seconds = EXCLUDED.duration_seconds,
           lint_passed = EXCLUDED.lint_passed,
           test_passed = EXCLUDED.test_passed";

/// The query for the last hundred builds.
pub const SELECT_BUILDS: &'static str =
    "SELECT repo, workflow, status, branch, commit_sha, run_id, run_url,
                duration_seconds, lint_passed, test_passed, created_at
         FROM ci_builds ORDER BY created_at DESC LIMIT 100";

/// The query for the last build of each workflow.
pub const SELECT_SUMMARY: &'static str = "SELECT DISTINCT ON (repo, workflow)
                repo, workflow, status, branch, commit_sha, run_url, created_at
         FROM ci_builds ORDER BY repo, workflow, created_at DESC";

/// The text of a field; it is empty where there is none.
pub open spec fn text_or_empty(field: Option<String>) -> Seq<char> {
    match field {
        Some(text) => text@,
        None => Seq::empty(),
    }
}

/// The parameters of the insertion of a build.
pub open spec fn upsert_values(report: BuildReport) -> Seq<Value<Seq<char>>> {
    seq![
        Value::Text(Some(text_or_empty(report.repo))),
        Value::Text(Some(text_or_empty(report.workflow))),
        Value::Text(Some(text_or_empty(report.status))),
        Value::Text(Some(text_or_empty(report.branch))),
        Value::Text(Some(text_or_empty(report.commit_sha))),
        Value::Text(Some(text_or_empty(report.run_id))),
        Value::Text(report.run_url.deep_view()),
        Value::Int(report.duration_seconds),
        Value::Bool(report.lint_passed),
        Value::Bool(report.test_passed),
    ]
}

fn or_empty(field: &Option<String>) -> (r: String)
    ensures
        r@ == text_or_empty(*field),
{
    match field {
        Some(text) => text.clone(),
        None => String::new(),
    }
}

/// The parameters of the insertion of a build, for [`UPSERT_BUILD`].
pub fn upsert_build(report: &BuildReport) -> (values: Vec<Value>)
    ensures
        values.deep_view() == upsert_values(*report),
        values@.len() == 10,
        values@[0] matches Value::Text(Some(text)) && text@ == text_or_empty(report.repo),
        values@[1] matches Value::Text(Some(text)) && text@ == text_or_empty(report.workflow),
        values@[2] matches Value::Text(Some(text)) && text@ == text_or_empty(report.status),
        values@[3] matches Value::Text(Some(text)) && text@ == text_or_empty(report.branch),
        values@[4] matches Value::Text(Some(text)) && text@ == text_or_empty(report.commit_sha),
        values@[5] matches Value::Text(Some(text)) && text@ == text_or_empty(report.run_id),
        values@[6] matches Value::Text(url) && url.deep_view() == report.run_url.deep_view(),
        values@[7] == Value::<String>::Int(report.duration_seconds),
        values@[8] == Value::<String>::Bool(report.lint_passed),
        values@[9] == Value::<String>::Bool(report.test_passed),
{
    let run_url = match &report.run_url {
        Some(url) => Some(url.clone()),
        None => None,
    };
    let values: Vec<Value> = vec![
        Value::Text(Some(or_empty(&report.repo))),
        Value::Text(Some(or_empty(&report.workflow))),
        Value::Text(Some(or_empty(&report.status))),
        Value::Text(Some(or_empty(&report.branch))),
        Value::Text(Some(or_empty(&report.commit_sha))),
        Value::Text(Some(or_empty(&report.run_id))),
        Value::Text(run_url),
        Value::Int(report.duration_seconds),
        Value::Bool(report.lint_passed),
        Value::Bool(report.test_passed),
    ];
    assert(values.deep_view() =~= upsert_values(*report));
    values
}

// ---------------------------------------------------------------------------
// Builds
// ---------------------------------------------------------------------------

/// What `chrono` writes for a moment, given in microseconds since 1970, in the
/// format of RFC 3339; nothing for a moment that it cannot represent.
pub uninterp spec fn rfc3339(micros: i64) -> Option<Seq<char>>;

/// `chrono::DateTime::to_rfc3339` of the moment that
/// `chrono::DateTime::from_timestamp_micros` makes of the number. What comes
/// out depends on the number alone.
#[verifier::external_body]
fn to_rfc3339(micros: i64) -> (r: Option<String>)
    ensures
        r.deep_view() == rfc3339(micros),
{
    chrono::DateTime::from_timestamp_micros(micros).map(|t| t.to_rfc3339())
}

/// A build as it is stored, with the moment of its creation in microseconds
/// since 1970.
pub struct BuildRecord {
    pub repo: String,
    pub workflow: String,
    pub status: String,
    pub branch: String,
    pub commit_sha: String,
    pub run_id: String,
    pub run_url: Option<String>,
    pub duration_seconds: Option<i32>,
    pub lint_passed: Option<bool>,
    pub test_passed: Option<bool>,
    pub created_micros: i64,
}

/// The last build of a workflow as it is stored, with the moment of its
/// creation in microseconds since 1970.
pub struct SummaryRecord {
    pub repo: String,
    pub workflow: String,
    pub status: String,
    pub branch: String,
    pub commit_sha: String,
    pub run_url: Option<String>,
    pub created_micros: i64,
}

/// Whether a row shows a build with this text for the moment of its creation.
pub open spec fn shows_build(row: BuildRow, record: BuildRecord, created_at: Seq<char>) -> bool {
    &&& row.repo@ == record.repo@
    &&& row.workflow@ == record.workflow@
    &&& row.status@ == record.status@
    &&& row.branch@ == record.branch@
    &&& row.commit_sha@ == record.commit_sha@
    &&& row.run_id@ == record.run_id@
    &&& row.run_url.deep_view() == record.run_url.deep_view()
    &&& row.duration_seconds == record.duration_seconds
    &&& row.lint_passed == record.lint_passed
    &&& row.test_passed == record.test_passed
    &&& row.created_at@ == created_at
}

/// Whether a row shows the last build of a workflow with this text for the
/// moment of its creation.
pub open spec fn shows_summary(
    row: SummaryRow,
    record: SummaryRecord,
    created_at: Seq<char>,
) -> bool {
    &&& row.repo@ == record.repo@
    &&& row.workflow@ == record.workflow@
    &&& row.status@ == record.status@
    &&& row.branch@ == record.branch@
    &&& row.commit_sha@ == record.commit_sha@
    &&& row.run_url.deep_view() == record.run_url.deep_view()
    &&& row.created_at@ == created_at
}

/// A build as it is shown, with the text for the moment of its creation.
pub fn build_row(record: BuildRecord, created_at: String) -> (row: BuildRow)
    ensures
        shows_build(row, record, created_at@),
{
    BuildRow {
        repo: record.repo,
        workflow: record.workflow,
        status: record.status,
        branch: record.branch,
        commit_sha: record.commit_sha,
        run_id: record.run_id,
        run_url: record.run_url,
        duration_seconds: record.duration_seconds,
        lint_passed: record.lint_passed,
        test_passed: record.test_passed,
        created_at,
    }
}

/// The last build of a workflow as it is shown, with the text for the moment of
/// its creation.
pub fn summary_row(record: SummaryRecord, created_at: String) -> (row: SummaryRow)
    ensures
        shows_summary(row, record, created_at@),
{
    SummaryRow {
        repo: record.repo,
        workflow: record.workflow,
        status: record.status,
        branch: record.branch,
        commit_sha: record.commit_sha,
        run_url: record.run_url,
        created_at,
    }
}

/// The builds as they are shown, in their order; nothing where the moment of
/// one cannot be represented.
pub fn get_builds(records: Vec<BuildRecord>) -> (r: Option<Vec<BuildRow>>)
    ensures
        r is Some <==> forall|i: int|
            0 <= i < records@.len() ==> rfc3339((#[trigger] records@[i]).created_micros) is Some,
        r matches Some(rows) ==> rows@.len() == records@.len() && forall|i: int|
            0 <= i < rows@.len() ==> shows_build(
                #[trigger] rows@[i],
                records@[i],
                rfc3339(records@[i].created_micros)->0,
            ),
{
    let ghost all = records@;
    let mut left = records;
    let mut rows: Vec<BuildRow> = Vec::new();
    while left.len() > 0
        invariant
            all == records@,
            left@ == all.skip(rows@.len() as int),
            rows@.len() <= all.len(),
            forall|i: int|
                0 <= i < rows@.len() ==> rfc3339((#[trigger] all[i]).created_micros) is Some,
            forall|i: int|
                0 <= i < rows@.len() ==> shows_build(
                    #[trigger] rows@[i],
                    all[i],
                    rfc3339(all[i].created_micros)->0,
                ),
        decreases left@.len(),
    {
        let ghost n = rows@.len() as int;
        let record = left.remove(0);
        assert(record == all[n]);
        assert(left@ =~= all.skip(n + 1));
        match to_rfc3339(record.created_micros) {
            Some(created_at) => {
                rows.push(build_row(record, created_at));
            },
            None => {
                return None;
            },
        }
    }
    Some(rows)
}

/// The last builds of the workflows as they are shown, in their order; nothing
/// where the moment of one cannot be represented.
pub fn get_summary(records: Vec<SummaryRecord>) -> (r: Option<Vec<SummaryRow>>)
    ensures
        r is Some <==> forall|i: int|
            0 <= i < records@.len() ==> rfc3339((#[trigger] records@[i]).created_micros) is Some,
        r matches Some(rows) ==> rows@.len() == records@.len() && forall|i: int|
            0 <= i < rows@.len() ==> shows_summary(
                #[trigger] rows@[i],
                records@[i],
                rfc3339(records@[i].created_micros)->0,
            ),
{
    let ghost all = records@;
    let mut left = records;
    let mut rows: Vec<SummaryRow> = Vec::new();
    while left.len() > 0
        invariant
            all == records@,
            left@ == all.skip(rows@.len() as int),
            rows@.len() <= all.len(),
            forall|i: int|
                0 <= i < rows@.len() ==> rfc3339((#[trigger] all[i]).created_micros) is Some,
            forall|i: int|
                0 <= i < rows@.len() ==> shows_summary(
                    #[trigger] rows@[i],
                    all[i],
                    rfc3339(all[i].created_micros)->0,
                ),
        decreases left@.len(),
    {
        let ghost n = rows@.len() as int;
        let record = left.remove(0);
        assert(record == all[n]);
        assert(left@ =~= all.skip(n + 1));
        match to_rfc3339(record.created_micros) {
            Some(created_at) => {
                rows.push(summary_row(record, created_at));
            },
            None => {
                return None;
            },
        }
    }
    Some(rows)
}

// ---------------------------------------------------------------------------
// Requests
// ---------------------------------------------------------------------------

/// A short answer to a request.
#[verifier::ext_equal]
pub struct Reply<T = String> {
    pub status: u16,
    pub ok: Option<bool>,
    pub error: Option<T>,
}

impl DeepView for Reply {
    type V = Reply<Seq<char>>;

    open spec fn deep_view(&self) -> Reply<Seq<char>> {
        Reply { status: self.status, ok: self.ok, error: self.error.deep_view() }
    }
}

/// The answer that all is well.
pub open spec fn fine() -> Reply<Seq<char>> {
    Reply { status: 200, ok: Some(true), error: None }
}

/// The answer that something is not.
pub open spec fn refusal(status: u16, error: Seq<char>) -> Reply<Seq<char>> {
    Reply { status, ok: None, error: Some(error) }
}

impl Reply {
    /// The answer that all is well.
    pub fn fine() -> (r: Reply)
        ensures
            r.deep_view() == fine(),
    {
        Reply { status: 200, ok: Some(true), error: None }
    }

    /// The answer that something is not.
    pub fn refusal(status: u16, error: &str) -> (r: Reply)
        ensures
            r.deep_view() == refusal(status, error@),
    {
        Reply { status, ok: None, error: Some(error.to_string()) }
    }
}

/// What a request asks for.
#[derive(Clone, Copy, PartialEq, Eq, Structural)]
pub enum Route {
    Report,
    Builds,
    Summary,
    Health,
    Unknown,
}

/// What a request asks for.
pub open spec fn route_of(method: Seq<char>, path: Seq<char>) -> Route {
    if method == "POST"@ && path == "/api/ci/report"@ {
        Route::Report
    } else if method == "GET"@ && path == "/api/ci/builds"@ {
        Route::Builds
    } else if method == "GET"@ && path == "/api/ci/summary"@ {
        Route::Summary
    } else if method == "GET"@ && path == "/api/ci/health"@ {
        Route::Health
    } else {
        Route::Unknown
    }
}

/// What a request asks for.
pub fn route(method: &str, path: &str) -> (r: Route)
    ensures
        r == route_of(method@, path@),
{
    if text::same(method, "POST") && text::same(path, "/api/ci/report") {
        return Route::Report;
    }
    if text::same(method, "GET") {
        if text::same(path, "/api/ci/builds") {
            return Route::Builds;
        }
        if text::same(path, "/api/ci/summary") {
            return Route::Summary;
        }
        if text::same(path, "/api/ci/health") {
            return Route::Health;
        }
    }
    proof {
        reveal_strlit("POST");
        reveal_strlit("GET");
        assert("POST"@.len() != "GET"@.len());
    }
    Route::Unknown
}

/// The answer to a request that needs no database, if it is one.
pub fn immediate_reply(route: Route) -> (r: Option<Reply>)
    ensures
        (match r {
            Some(reply) => Some(reply.deep_view()),
            None => None,
        }) == (match route {
            Route::Health => Some(fine()),
            Route::Unknown => Some(refusal(404, "Not found"@)),
            _ => None,
        }),
{
    match route {
        Route::Health => Some(Reply::fine()),
        Route::Unknown => Some(Reply::refusal(404, "Not found")),
        _ => None,
    }
}

/// The text of a report: that of the body, or an empty object where the body is
/// no text.
pub open spec fn body_text(body: Seq<u8>) -> Seq<char> {
    if vstd::utf8::valid_utf8(body) {
        vstd::utf8::decode_utf8(body)
    } else {
        "{}"@
    }
}

/// The text of a report.
pub fn report_text(body: Vec<u8>) -> (r: String)
    ensures
        r@ == body_text(body@),
{
    match text::from_utf8(body) {
        Some(text) => text,
        None => "{}".to_string(),
    }
}

/// The token of an authorization header; it is empty where there is none.
pub open spec fn bearer(header: Option<Seq<char>>) -> Seq<char> {
    match header {
        Some(text) => if "Bearer "@.is_prefix_of(text) {
            text.skip("Bearer "@.len() as int)
        } else {
            Seq::empty()
        },
        None => Seq::empty(),
    }
}

/// Whether a request may store a report: it has the token, if one is set.
pub open spec fn authorized(token: Option<Seq<char>>, header: Option<Seq<char>>) -> bool {
    match token {
        Some(token) => bearer(header) == token,
        None => true,
    }
}

fn bearer_token(header: &Option<String>) -> (r: String)
    ensures
        r@ == bearer(header.deep_view()),
{
    match header {
        Some(text) => match text::strip_prefix(text.as_str(), "Bearer ") {
            Some(rest) => rest,
            None => String::new(),
        },
        None => String::new(),
    }
}

/// Why a report is refused, if it is: an incomplete one whatever the token,
/// any other without the token that is set.
pub open spec fn judgement(
    report: BuildReport,
    token: Option<Seq<char>>,
    header: Option<Seq<char>>,
) -> Option<Reply<Seq<char>>> {
    if !is_complete(report) {
        Some(refusal(400, "Missing required fields"@))
    } else if !authorized(token, header) {
        Some(refusal(401, "Unauthorized"@))
    } else {
        None
    }
}

/// Why a report is refused, if it is. One that is not refused is stored and
/// answered with [`Reply::fine`].
pub fn judge(report: &BuildReport, token: &Option<String>, header: &Option<String>) -> (r: Option<
    Reply,
>)
    ensures
        (match r {
            Some(reply) => Some(reply.deep_view()),
            None => None,
        }) == judgement(*report, token.deep_view(), header.deep_view()),
{
    match validate_report(report) {
        Err(message) => {
            return Some(Reply::refusal(400, message));
        },
        Ok(_) => {},
    }
    match token {
        Some(token) => {
            let provided = bearer_token(header);
            if !text::same(provided.as_str(), token.as_str()) {
                return Some(Reply::refusal(401, "Unauthorized"));
            }
        },
        None => {},
    }
    None
}

/// Where a token is set that is not empty, a report without an authorization
/// header is never stored.
pub proof fn token_is_needed(report: BuildReport, token: Seq<char>)
    requires
        token.len() > 0,
    ensures
        judgement(report, Some(token), None) is Some,
{
}

/// A complete report with the token in its header is stored.
pub proof fn token_is_enough(report: BuildReport, token: Seq<char>)
    requires
        is_complete(report),
    ensures
        judgement(report, Some(token), Some("Bearer "@ + token)) is None,
{
    let header = "Bearer "@ + token;
    assert("Bearer "@.is_prefix_of(header));
    assert(bearer(Some(header)) =~= token);
}

/// Every parameter of a complete report that must hold a text does.
pub proof fn complete_reports_are_stored_whole(report: BuildReport, i: int)
    requires
        is_complete(report),
        0 <= i < 6,
    ensures
        upsert_values(report)[i] matches Value::Text(Some(text)) && text.len() > 0,
{
}

} // verus!
