//! What becomes of a report.

use vstd::prelude::*;

use crate::ingest;
use crate::ingest::{
    BuildRecord, BuildReport, BuildRow, Reply, SummaryRecord, SummaryRow, SELECT_BUILDS,
    SELECT_SUMMARY, UPSERT_BUILD,
};
use crate::ops::sql::Value;
use crate::text;

verus! {

/// The columns that a build is stored in, in the order of the parameters.
pub open spec fn columns() -> Seq<Seq<char>> {
    seq![
        "repo"@,
        "workflow"@,
        "status"@,
        "branch"@,
        "commit_sha"@,
        "run_id"@,
        "run_url"@,
        "duration_seconds"@,
        "lint_passed"@,
        "test_passed"@,
    ]
}

/// Whether a value is what a report says under the name of a column.
pub open spec fn is_field(value: Value<Seq<char>>, report: BuildReport, column: Seq<char>) -> bool {
    &&& column == "repo"@ ==> value == (match report.repo {
        Some(s) => Value::Text(Some(s@)),
        None => Value::Text(Some(Seq::empty())),
    })
    &&& column == "workflow"@ ==> value == (match report.workflow {
        Some(s) => Value::Text(Some(s@)),
        None => Value::Text(Some(Seq::empty())),
    })
    &&& column == "status"@ ==> value == (match report.status {
        Some(s) => Value::Text(Some(s@)),
        None => Value::Text(Some(Seq::empty())),
    })
    &&& column == "branch"@ ==> value == (match report.branch {
        Some(s) => Value::Text(Some(s@)),
        None => Value::Text(Some(Seq::empty())),
    })
    &&& column == "commit_sha"@ ==> value == (match report.commit_sha {
        Some(s) => Value::Text(Some(s@)),
        None => Value::Text(Some(Seq::empty())),
    })
    &&& column == "run_id"@ ==> value == (match report.run_id {
        Some(s) => Value::Text(Some(s@)),
        None => Value::Text(Some(Seq::empty())),
    })
    &&& column == "run_url"@ ==> value == (match report.run_url {
        Some(s) => Value::Text(Some(s@)),
        None => Value::Text(None),
    })
    &&& column == "duration_seconds"@ ==> value == Value::<Seq<char>>::Int(
        report.duration_seconds,
    )
    &&& column == "lint_passed"@ ==> value == Value::<Seq<char>>::Bool(report.lint_passed)
    &&& column == "test_passed"@ ==> value == Value::<Seq<char>>::Bool(report.test_passed)
}

/// No two columns have one name.
proof fn columns_differ()
    ensures
        forall|i: int, j: int|
            0 <= i < j < 10 ==> #[trigger] columns()[i] != #[trigger] columns()[j],
{
    reveal_strlit("repo");
    reveal_strlit("workflow");
    reveal_strlit("status");
    reveal_strlit("branch");
    reveal_strlit("commit_sha");
    reveal_strlit("run_id");
    reveal_strlit("run_url");
    reveal_strlit("duration_seconds");
    reveal_strlit("lint_passed");
    reveal_strlit("test_passed");
    let c = columns();
    assert(c[0].len() == 4 && c[0][0] == 'r');
    assert(c[1].len() == 8 && c[1][0] == 'w');
    assert(c[2].len() == 6 && c[2][0] == 's');
    assert(c[3].len() == 6 && c[3][0] == 'b');
    assert(c[4].len() == 10 && c[4][0] == 'c');
    assert(c[5].len() == 6 && c[5][0] == 'r');
    assert(c[6].len() == 7 && c[6][0] == 'r');
    assert(c[7].len() == 16 && c[7][0] == 'd');
    assert(c[8].len() == 11 && c[8][0] == 'l');
    assert(c[9].len() == 11 && c[9][0] == 't');
}

/// The parameters of the insertion of a complete report are its fields, each in
/// the place of the column of its name.
pub proof fn every_field_has_its_column(report: BuildReport, i: int)
    requires
        0 <= i < 10,
    ensures
        ingest::upsert_values(report).len() == 10,
        columns().len() == 10,
        is_field(ingest::upsert_values(report)[i], report, columns()[i]),
{
    columns_differ();
    let c = columns();
    assert(c[0] == "repo"@ && c[1] == "workflow"@ && c[2] == "status"@ && c[3] == "branch"@ && c[4]
        == "commit_sha"@ && c[5] == "run_id"@ && c[6] == "run_url"@ && c[7] == "duration_seconds"@
        && c[8] == "lint_passed"@ && c[9] == "test_passed"@);
}

/// The statements name the columns in the order of the parameters and of the
/// rows that are read; a run that is reported again changes its status, its
/// duration and what has passed, and nothing else.
pub proof fn statements_name_columns()
    ensures
        UPSERT_BUILD@
            == "INSERT INTO ci_builds (repo, workflow, status, branch, commit_sha, run_id, run_url, duration_seconds, lint_passed, test_passed)
         VALUES ($1, $2, $3, $4, $5, $6, $7, $8, $9, $10)
         ON CONFLICT (run_id) DO UPDATE SET
           status = EXCLUDED.status,
           duration_seconds = EXCLUDED.duration_seconds,
           lint_passed = EXCLUDED.lint_passed,
           test_passed = EXCLUDED.test_passed"@,
        ("INSERT INTO ci_builds ("@ + text::join(columns(), ", "@) + ")"@).is_prefix_of(
            UPSERT_BUILD@,
        ),
        SELECT_BUILDS@
            == "SELECT repo, workflow, status, branch, commit_sha, run_id, run_url,
                duration_seconds, lint_passed, test_passed, created_at
         FROM ci_builds ORDER BY created_at DESC LIMIT 100"@,
        SELECT_SUMMARY@ == "SELECT DISTINCT ON (repo, workflow)
                repo, workflow, status, branch, commit_sha, run_url, created_at
         FROM ci_builds ORDER BY repo, workflow, created_at DESC"@,
{
    let names = "repo, workflow, status, branch, commit_sha, run_id, run_url, duration_seconds, lint_passed, test_passed"@;
    columns_joined();
    reveal_strlit(
        "repo, workflow, status, branch, commit_sha, run_id, run_url, duration_seconds, lint_passed, test_passed",
    );
    reveal_strlit("INSERT INTO ci_builds (");
    reveal_strlit(")");
    reveal_strlit(
        "INSERT INTO ci_builds (repo, workflow, status, branch, commit_sha, run_id, run_url, duration_seconds, lint_passed, test_passed)
         VALUES ($1, $2, $3, $4, $5, $6, $7, $8, $9, $10)
         ON CONFLICT (run_id) DO UPDATE SET
           status = EXCLUDED.status,
           duration_seconds = EXCLUDED.duration_seconds,
           lint_passed = EXCLUDED.lint_passed,
           test_passed = EXCLUDED.test_passed",
    );
    let front = "INSERT INTO ci_builds ("@ + names + ")"@;
    assert(front =~= UPSERT_BUILD@.subrange(0, front.len() as int));
}

proof fn columns_joined()
    ensures
        text::join(columns(), ", "@)
            == "repo, workflow, status, branch, commit_sha, run_id, run_url, duration_seconds, lint_passed, test_passed"@,
{
    reveal_strlit("repo");
    reveal_strlit("workflow");
    reveal_strlit("status");
    reveal_strlit("branch");
    reveal_strlit("commit_sha");
    reveal_strlit("run_id");
    reveal_strlit("run_url");
    reveal_strlit("duration_seconds");
    reveal_strlit("lint_passed");
    reveal_strlit("test_passed");
    reveal_strlit(", ");
    reveal_strlit(
        "repo, workflow, status, branch, commit_sha, run_id, run_url, duration_seconds, lint_passed, test_passed",
    );
    let c = columns();
    let sep = ", "@;
    let r1 = c[0];
    let r2 = r1 + sep + c[1];
    let r3 = r2 + sep + c[2];
    let r4 = r3 + sep + c[3];
    let r5 = r4 + sep + c[4];
    let r6 = r5 + sep + c[5];
    let r7 = r6 + sep + c[6];
    let r8 = r7 + sep + c[7];
    let r9 = r8 + sep + c[8];
    let r10 = r9 + sep + c[9];
    join_step(c, 1, r1, sep);
    join_step(c, 2, r2, sep);
    join_step(c, 3, r3, sep);
    join_step(c, 4, r4, sep);
    join_step(c, 5, r5, sep);
    join_step(c, 6, r6, sep);
    join_step(c, 7, r7, sep);
    join_step(c, 8, r8, sep);
    join_step(c, 9, r9, sep);
    assert(c.take(10) =~= c);
    assert(r10
        =~= "repo, workflow, status, branch, commit_sha, run_id, run_url, duration_seconds, lint_passed, test_passed"@);
}

proof fn join_step(parts: Seq<Seq<char>>, n: int, front: Seq<char>, sep: Seq<char>)
    requires
        1 <= n < parts.len(),
        n == 1 ==> front == parts[0],
        n > 1 ==> front == text::join(parts.take(n), sep),
    ensures
        text::join(parts.take(n + 1), sep) == front + sep + parts[n],
{
    reveal_with_fuel(text::join, 2);
    assert(parts.take(n + 1).drop_last() =~= parts.take(n));
    if n == 1 {
        assert(parts.take(1) =~= seq![parts[0]]);
    }
}

/// A new run that is read back shows the report, field by field.
pub proof fn stored_build_is_shown(
    report: BuildReport,
    record: BuildRecord,
    row: BuildRow,
    created_at: Seq<char>,
)
    requires
        report.repo is Some,
        report.workflow is Some,
        report.status is Some,
        report.branch is Some,
        report.commit_sha is Some,
        report.run_id is Some,
        ingest::upsert_values(report) == seq![
            Value::Text(Some(record.repo@)),
            Value::Text(Some(record.workflow@)),
            Value::Text(Some(record.status@)),
            Value::Text(Some(record.branch@)),
            Value::Text(Some(record.commit_sha@)),
            Value::Text(Some(record.run_id@)),
            Value::Text(record.run_url.deep_view()),
            Value::Int(record.duration_seconds),
            Value::Bool(record.lint_passed),
            Value::Bool(record.test_passed),
        ],
        ingest::shows_build(row, record, created_at),
    ensures
        row.repo@ == report.repo->0@,
        row.workflow@ == report.workflow->0@,
        row.status@ == report.status->0@,
        row.branch@ == report.branch->0@,
        row.commit_sha@ == report.commit_sha->0@,
        row.run_id@ == report.run_id->0@,
        row.run_url.deep_view() == report.run_url.deep_view(),
        row.duration_seconds == report.duration_seconds,
        row.lint_passed == report.lint_passed,
        row.test_passed == report.test_passed,
        row.created_at@ == created_at,
{
    let v = ingest::upsert_values(report);
    assert(v[0] == Value::Text(Some(record.repo@)));
    assert(v[1] == Value::Text(Some(record.workflow@)));
    assert(v[2] == Value::Text(Some(record.status@)));
    assert(v[3] == Value::Text(Some(record.branch@)));
    assert(v[4] == Value::Text(Some(record.commit_sha@)));
    assert(v[5] == Value::Text(Some(record.run_id@)));
    assert(v[6] == Value::Text(record.run_url.deep_view()));
    assert(v[7] == Value::<Seq<char>>::Int(record.duration_seconds));
    assert(v[8] == Value::<Seq<char>>::Bool(record.lint_passed));
    assert(v[9] == Value::<Seq<char>>::Bool(record.test_passed));
}

/// The last build of a workflow is shown field by field.
pub proof fn stored_summary_is_shown(
    record: SummaryRecord,
    row: SummaryRow,
    created_at: Seq<char>,
)
    requires
        ingest::shows_summary(row, record, created_at),
    ensures
        row.repo@ == record.repo@,
        row.workflow@ == record.workflow@,
        row.status@ == record.status@,
        row.branch@ == record.branch@,
        row.commit_sha@ == record.commit_sha@,
        row.run_url.deep_view() == record.run_url.deep_view(),
        row.created_at@ == created_at,
{
}

/// A report is complete if and only if each of the six fields that are needed
/// holds at least one character.
pub proof fn complete_means_six_fields(report: BuildReport)
    ensures
        ingest::is_complete(report) <==> {
            &&& report.repo is Some && report.repo->0@.len() > 0
            &&& report.workflow is Some && report.workflow->0@.len() > 0
            &&& report.status is Some && report.status->0@.len() > 0
            &&& report.branch is Some && report.branch->0@.len() > 0
            &&& report.commit_sha is Some && report.commit_sha->0@.len() > 0
            &&& report.run_id is Some && report.run_id->0@.len() > 0
        },
{
}

/// An incomplete report is refused as a bad request, whatever the token. A
/// complete one is refused as unauthorized if and only if a token is set and
/// the header does not bring it behind the word `Bearer`; an empty token needs
/// no header. All others are stored.
pub proof fn refused_reports(
    report: BuildReport,
    token: Option<Seq<char>>,
    header: Option<Seq<char>>,
)
    ensures
        ({
            let r = ingest::judgement(report, token, header);
            let brings = |t: Seq<char>|
                (header matches Some(h) && h == "Bearer "@ + t) || (t.len() == 0 && !(
                header matches Some(h) && "Bearer "@.is_prefix_of(h)));
            &&& !ingest::is_complete(report) ==> r == Some(
                Reply { status: 400, ok: None, error: Some("Missing required fields"@) },
            )
            &&& ingest::is_complete(report) && token is Some && !brings(token->0) ==> r == Some(
                Reply { status: 401, ok: None, error: Some("Unauthorized"@) },
            )
            &&& ingest::is_complete(report) && (token is None || brings(token->0)) ==> r is None
        }),
{
    if let Some(t) = token {
        if let Some(h) = header {
            if "Bearer "@.is_prefix_of(h) {
                let rest = h.skip("Bearer "@.len() as int);
                assert("Bearer "@ =~= h.subrange(0, "Bearer "@.len() as int));
                assert(h =~= "Bearer "@ + rest);
                if h == "Bearer "@ + t {
                    assert(("Bearer "@ + t).skip("Bearer "@.len() as int) =~= t);
                }
            } else if h == "Bearer "@ + t {
                assert("Bearer "@ =~= h.subrange(0, "Bearer "@.len() as int));
            }
        }
        if t.len() == 0 {
            assert(t =~= Seq::empty());
        }
    }
}

/// Each of the four requests is known by its method and its path, and no other
/// request is.
pub proof fn requests_by_method_and_path(method: Seq<char>, path: Seq<char>)
    ensures
        ingest::route_of(method, path) is Report <==> method == "POST"@ && path
            == "/api/ci/report"@,
        ingest::route_of(method, path) is Builds <==> method == "GET"@ && path
            == "/api/ci/builds"@,
        ingest::route_of(method, path) is Summary <==> method == "GET"@ && path
            == "/api/ci/summary"@,
        ingest::route_of(method, path) is Health <==> method == "GET"@ && path
            == "/api/ci/health"@,
{
    reveal_strlit("POST");
    reveal_strlit("GET");
    assert("POST"@.len() != "GET"@.len());
    reveal_strlit("/api/ci/report");
    reveal_strlit("/api/ci/builds");
    reveal_strlit("/api/ci/summary");
    reveal_strlit("/api/ci/health");
    assert("/api/ci/builds"@[8] == 'b');
    assert("/api/ci/summary"@[8] == 's');
    assert("/api/ci/health"@[8] == 'h');
}

/// The report is the body itself where that is a text, and an empty object where
/// it is none; the short answers say what they say.
pub proof fn bodies_and_answers(body: Seq<u8>, status: u16, error: Seq<char>)
    ensures
        vstd::utf8::valid_utf8(body) ==> ingest::body_text(body) == vstd::utf8::decode_utf8(body),
        !vstd::utf8::valid_utf8(body) ==> ingest::body_text(body) == "{}"@,
        ingest::fine() == (Reply::<Seq<char>> { status: 200, ok: Some(true), error: None }),
        ingest::refusal(status, error) == (Reply::<Seq<char>> {
            status,
            ok: None,
            error: Some(error),
        }),
{
}

} // verus!
