//! The SQL of the operations.

use vstd::prelude::*;
use vstd::string::*;

use super::{Action, AuditEntry, Indent};

verus! {

/// The database of the service.
pub const OPS_DB: &'static str = "platform_ops";

/// The table of a project's database that tracks its migrations.
pub const LOCAL_TRACKING: &'static str = "
CREATE TABLE IF NOT EXISTS schema_migrations (
  id SERIAL PRIMARY KEY,
  filename TEXT NOT NULL UNIQUE,
  checksum TEXT NOT NULL,
  noop BOOLEAN NOT NULL DEFAULT FALSE,
  comment TEXT,
  applied_at TIMESTAMPTZ DEFAULT NOW(),
  duration_ms INTEGER
);
";

/// The tables of the service's database.
pub const OPS_SCHEMA: &'static str = "
CREATE TABLE IF NOT EXISTS migration_audit (
  id SERIAL PRIMARY KEY,
  project TEXT NOT NULL,
  operation TEXT NOT NULL,
  filename TEXT,
  checksum TEXT,
  status TEXT NOT NULL,
  comment TEXT,
  error_message TEXT,
  duration_ms INTEGER,
  created_at TIMESTAMPTZ DEFAULT NOW()
);
CREATE INDEX IF NOT EXISTS idx_audit_project ON migration_audit (project, created_at DESC);

CREATE TABLE IF NOT EXISTS seed_runs (
  id SERIAL PRIMARY KEY,
  project TEXT NOT NULL,
  filename TEXT NOT NULL,
  checksum TEXT NOT NULL,
  created_at TIMESTAMPTZ DEFAULT NOW()
);
CREATE INDEX IF NOT EXISTS idx_seed_project ON seed_runs (project, created_at DESC);
";

pub const SELECT_APPLIED: &'static str = "SELECT filename, checksum FROM schema_migrations";

pub const SELECT_NAMES: &'static str =
    "SELECT filename FROM schema_migrations ORDER BY filename DESC";

pub const SELECT_RECORDED: &'static str = "SELECT 1 FROM schema_migrations WHERE filename = $1";

pub const INSERT_MIGRATION: &'static str =
    "INSERT INTO schema_migrations (filename, checksum, duration_ms) VALUES ($1, $2, $3)";

pub const INSERT_NOOP: &'static str =
    "INSERT INTO schema_migrations (filename, checksum, noop, comment, duration_ms) VALUES ($1, $2, TRUE, $3, 0)";

pub const DELETE_MIGRATION: &'static str = "DELETE FROM schema_migrations WHERE filename = $1";

pub const INSERT_AUDIT: &'static str =
    "INSERT INTO migration_audit (project, operation, filename, checksum, status, comment, error_message, duration_ms)
             VALUES ($1, $2, $3, $4, $5, $6, $7, $8)";

pub const INSERT_SEED: &'static str =
    "INSERT INTO seed_runs (project, filename, checksum) VALUES ($1, $2, $3)";

pub const LOCK: &'static str = "SELECT pg_advisory_lock($1)";

pub const UNLOCK: &'static str = "SELECT pg_advisory_unlock($1)";

pub const TERMINATE: &'static str =
    "SELECT pg_terminate_backend(pid) FROM pg_stat_activity WHERE datname = $1 AND pid <> pg_backend_pid()";

pub const SELECT_DATABASE: &'static str = "SELECT 1 FROM pg_database WHERE datname = $1";

pub const SELECT_ROLE: &'static str = "SELECT 1 FROM pg_roles WHERE rolname = $1";

pub const SET_SEARCH_PATH: &'static str = "SET search_path TO public";

/// Which of the open connections a statement is for.
#[derive(Clone, Copy, PartialEq, Eq, Structural)]
pub enum Connection {
    /// The one to the maintenance database.
    Admin,
    /// The one to the project's database, as it was opened last.
    Project,
    /// The one to the service's database.
    Ops,
}

/// How a statement is run.
#[derive(Clone, Copy, PartialEq, Eq, Structural)]
pub enum Mode {
    /// As a script, without parameters.
    Batch,
    /// As a statement whose rows do not matter.
    Execute,
    /// As a query for rows.
    Query,
}

/// A value that a statement is run with.
#[verifier::ext_equal]
pub enum Value<T = String> {
    Text(Option<T>),
    Int(Option<i32>),
    Big(i64),
    Bool(Option<bool>),
}

/// A statement for one of the connections.
#[verifier::ext_equal]
pub struct Statement<T = String, P = Vec<Value>> {
    pub connection: Connection,
    pub mode: Mode,
    pub sql: T,
    pub values: P,
}

/// What a [`Statement`] says.
pub type StatementModel = Statement<Seq<char>, Seq<Value<Seq<char>>>>;

impl DeepView for Value {
    type V = Value<Seq<char>>;

    open spec fn deep_view(&self) -> Value<Seq<char>> {
        match *self {
            Value::Text(text) => Value::Text(text.deep_view()),
            Value::Int(n) => Value::Int(n),
            Value::Big(n) => Value::Big(n),
            Value::Bool(b) => Value::Bool(b),
        }
    }
}

impl DeepView for Statement {
    type V = StatementModel;

    open spec fn deep_view(&self) -> StatementModel {
        Statement {
            connection: self.connection,
            mode: self.mode,
            sql: self.sql@,
            values: self.values.deep_view(),
        }
    }
}

/// A name in quotation marks.
pub open spec fn quoted(name: Seq<char>) -> Seq<char> {
    "\""@ + name + "\""@
}

fn quote(name: &str) -> (r: String)
    ensures
        r@ == quoted(name@),
{
    String::from_str("\"").concat(name).concat("\"")
}

pub open spec fn create_database(db: Seq<char>) -> Seq<char> {
    "CREATE DATABASE "@ + quoted(db)
}

pub open spec fn drop_database(db: Seq<char>) -> Seq<char> {
    "DROP DATABASE IF EXISTS "@ + quoted(db)
}

pub open spec fn create_role(role: Seq<char>, password: Seq<char>) -> Seq<char> {
    "CREATE ROLE "@ + quoted(role) + " LOGIN PASSWORD '"@ + password + "'"@
}

pub open spec fn grant_all(db: Seq<char>, role: Seq<char>) -> Seq<char> {
    "GRANT ALL PRIVILEGES ON DATABASE "@ + quoted(db) + " TO "@ + quoted(role)
}

/// The end of a statement of a script and the indentation of the next.
pub open spec fn line_break(indent: Indent) -> Seq<char> {
    match indent {
        Indent::Narrow => ";\n         "@,
        Indent::Wide => ";\n             "@,
    }
}

fn next_line(indent: Indent) -> (r: &'static str)
    ensures
        r@ == line_break(indent),
{
    match indent {
        Indent::Narrow => ";\n         ",
        Indent::Wide => ";\n             ",
    }
}

pub open spec fn grant_database(
    db: Seq<char>,
    role: Seq<char>,
    reader: Seq<char>,
    indent: Indent,
) -> Seq<char> {
    grant_all(db, role) + line_break(indent) + "GRANT CONNECT ON DATABASE "@ + quoted(db)
        + " TO "@ + quoted(reader) + ";"@
}

pub open spec fn grant_membership(role: Seq<char>) -> Seq<char> {
    "GRANT "@ + quoted(role) + " TO CURRENT_USER"@
}

pub open spec fn grant_schema(role: Seq<char>, indent: Indent) -> Seq<char> {
    "GRANT ALL ON SCHEMA public TO "@ + quoted(role) + line_break(indent)
        + "ALTER DEFAULT PRIVILEGES IN SCHEMA public GRANT ALL ON TABLES TO "@ + quoted(role)
        + line_break(indent)
        + "ALTER DEFAULT PRIVILEGES IN SCHEMA public GRANT ALL ON SEQUENCES TO "@ + quoted(role)
        + line_break(indent) + "GRANT ALL ON ALL TABLES IN SCHEMA public TO "@ + quoted(role)
        + line_break(indent) + "GRANT ALL ON ALL SEQUENCES IN SCHEMA public TO "@ + quoted(role)
        + ";"@
}

pub open spec fn grant_reader(role: Seq<char>, reader: Seq<char>, indent: Indent) -> Seq<char> {
    "GRANT USAGE ON SCHEMA public TO "@ + quoted(reader) + line_break(indent)
        + "GRANT SELECT ON ALL TABLES IN SCHEMA public TO "@ + quoted(reader)
        + line_break(indent) + "GRANT SELECT ON ALL SEQUENCES IN SCHEMA public TO "@
        + quoted(reader) + line_break(indent)
        + "ALTER DEFAULT PRIVILEGES IN SCHEMA public GRANT SELECT ON TABLES TO "@
        + quoted(reader) + line_break(indent)
        + "ALTER DEFAULT PRIVILEGES IN SCHEMA public GRANT SELECT ON SEQUENCES TO "@
        + quoted(reader) + line_break(indent) + "ALTER DEFAULT PRIVILEGES FOR ROLE "@
        + quoted(role) + " IN SCHEMA public GRANT SELECT ON TABLES TO "@ + quoted(reader)
        + line_break(indent) + "ALTER DEFAULT PRIVILEGES FOR ROLE "@ + quoted(role)
        + " IN SCHEMA public GRANT SELECT ON SEQUENCES TO "@ + quoted(reader) + ";"@
}

/// The grants to a reader, after the administrator was made a member of the
/// application's role.
pub open spec fn grant_reader_as_member(role: Seq<char>, reader: Seq<char>) -> Seq<char> {
    grant_membership(role) + line_break(Indent::Wide) + grant_reader(role, reader, Indent::Wide)
}

/// A script without parameters.
pub open spec fn script(connection: Connection, sql: Seq<char>) -> Option<StatementModel> {
    Some(Statement { connection, mode: Mode::Batch, sql, values: Seq::empty() })
}

/// A statement with its parameters.
pub open spec fn with_values(
    connection: Connection,
    mode: Mode,
    sql: Seq<char>,
    values: Seq<Value<Seq<char>>>,
) -> Option<StatementModel> {
    Some(Statement { connection, mode, sql, values })
}

/// A text as a parameter.
pub open spec fn text_value(text: Seq<char>) -> Value<Seq<char>> {
    Value::Text(Some(text))
}

/// The parameters of the insertion of an audit line.
pub open spec fn audit_values(entry: AuditEntry<Seq<char>>) -> Seq<Value<Seq<char>>> {
    seq![
        text_value(entry.project),
        text_value(entry.operation),
        Value::Text(entry.filename),
        Value::Text(entry.checksum),
        text_value(entry.status),
        Value::Text(entry.comment),
        Value::Text(entry.error_message),
        Value::Int(entry.duration_ms),
    ]
}

/// The statement that performs an action, where it is performed by one.
pub open spec fn statement_of(action: Action<Seq<char>>) -> Option<StatementModel> {
    match action {
        Action::InitTracking => script(Connection::Project, LOCAL_TRACKING@),
        Action::QueryApplied => with_values(
            Connection::Project,
            Mode::Query,
            SELECT_APPLIED@,
            Seq::empty(),
        ),
        Action::QueryAppliedNames => with_values(
            Connection::Project,
            Mode::Query,
            SELECT_NAMES@,
            Seq::empty(),
        ),
        Action::QueryRecorded { filename } => with_values(
            Connection::Project,
            Mode::Query,
            SELECT_RECORDED@,
            seq![text_value(filename)],
        ),
        Action::Begin => script(Connection::Project, "BEGIN"@),
        Action::Commit => script(Connection::Project, "COMMIT"@),
        Action::Rollback => script(Connection::Project, "ROLLBACK"@),
        Action::RunScript { sql } => script(Connection::Project, sql),
        Action::Record { filename, checksum, duration_ms } => with_values(
            Connection::Project,
            Mode::Execute,
            INSERT_MIGRATION@,
            seq![text_value(filename), text_value(checksum), Value::Int(Some(duration_ms))],
        ),
        Action::RecordNoop { filename, checksum, comment } => with_values(
            Connection::Project,
            Mode::Execute,
            INSERT_NOOP@,
            seq![text_value(filename), text_value(checksum), text_value(comment)],
        ),
        Action::Unrecord { filename } => with_values(
            Connection::Project,
            Mode::Execute,
            DELETE_MIGRATION@,
            seq![text_value(filename)],
        ),
        Action::Audit { entry } => with_values(
            Connection::Ops,
            Mode::Execute,
            INSERT_AUDIT@,
            audit_values(entry),
        ),
        Action::LogSeed { project, filename, checksum } => with_values(
            Connection::Ops,
            Mode::Execute,
            INSERT_SEED@,
            seq![text_value(project), text_value(filename), text_value(checksum)],
        ),
        Action::InitOps => script(Connection::Ops, OPS_SCHEMA@),
        Action::AcquireLock { id } => with_values(
            Connection::Ops,
            Mode::Execute,
            LOCK@,
            seq![Value::Big(id)],
        ),
        Action::ReleaseLock { id } => with_values(
            Connection::Ops,
            Mode::Execute,
            UNLOCK@,
            seq![Value::Big(id)],
        ),
        Action::TerminateBackends { db } => with_values(
            Connection::Admin,
            Mode::Execute,
            TERMINATE@,
            seq![text_value(db)],
        ),
        Action::DropDatabase { db } => script(Connection::Admin, drop_database(db)),
        Action::CreateDatabase { db } => script(Connection::Admin, create_database(db)),
        Action::QueryDatabase { db } => with_values(
            Connection::Admin,
            Mode::Query,
            SELECT_DATABASE@,
            seq![text_value(db)],
        ),
        Action::QueryRole { role } => with_values(
            Connection::Admin,
            Mode::Query,
            SELECT_ROLE@,
            seq![text_value(role)],
        ),
        Action::CreateRole { role, password } => script(
            Connection::Admin,
            create_role(role, password),
        ),
        Action::GrantDatabase { db, role, reader, indent } => script(
            Connection::Admin,
            grant_database(db, role, reader, indent),
        ),
        Action::GrantAll { db, role } => script(Connection::Admin, grant_all(db, role)),
        Action::GrantMembership { role } => script(Connection::Admin, grant_membership(role)),
        Action::GrantSchema { role, indent } => script(
            Connection::Project,
            grant_schema(role, indent),
        ),
        Action::GrantReader { role, reader, membership } => script(
            Connection::Project,
            if membership {
                grant_reader_as_member(role, reader)
            } else {
                grant_reader(role, reader, Indent::Narrow)
            },
        ),
        Action::SetSearchPath => script(Connection::Project, SET_SEARCH_PATH@),
        Action::ListFiles { .. }
        | Action::ReadFile { .. }
        | Action::ConnectAdmin
        | Action::ConnectProject { .. }
        | Action::ConnectApp { .. }
        | Action::ConnectOps
        | Action::PutParam { .. }
        | Action::PutSecret { .. } => None,
    }
}

fn batch(connection: Connection, sql: String) -> (r: Option<Statement>)
    ensures
        r matches Some(s) && Some(s.deep_view()) == script(connection, sql@),
        r matches Some(s) ==> s.values@.len() == 0,
{
    let values: Vec<Value> = Vec::new();
    assert(values.deep_view() =~= Seq::empty());
    Some(Statement { connection, mode: Mode::Batch, sql, values })
}

fn prepared(connection: Connection, mode: Mode, sql: &str, values: Vec<Value>) -> (r: Option<
    Statement,
>)
    ensures
        r matches Some(s) && Some(s.deep_view()) == with_values(
            connection,
            mode,
            sql@,
            values.deep_view(),
        ),
{
    Some(Statement { connection, mode, sql: sql.to_string(), values })
}

/// No parameters.
fn nothing() -> (v: Vec<Value>)
    ensures
        v.deep_view() == Seq::<Value<Seq<char>>>::empty(),
{
    let v: Vec<Value> = Vec::new();
    assert(v.deep_view() =~= Seq::<Value<Seq<char>>>::empty());
    v
}

/// One text as the parameters.
fn one(a: &String) -> (v: Vec<Value>)
    ensures
        v.deep_view() == seq![text_value(a@)],
{
    let v: Vec<Value> = vec![Value::Text(Some(a.clone()))];
    assert(v.deep_view() =~= seq![text_value(a@)]);
    v
}

/// Three texts as the parameters.
fn three(a: &String, b: &String, c: &String) -> (v: Vec<Value>)
    ensures
        v.deep_view() == seq![text_value(a@), text_value(b@), text_value(c@)],
{
    let v: Vec<Value> = vec![
        Value::Text(Some(a.clone())),
        Value::Text(Some(b.clone())),
        Value::Text(Some(c.clone())),
    ];
    assert(v.deep_view() =~= seq![text_value(a@), text_value(b@), text_value(c@)]);
    v
}

/// One large number as the parameters.
fn big(n: i64) -> (v: Vec<Value>)
    ensures
        v.deep_view() == seq![Value::<Seq<char>>::Big(n)],
{
    let v: Vec<Value> = vec![Value::Big(n)];
    assert(v.deep_view() =~= seq![Value::<Seq<char>>::Big(n)]);
    v
}

/// A copy of an optional text.
fn copied(text: &Option<String>) -> (r: Option<String>)
    ensures
        r.deep_view() == text.deep_view(),
{
    match text {
        Some(s) => Some(s.clone()),
        None => None,
    }
}

/// The parameters of the insertion of an audit line.
fn audit_parameters(entry: &AuditEntry) -> (v: Vec<Value>)
    ensures
        v.deep_view() == audit_values(entry.deep_view()),
{
    let v: Vec<Value> = vec![
        Value::Text(Some(entry.project.clone())),
        Value::Text(Some(entry.operation.clone())),
        Value::Text(copied(&entry.filename)),
        Value::Text(copied(&entry.checksum)),
        Value::Text(Some(entry.status.clone())),
        Value::Text(copied(&entry.comment)),
        Value::Text(copied(&entry.error_message)),
        Value::Int(entry.duration_ms),
    ];
    assert(v.deep_view() =~= audit_values(entry.deep_view()));
    v
}

fn all_grant(db: &str, role: &str) -> (r: String)
    ensures
        r@ == grant_all(db@, role@),
{
    String::from_str("GRANT ALL PRIVILEGES ON DATABASE ").concat(quote(db).as_str()).concat(
        " TO ",
    ).concat(quote(role).as_str())
}

fn membership_grant(role: &str) -> (r: String)
    ensures
        r@ == grant_membership(role@),
{
    String::from_str("GRANT ").concat(quote(role).as_str()).concat(" TO CURRENT_USER")
}

fn schema_grant(role: &str, indent: Indent) -> (r: String)
    ensures
        r@ == grant_schema(role@, indent),
{
    let role = quote(role);
    let end = next_line(indent);
    String::from_str("GRANT ALL ON SCHEMA public TO ").concat(role.as_str()).concat(end).concat(
        "ALTER DEFAULT PRIVILEGES IN SCHEMA public GRANT ALL ON TABLES TO ",
    ).concat(role.as_str()).concat(end).concat(
        "ALTER DEFAULT PRIVILEGES IN SCHEMA public GRANT ALL ON SEQUENCES TO ",
    ).concat(role.as_str()).concat(end).concat(
        "GRANT ALL ON ALL TABLES IN SCHEMA public TO ",
    ).concat(role.as_str()).concat(end).concat(
        "GRANT ALL ON ALL SEQUENCES IN SCHEMA public TO ",
    ).concat(role.as_str()).concat(";")
}

fn reader_grant(role: &str, reader: &str, indent: Indent) -> (r: String)
    ensures
        r@ == grant_reader(role@, reader@, indent),
{
    let role = quote(role);
    let reader = quote(reader);
    let end = next_line(indent);
    String::from_str("GRANT USAGE ON SCHEMA public TO ").concat(reader.as_str()).concat(
        end,
    ).concat("GRANT SELECT ON ALL TABLES IN SCHEMA public TO ").concat(reader.as_str()).concat(
        end,
    ).concat("GRANT SELECT ON ALL SEQUENCES IN SCHEMA public TO ").concat(
        reader.as_str(),
    ).concat(end).concat(
        "ALTER DEFAULT PRIVILEGES IN SCHEMA public GRANT SELECT ON TABLES TO ",
    ).concat(reader.as_str()).concat(end).concat(
        "ALTER DEFAULT PRIVILEGES IN SCHEMA public GRANT SELECT ON SEQUENCES TO ",
    ).concat(reader.as_str()).concat(end).concat("ALTER DEFAULT PRIVILEGES FOR ROLE ").concat(
        role.as_str(),
    ).concat(" IN SCHEMA public GRANT SELECT ON TABLES TO ").concat(reader.as_str()).concat(
        end,
    ).concat("ALTER DEFAULT PRIVILEGES FOR ROLE ").concat(role.as_str()).concat(
        " IN SCHEMA public GRANT SELECT ON SEQUENCES TO ",
    ).concat(reader.as_str()).concat(";")
}

/// The statement that performs an action, where it is performed by one.
pub fn statement(action: &Action) -> (r: Option<Statement>)
    ensures
        (match r {
            Some(s) => Some(s.deep_view()),
            None => None,
        }) == statement_of(action.deep_view()),
        action is Begin || action is Commit || action is Rollback ==> {
            &&& r is Some
            &&& r->0.connection is Project
            &&& r->0.mode is Batch
            &&& r->0.values@.len() == 0
            &&& action is Begin ==> r->0.sql@ == "BEGIN"@
            &&& action is Commit ==> r->0.sql@ == "COMMIT"@
            &&& action is Rollback ==> r->0.sql@ == "ROLLBACK"@
        },
{
    match action {
        Action::InitTracking => batch(Connection::Project, LOCAL_TRACKING.to_string()),
        Action::QueryApplied => prepared(
            Connection::Project,
            Mode::Query,
            SELECT_APPLIED,
            nothing(),
        ),
        Action::QueryAppliedNames => prepared(
            Connection::Project,
            Mode::Query,
            SELECT_NAMES,
            nothing(),
        ),
        Action::QueryRecorded { filename } => prepared(
            Connection::Project,
            Mode::Query,
            SELECT_RECORDED,
            one(filename),
        ),
        Action::Begin => batch(Connection::Project, "BEGIN".to_string()),
        Action::Commit => batch(Connection::Project, "COMMIT".to_string()),
        Action::Rollback => batch(Connection::Project, "ROLLBACK".to_string()),
        Action::RunScript { sql } => batch(Connection::Project, sql.clone()),
        Action::Record { filename, checksum, duration_ms } => {
            let values: Vec<Value> = vec![
                Value::Text(Some(filename.clone())),
                Value::Text(Some(checksum.clone())),
                Value::Int(Some(*duration_ms)),
            ];
            assert(values.deep_view() =~= seq![
                text_value(filename@),
                text_value(checksum@),
                Value::Int(Some(*duration_ms)),
            ]);
            prepared(Connection::Project, Mode::Execute, INSERT_MIGRATION, values)
        },
        Action::RecordNoop { filename, checksum, comment } => prepared(
            Connection::Project,
            Mode::Execute,
            INSERT_NOOP,
            three(filename, checksum, comment),
        ),
        Action::Unrecord { filename } => prepared(
            Connection::Project,
            Mode::Execute,
            DELETE_MIGRATION,
            one(filename),
        ),
        Action::Audit { entry } => prepared(
            Connection::Ops,
            Mode::Execute,
            INSERT_AUDIT,
            audit_parameters(entry),
        ),
        Action::LogSeed { project, filename, checksum } => prepared(
            Connection::Ops,
            Mode::Execute,
            INSERT_SEED,
            three(project, filename, checksum),
        ),
        Action::InitOps => batch(Connection::Ops, OPS_SCHEMA.to_string()),
        Action::AcquireLock { id } => prepared(Connection::Ops, Mode::Execute, LOCK, big(*id)),
        Action::ReleaseLock { id } => prepared(Connection::Ops, Mode::Execute, UNLOCK, big(*id)),
        Action::TerminateBackends { db } => prepared(
            Connection::Admin,
            Mode::Execute,
            TERMINATE,
            one(db),
        ),
        Action::DropDatabase { db } => batch(
            Connection::Admin,
            String::from_str("DROP DATABASE IF EXISTS ").concat(quote(db.as_str()).as_str()),
        ),
        Action::CreateDatabase { db } => batch(
            Connection::Admin,
            String::from_str("CREATE DATABASE ").concat(quote(db.as_str()).as_str()),
        ),
        Action::QueryDatabase { db } => prepared(
            Connection::Admin,
            Mode::Query,
            SELECT_DATABASE,
            one(db),
        ),
        Action::QueryRole { role } => prepared(
            Connection::Admin,
            Mode::Query,
            SELECT_ROLE,
            one(role),
        ),
        Action::CreateRole { role, password } => batch(
            Connection::Admin,
            String::from_str("CREATE ROLE ").concat(quote(role.as_str()).as_str()).concat(
                " LOGIN PASSWORD '",
            ).concat(password.as_str()).concat("'"),
        ),
        Action::GrantDatabase { db, role, reader, indent } => batch(
            Connection::Admin,
            all_grant(db.as_str(), role.as_str()).concat(next_line(*indent)).concat(
                "GRANT CONNECT ON DATABASE ",
            ).concat(quote(db.as_str()).as_str()).concat(" TO ").concat(
                quote(reader.as_str()).as_str(),
            ).concat(";"),
        ),
        Action::GrantAll { db, role } => batch(
            Connection::Admin,
            all_grant(db.as_str(), role.as_str()),
        ),
        Action::GrantMembership { role } => batch(
            Connection::Admin,
            membership_grant(role.as_str()),
        ),
        Action::GrantSchema { role, indent } => batch(
            Connection::Project,
            schema_grant(role.as_str(), *indent),
        ),
        Action::GrantReader { role, reader, membership } => {
            if *membership {
                let grant = reader_grant(role.as_str(), reader.as_str(), Indent::Wide);
                batch(
                    Connection::Project,
                    membership_grant(role.as_str()).concat(next_line(Indent::Wide)).concat(
                        grant.as_str(),
                    ),
                )
            } else {
                batch(
                    Connection::Project,
                    reader_grant(role.as_str(), reader.as_str(), Indent::Narrow),
                )
            }
        },
        Action::SetSearchPath => batch(Connection::Project, SET_SEARCH_PATH.to_string()),
        _ => None,
    }
}

} // verus!
