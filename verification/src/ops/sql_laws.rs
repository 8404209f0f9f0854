//! What the statements of the actions say, word for word.

use vstd::prelude::*;

use super::sql::{Connection, Mode, StatementModel, Value};
use super::world::World;
use super::{Action, AuditEntry, Indent};
use crate::ops::sql;

verus! {

/// What a database makes of a script that opens or ends a transaction.
pub open spec fn transacted(script: Seq<char>, w: World) -> World {
    if script == "BEGIN"@ {
        World { saved: Some(w.data), ..w }
    } else if script == "COMMIT"@ {
        World { saved: None, ..w }
    } else if script == "ROLLBACK"@ && w.saved is Some {
        World { data: w.saved->0, saved: None, ..w }
    } else {
        w
    }
}

/// A transaction is opened, made permanent and undone on the project's
/// connection by the statement of that name, so that a world changes as the
/// database does.
pub proof fn transactions_are_what_they_say(w: World)
    ensures
        sql::statement_of(Action::Begin) == Some(
            StatementModel {
                connection: Connection::Project,
                mode: Mode::Batch,
                sql: "BEGIN"@,
                values: Seq::empty(),
            },
        ),
        sql::statement_of(Action::Commit) == Some(
            StatementModel {
                connection: Connection::Project,
                mode: Mode::Batch,
                sql: "COMMIT"@,
                values: Seq::empty(),
            },
        ),
        sql::statement_of(Action::Rollback) == Some(
            StatementModel {
                connection: Connection::Project,
                mode: Mode::Batch,
                sql: "ROLLBACK"@,
                values: Seq::empty(),
            },
        ),
        forall|action: Action<Seq<char>>|
            action is Begin || action is Commit || action is Rollback ==> transacted(
                (#[trigger] sql::statement_of(action))->0.sql,
                w,
            ) == w.perform(action).1,
{
    reveal_strlit("BEGIN");
    reveal_strlit("COMMIT");
    reveal_strlit("ROLLBACK");
    assert("BEGIN"@.len() == 5 && "COMMIT"@.len() == 6 && "ROLLBACK"@.len() == 8);
}

/// The tracking table is created, read and written as its columns say: a
/// migration that was run is inserted with its name, checksum and duration, one
/// that was not with the mark and the comment, and a name is looked up and deleted
/// by itself.
pub proof fn tracking_statements(filename: Seq<char>, checksum: Seq<char>, comment: Seq<char>, duration_ms: i32)
    ensures
        sql::statement_of(Action::InitTracking) == Some(
            StatementModel {
                connection: Connection::Project,
                mode: Mode::Batch,
                sql: "
CREATE TABLE IF NOT EXISTS schema_migrations (
  id SERIAL PRIMARY KEY,
  filename TEXT NOT NULL UNIQUE,
  checksum TEXT NOT NULL,
  noop BOOLEAN NOT NULL DEFAULT FALSE,
  comment TEXT,
  applied_at TIMESTAMPTZ DEFAULT NOW(),
  duration_ms INTEGER
);
"@,
                values: Seq::empty(),
            },
        ),
        sql::statement_of(Action::QueryApplied) == Some(
            StatementModel {
                connection: Connection::Project,
                mode: Mode::Query,
                sql: "SELECT filename, checksum FROM schema_migrations"@,
                values: Seq::empty(),
            },
        ),
        sql::statement_of(Action::QueryAppliedNames) == Some(
            StatementModel {
                connection: Connection::Project,
                mode: Mode::Query,
                sql: "SELECT filename FROM schema_migrations ORDER BY filename DESC"@,
                values: Seq::empty(),
            },
        ),
        sql::statement_of(Action::QueryRecorded { filename }) == Some(
            StatementModel {
                connection: Connection::Project,
                mode: Mode::Query,
                sql: "SELECT 1 FROM schema_migrations WHERE filename = $1"@,
                values: seq![Value::Text(Some(filename))],
            },
        ),
        sql::statement_of(Action::Record { filename, checksum, duration_ms }) == Some(
            StatementModel {
                connection: Connection::Project,
                mode: Mode::Execute,
                sql: "INSERT INTO schema_migrations (filename, checksum, duration_ms) VALUES ($1, $2, $3)"@,
                values: seq![
                    Value::Text(Some(filename)),
                    Value::Text(Some(checksum)),
                    Value::Int(Some(duration_ms)),
                ],
            },
        ),
        sql::statement_of(Action::RecordNoop { filename, checksum, comment }) == Some(
            StatementModel {
                connection: Connection::Project,
                mode: Mode::Execute,
                sql: "INSERT INTO schema_migrations (filename, checksum, noop, comment, duration_ms) VALUES ($1, $2, TRUE, $3, 0)"@,
                values: seq![
                    Value::Text(Some(filename)),
                    Value::Text(Some(checksum)),
                    Value::Text(Some(comment)),
                ],
            },
        ),
        sql::statement_of(Action::Unrecord { filename }) == Some(
            StatementModel {
                connection: Connection::Project,
                mode: Mode::Execute,
                sql: "DELETE FROM schema_migrations WHERE filename = $1"@,
                values: seq![Value::Text(Some(filename))],
            },
        ),
{
}

/// A script is run on the project's database as it is.
pub proof fn scripts_are_run_as_they_are(script: Seq<char>)
    ensures
        sql::statement_of(Action::RunScript { sql: script }) == Some(
            StatementModel {
                connection: Connection::Project,
                mode: Mode::Batch,
                sql: script,
                values: Seq::empty(),
            },
        ),
        sql::statement_of(Action::SetSearchPath) == Some(
            StatementModel {
                connection: Connection::Project,
                mode: Mode::Batch,
                sql: "SET search_path TO public"@,
                values: Seq::empty(),
            },
        ),
{
}

/// What the service writes down goes to its own database, each value into the
/// column of its name.
pub proof fn service_statements(entry: AuditEntry<Seq<char>>, project: Seq<char>, filename: Seq<char>, checksum: Seq<char>)
    ensures
        sql::statement_of(Action::Audit { entry }) == Some(
            StatementModel {
                connection: Connection::Ops,
                mode: Mode::Execute,
                sql: "INSERT INTO migration_audit (project, operation, filename, checksum, status, comment, error_message, duration_ms)
             VALUES ($1, $2, $3, $4, $5, $6, $7, $8)"@,
                values: seq![
                    Value::Text(Some(entry.project)),
                    Value::Text(Some(entry.operation)),
                    Value::Text(entry.filename),
                    Value::Text(entry.checksum),
                    Value::Text(Some(entry.status)),
                    Value::Text(entry.comment),
                    Value::Text(entry.error_message),
                    Value::Int(entry.duration_ms),
                ],
            },
        ),
        sql::statement_of(Action::LogSeed { project, filename, checksum }) == Some(
            StatementModel {
                connection: Connection::Ops,
                mode: Mode::Execute,
                sql: "INSERT INTO seed_runs (project, filename, checksum) VALUES ($1, $2, $3)"@,
                values: seq![
                    Value::Text(Some(project)),
                    Value::Text(Some(filename)),
                    Value::Text(Some(checksum)),
                ],
            },
        ),
        sql::statement_of(Action::InitOps) == Some(
            StatementModel {
                connection: Connection::Ops,
                mode: Mode::Batch,
                sql: "
CREATE TABLE IF NOT EXISTS migration_audit (
  id SERIAL PRIMARY KEY,
  project TEXT NOT NULL,
  operation TEXT NOT NULL,
  filename TEXT,
  checksum TEXT,
  status TEXT NOT NULL,
  comment TEXT,
  error_message TEXT,
  duration_ms INTEGER,
  created_at TIMESTAMPTZ DEFAULT NOW()
);
CREATE INDEX IF NOT EXISTS idx_audit_project ON migration_audit (project, created_at DESC);

CREATE TABLE IF NOT EXISTS seed_runs (
  id SERIAL PRIMARY KEY,
  project TEXT NOT NULL,
  filename TEXT NOT NULL,
  checksum TEXT NOT NULL,
  created_at TIMESTAMPTZ DEFAULT NOW()
);
CREATE INDEX IF NOT EXISTS idx_seed_project ON seed_runs (project, created_at DESC);
"@,
                values: Seq::empty(),
            },
        ),
{
}

/// The lock of a number is taken and given back under that number.
pub proof fn lock_statements(id: i64)
    ensures
        sql::statement_of(Action::AcquireLock { id }) == Some(
            StatementModel {
                connection: Connection::Ops,
                mode: Mode::Execute,
                sql: "SELECT pg_advisory_lock($1)"@,
                values: seq![Value::Big(id)],
            },
        ),
        sql::statement_of(Action::ReleaseLock { id }) == Some(
            StatementModel {
                connection: Connection::Ops,
                mode: Mode::Execute,
                sql: "SELECT pg_advisory_unlock($1)"@,
                values: seq![Value::Big(id)],
            },
        ),
{
}

/// Databases and roles are looked for, created and dropped by their own names.
pub proof fn server_statements(db: Seq<char>, role: Seq<char>, password: Seq<char>)
    ensures
        sql::statement_of(Action::TerminateBackends { db }) == Some(
            StatementModel {
                connection: Connection::Admin,
                mode: Mode::Execute,
                sql: "SELECT pg_terminate_backend(pid) FROM pg_stat_activity WHERE datname = $1 AND pid <> pg_backend_pid()"@,
                values: seq![Value::Text(Some(db))],
            },
        ),
        sql::statement_of(Action::DropDatabase { db }) == Some(
            StatementModel {
                connection: Connection::Admin,
                mode: Mode::Batch,
                sql: "DROP DATABASE IF EXISTS "@ + ("\""@ + db + "\""@),
                values: Seq::empty(),
            },
        ),
        sql::statement_of(Action::CreateDatabase { db }) == Some(
            StatementModel {
                connection: Connection::Admin,
                mode: Mode::Batch,
                sql: "CREATE DATABASE "@ + ("\""@ + db + "\""@),
                values: Seq::empty(),
            },
        ),
        sql::statement_of(Action::QueryDatabase { db }) == Some(
            StatementModel {
                connection: Connection::Admin,
                mode: Mode::Query,
                sql: "SELECT 1 FROM pg_database WHERE datname = $1"@,
                values: seq![Value::Text(Some(db))],
            },
        ),
        sql::statement_of(Action::QueryRole { role }) == Some(
            StatementModel {
                connection: Connection::Admin,
                mode: Mode::Query,
                sql: "SELECT 1 FROM pg_roles WHERE rolname = $1"@,
                values: seq![Value::Text(Some(role))],
            },
        ),
        sql::statement_of(Action::CreateRole { role, password }) == Some(
            StatementModel {
                connection: Connection::Admin,
                mode: Mode::Batch,
                sql: "CREATE ROLE "@ + ("\""@ + role + "\""@) + " LOGIN PASSWORD '"@ + password + "'"@,
                values: Seq::empty(),
            },
        ),
{
}

/// The application's role may use everything in its database, and its reader may
/// connect to it and read what is there and what comes.
pub proof fn grant_statements(db: Seq<char>, role: Seq<char>, reader: Seq<char>)
    ensures
        sql::statement_of(Action::GrantDatabase { db, role, reader, indent: Indent::Narrow }) == Some(
            StatementModel {
                connection: Connection::Admin,
                mode: Mode::Batch,
                sql: "GRANT ALL PRIVILEGES ON DATABASE "@ + ("\""@ + db
                    + "\""@)
                    + " TO "@ + ("\""@ + role
                    + "\""@)
                    + ";\n         "@
                    + "GRANT CONNECT ON DATABASE "@ + ("\""@ + db
                    + "\""@)
                    + " TO "@ + ("\""@ + reader
                    + "\""@)
                    + ";"@,
                values: Seq::empty(),
            },
        ),
        sql::statement_of(Action::GrantSchema { role, indent: Indent::Narrow }) == Some(
            StatementModel {
                connection: Connection::Project,
                mode: Mode::Batch,
                sql: "GRANT ALL ON SCHEMA public TO "@ + ("\""@ + role
                    + "\""@)
                    + ";\n         "@
                    + "ALTER DEFAULT PRIVILEGES IN SCHEMA public GRANT ALL ON TABLES TO "@ + ("\""@ + role
                    + "\""@)
                    + ";\n         "@
                    + "ALTER DEFAULT PRIVILEGES IN SCHEMA public GRANT ALL ON SEQUENCES TO "@ + ("\""@ + role
                    + "\""@)
                    + ";\n         "@
                    + "GRANT ALL ON ALL TABLES IN SCHEMA public TO "@ + ("\""@ + role
                    + "\""@)
                    + ";\n         "@
                    + "GRANT ALL ON ALL SEQUENCES IN SCHEMA public TO "@ + ("\""@ + role
                    + "\""@)
                    + ";"@,
                values: Seq::empty(),
            },
        ),
        sql::statement_of(Action::GrantDatabase { db, role, reader, indent: Indent::Wide }) == Some(
            StatementModel {
                connection: Connection::Admin,
                mode: Mode::Batch,
                sql: "GRANT ALL PRIVILEGES ON DATABASE "@ + ("\""@ + db
                    + "\""@)
                    + " TO "@ + ("\""@ + role
                    + "\""@)
                    + ";\n             "@
                    + "GRANT CONNECT ON DATABASE "@ + ("\""@ + db
                    + "\""@)
                    + " TO "@ + ("\""@ + reader
                    + "\""@)
                    + ";"@,
                values: Seq::empty(),
            },
        ),
        sql::statement_of(Action::GrantSchema { role, indent: Indent::Wide }) == Some(
            StatementModel {
                connection: Connection::Project,
                mode: Mode::Batch,
                sql: "GRANT ALL ON SCHEMA public TO "@ + ("\""@ + role
                    + "\""@)
                    + ";\n             "@
                    + "ALTER DEFAULT PRIVILEGES IN SCHEMA public GRANT ALL ON TABLES TO "@ + ("\""@ + role
                    + "\""@)
                    + ";\n             "@
                    + "ALTER DEFAULT PRIVILEGES IN SCHEMA public GRANT ALL ON SEQUENCES TO "@ + ("\""@ + role
                    + "\""@)
                    + ";\n             "@
                    + "GRANT ALL ON ALL TABLES IN SCHEMA public TO "@ + ("\""@ + role
                    + "\""@)
                    + ";\n             "@
                    + "GRANT ALL ON ALL SEQUENCES IN SCHEMA public TO "@ + ("\""@ + role
                    + "\""@)
                    + ";"@,
                values: Seq::empty(),
            },
        ),
        sql::statement_of(Action::GrantAll { db, role }) == Some(
            StatementModel {
                connection: Connection::Admin,
                mode: Mode::Batch,
                sql: "GRANT ALL PRIVILEGES ON DATABASE "@ + ("\""@ + db + "\""@) + " TO "@ + ("\""@ + role + "\""@),
                values: Seq::empty(),
            },
        ),
        sql::statement_of(Action::GrantMembership { role }) == Some(
            StatementModel {
                connection: Connection::Admin,
                mode: Mode::Batch,
                sql: "GRANT "@ + ("\""@ + role + "\""@) + " TO CURRENT_USER"@,
                values: Seq::empty(),
            },
        ),
        sql::statement_of(Action::GrantReader { role, reader, membership: false }) == Some(
            StatementModel {
                connection: Connection::Project,
                mode: Mode::Batch,
                sql: "GRANT USAGE ON SCHEMA public TO "@ + ("\""@ + reader
                    + "\""@)
                    + ";\n         "@
                    + "GRANT SELECT ON ALL TABLES IN SCHEMA public TO "@ + ("\""@ + reader
                    + "\""@)
                    + ";\n         "@
                    + "GRANT SELECT ON ALL SEQUENCES IN SCHEMA public TO "@ + ("\""@ + reader
                    + "\""@)
                    + ";\n         "@
                    + "ALTER DEFAULT PRIVILEGES IN SCHEMA public GRANT SELECT ON TABLES TO "@ + ("\""@ + reader
                    + "\""@)
                    + ";\n         "@
                    + "ALTER DEFAULT PRIVILEGES IN SCHEMA public GRANT SELECT ON SEQUENCES TO "@ + ("\""@ + reader
                    + "\""@)
                    + ";\n         "@
                    + "ALTER DEFAULT PRIVILEGES FOR ROLE "@ + ("\""@ + role
                    + "\""@)
                    + " IN SCHEMA public GRANT SELECT ON TABLES TO "@ + ("\""@ + reader
                    + "\""@)
                    + ";\n         "@
                    + "ALTER DEFAULT PRIVILEGES FOR ROLE "@ + ("\""@ + role
                    + "\""@)
                    + " IN SCHEMA public GRANT SELECT ON SEQUENCES TO "@ + ("\""@ + reader
                    + "\""@)
                    + ";"@,
                values: Seq::empty(),
            },
        ),
        sql::statement_of(Action::GrantReader { role, reader, membership: true }) == Some(
            StatementModel {
                connection: Connection::Project,
                mode: Mode::Batch,
                sql: "GRANT "@ + ("\""@ + role
                    + "\""@)
                    + " TO CURRENT_USER"@
                    + ";\n             "@ + ("GRANT USAGE ON SCHEMA public TO "@ + ("\""@ + reader
                    + "\""@)
                    + ";\n             "@
                    + "GRANT SELECT ON ALL TABLES IN SCHEMA public TO "@ + ("\""@ + reader
                    + "\""@)
                    + ";\n             "@
                    + "GRANT SELECT ON ALL SEQUENCES IN SCHEMA public TO "@ + ("\""@ + reader
                    + "\""@)
                    + ";\n             "@
                    + "ALTER DEFAULT PRIVILEGES IN SCHEMA public GRANT SELECT ON TABLES TO "@ + ("\""@ + reader
                    + "\""@)
                    + ";\n             "@
                    + "ALTER DEFAULT PRIVILEGES IN SCHEMA public GRANT SELECT ON SEQUENCES TO "@ + ("\""@ + reader
                    + "\""@)
                    + ";\n             "@
                    + "ALTER DEFAULT PRIVILEGES FOR ROLE "@ + ("\""@ + role
                    + "\""@)
                    + " IN SCHEMA public GRANT SELECT ON TABLES TO "@ + ("\""@ + reader
                    + "\""@)
                    + ";\n             "@
                    + "ALTER DEFAULT PRIVILEGES FOR ROLE "@ + ("\""@ + role
                    + "\""@)
                    + " IN SCHEMA public GRANT SELECT ON SEQUENCES TO "@ + ("\""@ + reader
                    + "\""@)
                    + ";"@),
                values: Seq::empty(),
            },
        ),
{
}

} // verus!
