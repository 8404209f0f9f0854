//! The operations on a project's database, run against files in memory and a
//! database that knows a handful of statements.

use std::collections::BTreeMap;

use platform_services::checksum::checksum;
use platform_services::ops;
use platform_services::ops::drop_db::DropDb;
use platform_services::ops::migrate::Migrate;
use platform_services::ops::noop::{FileSource, Noop};
use platform_services::ops::provision::{Provision, ProvisionStep};
use platform_services::ops::restore::Restore;
use platform_services::ops::rollback::Rollback;
use platform_services::ops::seed::Seed;
use platform_services::ops::session::{Request, Session};
use platform_services::ops::sql::statement;
use platform_services::ops::{Action, AuditEntry, Event, Response, Step};
use platform_services::storage::{FileStore, MemoryFileStore, MigrationFile};

#[derive(Clone)]
struct Row {
    filename: String,
    checksum: String,
    noop: bool,
    comment: Option<String>,
    duration_ms: i32,
}

/// The columns of a table and the rows that were inserted into it.
#[derive(Clone, Default)]
struct Table {
    columns: Vec<String>,
    rows: Vec<Vec<String>>,
}

#[derive(Clone, Default)]
struct Data {
    tables: BTreeMap<String, Table>,
    tracking: Option<Vec<Row>>,
}

#[derive(Default)]
struct Db {
    data: Data,
    saved: Option<Data>,
    audits: Vec<AuditEntry>,
    seeds: Vec<(String, String, String)>,
    databases: Vec<String>,
    roles: Vec<(String, String)>,
    params: BTreeMap<String, String>,
    log: Vec<String>,
    grants: Vec<String>,
    refuse: Option<String>,
    locks: i64,
    clock: u128,
}

fn words(text: &str) -> Vec<String> {
    text.split(|c: char| c.is_whitespace() || c == '(' || c == ')' || c == ',')
        .filter(|w| !w.is_empty())
        .map(|w| w.to_string())
        .collect()
}

impl Db {
    fn statement(&mut self, sql: &str) -> Result<(), String> {
        let w = words(sql);
        let head: Vec<&str> = w.iter().take(2).map(|s| s.as_str()).collect();
        match head.as_slice() {
            ["CREATE", "TABLE"] => {
                if self.data.tables.contains_key(&w[2]) {
                    return Err(format!("relation \"{}\" already exists", w[2]));
                }
                let open = sql.find('(').unwrap();
                let close = sql.rfind(')').unwrap();
                let columns = sql[open + 1..close]
                    .split(',')
                    .map(|c| words(c)[0].clone())
                    .collect();
                self.data.tables.insert(w[2].clone(), Table { columns, rows: vec![] });
                Ok(())
            }
            ["DROP", "TABLE"] => match self.data.tables.remove(&w[2]) {
                Some(_) => Ok(()),
                None => Err(format!("table \"{}\" does not exist", w[2])),
            },
            ["ALTER", "TABLE"] => {
                let table = match self.data.tables.get_mut(&w[2]) {
                    Some(table) => table,
                    None => return Err(format!("relation \"{}\" does not exist", w[2])),
                };
                if w[3] == "ADD" {
                    table.columns.push(w[5].clone());
                } else {
                    table.columns.retain(|c| c != &w[5]);
                }
                Ok(())
            }
            ["INSERT", "INTO"] if w[2] == "schema_migrations" => {
                let values = words(&sql[sql.find("VALUES").unwrap() + 6..]);
                self.data.tracking.get_or_insert_with(Vec::new).push(Row {
                    filename: values[0].trim_matches('\'').to_string(),
                    checksum: values[1].trim_matches('\'').to_string(),
                    noop: false,
                    comment: None,
                    duration_ms: 1,
                });
                Ok(())
            }
            ["INSERT", "INTO"] => {
                let table = match self.data.tables.get_mut(&w[2]) {
                    Some(table) => table,
                    None => return Err(format!("relation \"{}\" does not exist", w[2])),
                };
                for value in words(&sql[sql.find("VALUES").unwrap() + 6..]) {
                    table.rows.push(vec![value.trim_matches('\'').to_string()]);
                }
                Ok(())
            }
            _ => Err(format!("syntax error at or near \"{}\"", w[0])),
        }
    }

    fn script(&mut self, sql: &str) -> Result<(), String> {
        let before = self.data.clone();
        for part in sql.split(';') {
            if part.trim().is_empty() {
                continue;
            }
            if let Err(e) = self.statement(part.trim()) {
                self.data = before;
                return Err(e);
            }
        }
        Ok(())
    }

    fn rows(&mut self) -> &mut Vec<Row> {
        self.data.tracking.as_mut().expect("schema_migrations exists")
    }

    fn record(&mut self, row: Row) -> Event {
        if self.rows().iter().any(|r| r.filename == row.filename) {
            return Event::Failed("duplicate key".to_string());
        }
        self.rows().push(row);
        Event::Done
    }

    fn columns(&self, table: &str) -> Vec<String> {
        match self.data.tables.get(table) {
            Some(t) => t.columns.clone(),
            None => vec![],
        }
    }

    fn perform(&mut self, files: &MemoryFileStore, action: Action) -> Event {
        self.clock += 3_500_000;
        let name = match &action {
            Action::ListFiles { prefix } => format!("list {prefix}"),
            Action::ReadFile { key } => format!("read {key}"),
            Action::InitTracking => "track".to_string(),
            Action::QueryApplied => "applied".to_string(),
            Action::QueryAppliedNames => "names".to_string(),
            Action::QueryRecorded { filename } => format!("recorded {filename}"),
            Action::Begin => "begin".to_string(),
            Action::Commit => "commit".to_string(),
            Action::Rollback => "rollback".to_string(),
            Action::RunScript { sql } => format!("run {sql}"),
            Action::Record { filename, .. } => format!("record {filename}"),
            Action::RecordNoop { filename, .. } => format!("noop {filename}"),
            Action::Unrecord { filename } => format!("unrecord {filename}"),
            Action::Audit { entry } => format!("audit {}", entry.status),
            Action::LogSeed { filename, .. } => format!("seeded {filename}"),
            Action::ConnectAdmin => "admin".to_string(),
            Action::ConnectProject { db } => format!("open {db}"),
            Action::ConnectApp { project, db } => format!("app {project} {db}"),
            Action::ConnectOps => "ops".to_string(),
            Action::InitOps => "init".to_string(),
            Action::AcquireLock { id } => format!("lock {id}"),
            Action::ReleaseLock { id } => format!("unlock {id}"),
            Action::TerminateBackends { db } => format!("terminate {db}"),
            Action::DropDatabase { db } => format!("drop {db}"),
            Action::CreateDatabase { db } => format!("create {db}"),
            Action::QueryDatabase { db } => format!("database {db}"),
            Action::QueryRole { role } => format!("role {role}"),
            Action::CreateRole { role, .. } => format!("create-role {role}"),
            Action::GrantDatabase { role, reader, .. } => format!("grant {role} {reader}"),
            Action::GrantAll { role, .. } => format!("grant-all {role}"),
            Action::GrantMembership { role } => format!("member {role}"),
            Action::GrantSchema { role, .. } => format!("schema {role}"),
            Action::GrantReader { reader, membership, .. } => format!("reader {reader} {membership}"),
            Action::SetSearchPath => "path".to_string(),
            Action::PutParam { name, value } => format!("param {name}={value}"),
            Action::PutSecret { name, .. } => format!("secret {name}"),
        };
        if self.refuse.as_deref() == Some(name.as_str()) {
            self.log.push(name);
            return Event::Failed("refused".to_string());
        }
        self.log.push(name);
        if let Some(statement) = statement(&action) {
            if statement.sql.starts_with("GRANT") {
                self.grants.push(statement.sql);
            }
        }
        match action {
            Action::ListFiles { prefix } => Event::Files(files.list_files(&prefix).unwrap()),
            Action::ReadFile { key } => match files.read_file(&key) {
                Ok(content) => Event::Content(content),
                Err(e) => Event::Failed(e),
            },
            Action::InitTracking => {
                if self.data.tracking.is_none() {
                    self.data.tracking = Some(vec![]);
                }
                Event::Done
            }
            Action::QueryApplied => Event::Applied(
                self.rows().iter().map(|r| (r.filename.clone(), r.checksum.clone())).collect(),
            ),
            Action::QueryAppliedNames => {
                let mut names: Vec<String> =
                    self.rows().iter().map(|r| r.filename.clone()).collect();
                names.sort();
                names.reverse();
                Event::Names(names)
            }
            Action::QueryRecorded { filename } => {
                Event::Found(self.rows().iter().any(|r| r.filename == filename))
            }
            Action::Begin => {
                self.saved = Some(self.data.clone());
                Event::Done
            }
            Action::Commit => {
                self.saved = None;
                Event::Done
            }
            Action::Rollback => {
                if let Some(data) = self.saved.take() {
                    self.data = data;
                }
                Event::Done
            }
            Action::RunScript { sql } => match self.script(&sql) {
                Ok(()) => Event::Done,
                Err(e) => Event::Failed(e),
            },
            Action::Record { filename, checksum, duration_ms } => {
                self.record(Row { filename, checksum, noop: false, comment: None, duration_ms })
            }
            Action::RecordNoop { filename, checksum, comment } => self.record(Row {
                filename,
                checksum,
                noop: true,
                comment: Some(comment),
                duration_ms: 0,
            }),
            Action::Unrecord { filename } => {
                self.rows().retain(|r| r.filename != filename);
                Event::Done
            }
            Action::Audit { entry } => {
                self.audits.push(entry);
                Event::Done
            }
            Action::LogSeed { project, filename, checksum } => {
                self.seeds.push((project, filename, checksum));
                Event::Done
            }
            Action::AcquireLock { .. } => {
                self.locks += 1;
                Event::Done
            }
            Action::ReleaseLock { .. } => {
                self.locks -= 1;
                Event::Done
            }
            Action::DropDatabase { db } => {
                self.databases.retain(|d| d != &db);
                self.data = Data::default();
                Event::Done
            }
            Action::CreateDatabase { db } => {
                self.databases.push(db);
                Event::Done
            }
            Action::QueryDatabase { db } => Event::Found(self.databases.contains(&db)),
            Action::QueryRole { role } => Event::Found(self.roles.iter().any(|r| r.0 == role)),
            Action::CreateRole { role, password } => {
                self.roles.push((role, password));
                Event::Done
            }
            Action::PutParam { name, value } => {
                self.params.insert(name, value);
                Event::Done
            }
            Action::PutSecret { name, value } => {
                self.params.insert(name, value);
                Event::Done
            }
            _ => Event::Done,
        }
    }
}

trait Op: Sized {
    fn go_on(self, event: Event, now: u128) -> (Self, Step);
}

impl Op for Migrate {
    fn go_on(self, event: Event, now: u128) -> (Self, Step) {
        self.next(event, now)
    }
}

impl Op for Rollback {
    fn go_on(self, event: Event, now: u128) -> (Self, Step) {
        self.next(event, now)
    }
}

impl Op for Seed {
    fn go_on(self, event: Event, now: u128) -> (Self, Step) {
        self.next(event, now)
    }
}

impl Op for Noop {
    fn go_on(self, event: Event, _now: u128) -> (Self, Step) {
        self.next(event)
    }
}

impl Op for DropDb {
    fn go_on(self, event: Event, _now: u128) -> (Self, Step) {
        self.next(event)
    }
}

impl Op for Restore {
    fn go_on(self, event: Event, now: u128) -> (Self, Step) {
        self.next(event, now)
    }
}

impl Op for Session {
    fn go_on(self, event: Event, now: u128) -> (Self, Step) {
        self.next(event, now)
    }
}

fn run<O: Op>(db: &mut Db, files: &MemoryFileStore, start: (O, Step)) -> Result<Response, String> {
    let (mut op, mut step) = start;
    loop {
        match step {
            Step::Do(action) => {
                let event = db.perform(files, action);
                let (next, more) = op.go_on(event, db.clock);
                op = next;
                step = more;
            }
            Step::Finish(response) => return Ok(response),
            Step::Fail(message) => return Err(message),
        }
    }
}

fn migrate(db: &mut Db, files: &MemoryFileStore) -> Result<Response, String> {
    run(db, files, ops::migrate("testproj"))
}

fn noop(db: &mut Db, files: &MemoryFileStore, target: &str, comment: &str) -> Result<Response, String> {
    run(db, files, ops::noop("testproj", target, comment, FileSource::Store))
}

fn rollback(db: &mut Db, files: &MemoryFileStore, target: Option<&str>) -> Result<Response, String> {
    run(db, files, ops::rollback("testproj", target.map(|t| t.to_string())))
}

fn seed(db: &mut Db, files: &MemoryFileStore) -> Result<Response, String> {
    run(db, files, ops::seed("testproj"))
}

fn add(store: &mut MemoryFileStore, project: &str, dir: &str, files: Vec<(&str, &str)>) {
    for (name, content) in files {
        store.add_file(&format!("migrations/{project}/{dir}{name}"), content);
    }
}

fn make_store(project: &str, files: Vec<(&str, &str)>) -> MemoryFileStore {
    let mut store = MemoryFileStore::new();
    add(&mut store, project, "", files);
    store
}

fn make_store_with_rollbacks(
    project: &str,
    migrations: Vec<(&str, &str)>,
    rollbacks: Vec<(&str, &str)>,
) -> MemoryFileStore {
    let mut store = make_store(project, migrations);
    add(&mut store, project, "rollback/", rollbacks);
    store
}

fn make_store_with_seeds(
    project: &str,
    migrations: Vec<(&str, &str)>,
    seeds: Vec<(&str, &str)>,
) -> MemoryFileStore {
    let mut store = make_store(project, migrations);
    add(&mut store, project, "seed/", seeds);
    store
}

#[test]
fn test_migrate_applies_in_order() {
    let mut db = Db::default();
    let store = make_store(
        "testproj",
        vec![
            ("001_create.sql", "CREATE TABLE items (id SERIAL PRIMARY KEY, name TEXT);"),
            ("002_add_col.sql", "ALTER TABLE items ADD COLUMN active BOOLEAN DEFAULT TRUE;"),
        ],
    );
    let result = migrate(&mut db, &store).unwrap();
    assert_eq!(result.applied, Some(2));
    assert_eq!(db.columns("items"), vec!["id", "name", "active"]);
}

#[test]
fn test_migrate_is_idempotent() {
    let mut db = Db::default();
    let store = make_store(
        "testproj",
        vec![("001_create.sql", "CREATE TABLE things (id SERIAL PRIMARY KEY);")],
    );
    let r1 = migrate(&mut db, &store).unwrap();
    assert_eq!(r1.applied, Some(1));
    let r2 = migrate(&mut db, &store).unwrap();
    assert_eq!(r2.applied, Some(0));
}

#[test]
fn test_migrate_detects_checksum_mismatch() {
    let mut db = Db::default();
    let store1 = make_store(
        "testproj",
        vec![("001_create.sql", "CREATE TABLE widgets (id SERIAL PRIMARY KEY);")],
    );
    migrate(&mut db, &store1).unwrap();
    let store2 = make_store(
        "testproj",
        vec![("001_create.sql", "CREATE TABLE widgets (id SERIAL PRIMARY KEY, name TEXT);")],
    );
    let result = migrate(&mut db, &store2);
    assert!(result.is_err());
    assert!(result.err().unwrap().contains("Checksum mismatch"));
}

#[test]
fn test_migrate_tracks_in_schema_migrations() {
    let mut db = Db::default();
    let store = make_store(
        "testproj",
        vec![("001_create.sql", "CREATE TABLE tracked (id SERIAL PRIMARY KEY);")],
    );
    migrate(&mut db, &store).unwrap();
    let rows = db.rows();
    assert_eq!(rows.len(), 1);
    assert_eq!(rows[0].filename, "001_create.sql");
    assert!(!rows[0].noop);
}

#[test]
fn test_migrate_rolls_back_on_sql_error() {
    let mut db = Db::default();
    let store = make_store("testproj", vec![("001_bad.sql", "THIS IS NOT VALID SQL;")]);
    let result = migrate(&mut db, &store);
    assert!(result.is_err());
    assert!(db.rows().is_empty());
}

#[test]
fn test_migrate_no_files() {
    let mut db = Db::default();
    let store = MemoryFileStore::new();
    let result = migrate(&mut db, &store).unwrap();
    assert_eq!(result.applied, Some(0));
}

#[test]
fn test_noop_records_without_executing() {
    let mut db = Db::default();
    let store = make_store(
        "testproj",
        vec![("001_create.sql", "CREATE TABLE noop_test (id SERIAL PRIMARY KEY);")],
    );
    let result = noop(&mut db, &store, "001_create.sql", "Baseline import").unwrap();
    assert_eq!(result.operation, "noop");
    assert!(!db.data.tables.contains_key("noop_test"));
    let recorded: Vec<Row> =
        db.rows().iter().filter(|r| r.filename == "001_create.sql").cloned().collect();
    assert_eq!(recorded.len(), 1);
    assert!(recorded[0].noop);
    assert_eq!(recorded[0].comment, Some("Baseline import".into()));
}

#[test]
fn test_noop_is_idempotent() {
    let mut db = Db::default();
    let store = make_store(
        "testproj",
        vec![("001_create.sql", "CREATE TABLE noop_idem (id SERIAL PRIMARY KEY);")],
    );
    noop(&mut db, &store, "001_create.sql", "First").unwrap();
    let r2 = noop(&mut db, &store, "001_create.sql", "Second").unwrap();
    assert_eq!(r2.status.as_deref(), Some("already_recorded"));
}

#[test]
fn test_noop_then_migrate_skips() {
    let mut db = Db::default();
    db.script("CREATE TABLE preexisting (id SERIAL PRIMARY KEY);").unwrap();
    let store = make_store(
        "testproj",
        vec![("001_create.sql", "CREATE TABLE preexisting (id SERIAL PRIMARY KEY);")],
    );
    noop(&mut db, &store, "001_create.sql", "Already exists").unwrap();
    let result = migrate(&mut db, &store).unwrap();
    assert_eq!(result.applied, Some(0));
}

#[test]
fn test_rollback_reverses_migrations() {
    let mut db = Db::default();
    let store = make_store_with_rollbacks(
        "testproj",
        vec![("001_create.sql", "CREATE TABLE rollback_test (id SERIAL PRIMARY KEY);")],
        vec![("001_create.sql", "DROP TABLE rollback_test;")],
    );
    migrate(&mut db, &store).unwrap();
    let result = rollback(&mut db, &store, None).unwrap();
    assert_eq!(result.rolled_back, Some(1));
    assert!(!db.data.tables.contains_key("rollback_test"));
    assert!(db.rows().is_empty());
}

#[test]
fn test_rollback_to_target() {
    let mut db = Db::default();
    let store = make_store_with_rollbacks(
        "testproj",
        vec![
            ("001_create.sql", "CREATE TABLE rb_target (id SERIAL PRIMARY KEY);"),
            ("002_add_col.sql", "ALTER TABLE rb_target ADD COLUMN name TEXT;"),
        ],
        vec![
            ("001_create.sql", "DROP TABLE rb_target;"),
            ("002_add_col.sql", "ALTER TABLE rb_target DROP COLUMN name;"),
        ],
    );
    migrate(&mut db, &store).unwrap();
    let result = rollback(&mut db, &store, Some("001_create.sql")).unwrap();
    assert_eq!(result.rolled_back, Some(1));
    assert_eq!(db.columns("rb_target"), vec!["id"]);
}

#[test]
fn test_rollback_nothing() {
    let mut db = Db::default();
    db.data.tracking = Some(vec![]);
    let store = MemoryFileStore::new();
    let result = rollback(&mut db, &store, None).unwrap();
    assert_eq!(result.rolled_back, Some(0));
}

#[test]
fn test_seed_runs_files() {
    let mut db = Db::default();
    db.script("CREATE TABLE seed_test (id SERIAL PRIMARY KEY, name TEXT);").unwrap();
    let store = make_store_with_seeds(
        "testproj",
        vec![],
        vec![("001_data.sql", "INSERT INTO seed_test (name) VALUES ('alice'), ('bob');")],
    );
    let result = seed(&mut db, &store).unwrap();
    assert_eq!(result.applied, Some(1));
    let mut names: Vec<String> =
        db.data.tables["seed_test"].rows.iter().map(|r| r[0].clone()).collect();
    names.sort();
    assert_eq!(names, vec!["alice", "bob"]);
}

#[test]
fn test_seed_no_files() {
    let mut db = Db::default();
    let store = MemoryFileStore::new();
    let result = seed(&mut db, &store).unwrap();
    assert_eq!(result.applied, Some(0));
}

#[test]
fn test_audit_records_operations() {
    let mut db = Db::default();
    let store = make_store(
        "testproj",
        vec![("001_create.sql", "CREATE TABLE audit_test (id SERIAL PRIMARY KEY);")],
    );
    migrate(&mut db, &store).unwrap();
    assert_eq!(db.audits.len(), 1);
    assert_eq!(db.audits[0].project, "testproj");
    assert_eq!(db.audits[0].operation, "migrate");
    assert_eq!(db.audits[0].filename, Some("001_create.sql".into()));
    assert_eq!(db.audits[0].status, "success");
}

#[test]
fn test_checksum_deterministic() {
    let c1 = ops::checksum("SELECT 1;");
    let c2 = ops::checksum("SELECT 1;");
    assert_eq!(c1, c2);
    assert_eq!(c1.len(), 16);
}

#[test]
fn test_checksum_differs() {
    let c1 = ops::checksum("SELECT 1;");
    let c2 = ops::checksum("SELECT 2;");
    assert_ne!(c1, c2);
}

#[test]
fn test_file_store_excludes_subdirectories() {
    let mut store = MemoryFileStore::new();
    store.add_file("migrations/proj/001_create.sql", "CREATE TABLE t1 (id INT);");
    store.add_file("migrations/proj/rollback/001_create.sql", "DROP TABLE t1;");
    store.add_file("migrations/proj/seed/001_data.sql", "INSERT INTO t1 VALUES (1);");
    let files = store.list_files("migrations/proj/").unwrap();
    assert_eq!(files.len(), 1);
    assert_eq!(files[0].filename, "001_create.sql");
}

// ---------------------------------------------------------------------------
// More of the operations
// ---------------------------------------------------------------------------

#[test]
fn a_failing_migration_keeps_those_before_it() {
    let mut db = Db::default();
    let store = make_store(
        "testproj",
        vec![
            ("001_a.sql", "CREATE TABLE a (id INT);"),
            ("002_b.sql", "CREATE TABLE b (id INT); NONSENSE;"),
            ("003_c.sql", "CREATE TABLE c (id INT);"),
        ],
    );
    let error = migrate(&mut db, &store).err().unwrap();
    assert_eq!(error, "syntax error at or near \"NONSENSE\"");
    let names: Vec<String> = db.rows().iter().map(|r| r.filename.clone()).collect();
    assert_eq!(names, vec!["001_a.sql"]);
    assert!(db.saved.is_none());
    assert!(db.data.tables.contains_key("a"));
    assert!(!db.data.tables.contains_key("b"));
    assert!(!db.data.tables.contains_key("c"));
    assert_eq!(db.audits.len(), 2);
    assert_eq!(db.audits[1].status, "error");
    assert_eq!(db.audits[1].error_message.as_deref(), Some(error.as_str()));
    assert_eq!(db.audits[1].duration_ms, None);
}

#[test]
fn a_migration_is_tracked_with_checksum_and_duration() {
    let mut db = Db::default();
    let store = make_store("testproj", vec![("001_a.sql", "CREATE TABLE a (id INT);")]);
    migrate(&mut db, &store).unwrap();
    let row = db.rows()[0].clone();
    assert_eq!(row.checksum, ops::checksum("CREATE TABLE a (id INT);"));
    // The clock moves on by three and a half milliseconds with each action, and
    // two of them pass while the script runs.
    assert_eq!(row.duration_ms, 7);
    assert_eq!(db.audits[0].duration_ms, Some(7));
}

#[test]
fn actions_of_a_migration_in_order() {
    let mut db = Db::default();
    let store = make_store("testproj", vec![("001_a.sql", "CREATE TABLE a (id INT);")]);
    migrate(&mut db, &store).unwrap();
    assert_eq!(
        db.log,
        vec![
            "track",
            "list migrations/testproj/",
            "applied",
            "read migrations/testproj/001_a.sql",
            "begin",
            "run CREATE TABLE a (id INT);",
            "record 001_a.sql",
            "commit",
            "audit success",
        ]
    );
}

#[test]
fn an_audit_that_fails_does_not_matter() {
    let mut db = Db::default();
    db.refuse = Some("audit success".to_string());
    let store = make_store("testproj", vec![("001_a.sql", "CREATE TABLE a (id INT);")]);
    assert_eq!(migrate(&mut db, &store).unwrap().applied, Some(1));
    assert!(db.audits.is_empty());
}

#[test]
fn noop_of_a_missing_file_is_refused() {
    let mut db = Db::default();
    let store = MemoryFileStore::new();
    assert_eq!(
        noop(&mut db, &store, "009_x.sql", "why").err().unwrap(),
        "Migration file not found: migrations/testproj/009_x.sql"
    );
    let s3 = run(
        &mut db,
        &store,
        ops::noop("testproj", "009_x.sql", "why", FileSource::S3),
    );
    assert_eq!(
        s3.err().unwrap(),
        "Migration file not found in S3: migrations/testproj/009_x.sql"
    );
}

#[test]
fn noop_writes_an_audit_line_with_the_comment() {
    let mut db = Db::default();
    let store = make_store("testproj", vec![("001_a.sql", "CREATE TABLE a (id INT);")]);
    let response = noop(&mut db, &store, "001_a.sql", "restored").unwrap();
    assert_eq!(response.file.as_deref(), Some("001_a.sql"));
    assert_eq!(response.comment.as_deref(), Some("restored"));
    assert_eq!(db.audits[0].comment.as_deref(), Some("restored"));
    assert_eq!(db.audits[0].duration_ms, Some(0));
}

#[test]
fn rollback_without_a_file_is_refused() {
    let mut db = Db::default();
    let store = make_store("testproj", vec![("001_a.sql", "CREATE TABLE a (id INT);")]);
    migrate(&mut db, &store).unwrap();
    assert_eq!(
        rollback(&mut db, &store, None).err().unwrap(),
        "No rollback file for 001_a.sql"
    );
    assert_eq!(db.rows().len(), 1);
}

#[test]
fn rollback_that_fails_undoes_its_transaction() {
    let mut db = Db::default();
    let store = make_store_with_rollbacks(
        "testproj",
        vec![("001_a.sql", "CREATE TABLE a (id INT);")],
        vec![("001_a.sql", "DROP TABLE a; DROP TABLE a;")],
    );
    migrate(&mut db, &store).unwrap();
    assert!(rollback(&mut db, &store, None).is_err());
    assert_eq!(db.rows().len(), 1);
    assert!(db.data.tables.contains_key("a"));
    assert_eq!(db.audits[1].operation, "rollback");
    assert_eq!(db.audits[1].status, "error");
}

#[test]
fn rollback_goes_from_the_last_migration_on() {
    let mut db = Db::default();
    let store = make_store_with_rollbacks(
        "testproj",
        vec![
            ("001_a.sql", "CREATE TABLE a (id INT);"),
            ("002_b.sql", "ALTER TABLE a ADD COLUMN b INT;"),
        ],
        vec![
            ("001_a.sql", "DROP TABLE a;"),
            ("002_b.sql", "ALTER TABLE a DROP COLUMN b;"),
        ],
    );
    migrate(&mut db, &store).unwrap();
    assert_eq!(rollback(&mut db, &store, None).unwrap().rolled_back, Some(2));
    let runs: Vec<String> =
        db.log.iter().filter(|l| l.starts_with("unrecord")).cloned().collect();
    assert_eq!(runs, vec!["unrecord 002_b.sql", "unrecord 001_a.sql"]);
}

#[test]
fn seed_stops_at_the_first_failure() {
    let mut db = Db::default();
    let store = make_store_with_seeds(
        "testproj",
        vec![],
        vec![
            ("001_a.sql", "CREATE TABLE a (id INT);"),
            ("002_b.sql", "NONSENSE;"),
            ("003_c.sql", "CREATE TABLE c (id INT);"),
        ],
    );
    assert!(seed(&mut db, &store).is_err());
    assert_eq!(db.seeds.len(), 1);
    assert_eq!(db.seeds[0].2, ops::checksum("CREATE TABLE a (id INT);"));
    assert!(!db.data.tables.contains_key("c"));
    assert_eq!(db.audits.len(), 2);
}

#[test]
fn seeds_run_again() {
    let mut db = Db::default();
    db.script("CREATE TABLE t (name TEXT);").unwrap();
    let store = make_store_with_seeds(
        "testproj",
        vec![],
        vec![("001_a.sql", "INSERT INTO t VALUES ('x');")],
    );
    seed(&mut db, &store).unwrap();
    seed(&mut db, &store).unwrap();
    assert_eq!(db.data.tables["t"].rows.len(), 2);
}

// ---------------------------------------------------------------------------
// Sessions
// ---------------------------------------------------------------------------

fn session(db: &mut Db, files: &MemoryFileStore, request: Request) -> Result<Response, String> {
    run(db, files, Session::start("shop", "shop_db", request))
}

#[test]
fn a_session_provides_locks_runs_and_unlocks() {
    let mut db = Db::default();
    let store = make_store("shop", vec![("001_a.sql", "CREATE TABLE a (id INT);")]);
    let response = session(&mut db, &store, Request::Migrate).unwrap();
    assert_eq!(response.applied, Some(1));
    assert_eq!(db.locks, 0);
    let id = ops::lock_id("shop");
    assert_eq!(
        db.log,
        vec![
            "admin".to_string(),
            "database shop_db".to_string(),
            "create shop_db".to_string(),
            "role shop_app".to_string(),
            "create-role shop_app".to_string(),
            "param /platform/db/shop/username=shop_app".to_string(),
            "secret /platform/db/shop/password".to_string(),
            "param /platform/db/shop/database=shop_db".to_string(),
            "role shop_reader".to_string(),
            "create-role shop_reader".to_string(),
            "param /platform/db/shop/reader/username=shop_reader".to_string(),
            "secret /platform/db/shop/reader/password".to_string(),
            "grant shop_app shop_reader".to_string(),
            "member shop_app".to_string(),
            "open shop_db".to_string(),
            "schema shop_app".to_string(),
            "reader shop_reader false".to_string(),
            "admin".to_string(),
            "database platform_ops".to_string(),
            "create platform_ops".to_string(),
            "ops".to_string(),
            "init".to_string(),
            "app shop shop_db".to_string(),
            format!("lock {id}"),
            "track".to_string(),
            "list migrations/shop/".to_string(),
            "applied".to_string(),
            "read migrations/shop/001_a.sql".to_string(),
            "begin".to_string(),
            "run CREATE TABLE a (id INT);".to_string(),
            "record 001_a.sql".to_string(),
            "commit".to_string(),
            "audit success".to_string(),
            format!("unlock {id}"),
        ]
    );
}

#[test]
fn the_published_password_is_the_one_of_the_role() {
    let mut db = Db::default();
    let store = MemoryFileStore::new();
    session(&mut db, &store, Request::Migrate).unwrap();
    assert_eq!(db.roles.len(), 2);
    assert_eq!(db.params["/platform/db/shop/password"], db.roles[0].1);
    assert_eq!(db.params["/platform/db/shop/reader/password"], db.roles[1].1);
    for (_, password) in &db.roles {
        assert_eq!(password.len(), 32);
        assert!(password.chars().all(|c| c.is_ascii_alphanumeric()));
    }
    assert_ne!(db.roles[0].1, db.roles[1].1);
}

#[test]
fn a_second_session_creates_nothing() {
    let mut db = Db::default();
    let store = MemoryFileStore::new();
    session(&mut db, &store, Request::Migrate).unwrap();
    db.log.clear();
    session(&mut db, &store, Request::Migrate).unwrap();
    assert!(!db.log.iter().any(|l| l.starts_with("create") || l.starts_with("secret")));
    assert_eq!(db.roles.len(), 2);
}

#[test]
fn the_lock_is_given_back_after_a_failure() {
    let mut db = Db::default();
    let store = make_store("shop", vec![("001_a.sql", "NONSENSE;")]);
    let error = session(&mut db, &store, Request::Migrate).err().unwrap();
    assert_eq!(error, "syntax error at or near \"NONSENSE\"");
    assert_eq!(db.locks, 0);
    assert_eq!(db.log.last().unwrap(), &format!("unlock {}", ops::lock_id("shop")));
}

#[test]
fn a_lock_that_cannot_be_given_back_does_not_matter() {
    let mut db = Db::default();
    db.refuse = Some(format!("unlock {}", ops::lock_id("shop")));
    let store = MemoryFileStore::new();
    assert_eq!(session(&mut db, &store, Request::Migrate).unwrap().applied, Some(0));
}

#[test]
fn without_the_lock_nothing_runs() {
    let mut db = Db::default();
    db.refuse = Some(format!("lock {}", ops::lock_id("shop")));
    let store = make_store("shop", vec![("001_a.sql", "CREATE TABLE a (id INT);")]);
    assert_eq!(session(&mut db, &store, Request::Migrate).err().unwrap(), "refused");
    assert!(!db.log.iter().any(|l| l.starts_with("run")));
}

#[test]
fn a_session_without_seeds_does_not_connect() {
    let mut db = Db::default();
    let store = MemoryFileStore::new();
    assert_eq!(session(&mut db, &store, Request::Seed).unwrap().applied, Some(0));
    assert_eq!(db.log, vec!["list migrations/shop/seed/"]);
}

#[test]
fn a_session_with_seeds_runs_them_under_the_lock() {
    let mut db = Db::default();
    let store = make_store_with_seeds("shop", vec![], vec![("001.sql", "CREATE TABLE s (id INT);")]);
    assert_eq!(session(&mut db, &store, Request::Seed).unwrap().applied, Some(1));
    let lock = db.log.iter().position(|l| l.starts_with("lock")).unwrap();
    let read = db.log.iter().position(|l| l.starts_with("read")).unwrap();
    assert!(lock < read);
    assert!(!db.log.iter().any(|l| l.starts_with("role")));
}

#[test]
fn a_database_is_dropped() {
    let mut db = Db::default();
    db.databases.push("shop_db".to_string());
    let store = MemoryFileStore::new();
    let response = session(&mut db, &store, Request::Drop).unwrap();
    assert_eq!(response.operation, "drop");
    assert_eq!(response.db.as_deref(), Some("shop_db"));
    assert!(!db.databases.contains(&"shop_db".to_string()));
    assert_eq!(db.audits[0].filename, None);
    assert!(!db.log.iter().any(|l| l.starts_with("app")));
}

#[test]
fn a_database_is_restored_and_its_migrations_are_not_run() {
    let mut db = Db::default();
    let mut store = make_store(
        "shop",
        vec![
            ("001_a.sql", "CREATE TABLE a (id INT);"),
            ("002_b.sql", "CREATE TABLE b (id INT);"),
        ],
    );
    store.add_file("dumps/shop.sql", "\\connect shop\nCREATE TABLE a (id INT);\n");
    let request = Request::Restore {
        target: "dumps/shop.sql".to_string(),
        comment: "from the dump".to_string(),
    };
    let response = session(&mut db, &store, request).unwrap();
    assert_eq!(response.operation, "restore");
    assert_eq!(response.key.as_deref(), Some("dumps/shop.sql"));
    assert_eq!(response.baselined, Some(2));
    assert_eq!(response.duration_ms, Some(3));
    assert_eq!(
        db.grants[0],
        "GRANT ALL PRIVILEGES ON DATABASE \"shop_db\" TO \"shop_app\";
         GRANT CONNECT ON DATABASE \"shop_db\" TO \"shop_reader\";"
    );
    assert_eq!(db.grants.len(), 6);
    assert!(db.grants[2].contains(";\n         GRANT ALL ON ALL TABLES"));
    assert!(db.grants[3].contains(";\n         GRANT SELECT ON ALL TABLES"));
    assert!(db.grants[4].contains(";\n             GRANT ALL ON ALL TABLES"));
    assert!(db.grants[5].starts_with("GRANT \"shop_app\" TO CURRENT_USER;\n             GRANT"));
    assert!(db.data.tables.contains_key("a"));
    assert!(!db.data.tables.contains_key("b"));
    assert!(db.rows().iter().all(|r| r.noop));
    assert_eq!(db.audits[0].operation, "restore");
    assert_eq!(db.audits[0].comment.as_deref(), Some("from the dump"));
    assert_eq!(db.locks, 0);
    assert_eq!(session(&mut db, &store, Request::Migrate).unwrap().applied, Some(0));
}

#[test]
fn migrations_that_a_dump_tracks_keep_their_rows() {
    let mut db = Db::default();
    let first = "CREATE TABLE a (id INT);";
    let mut store = make_store(
        "shop",
        vec![
            ("001_a.sql", first),
            ("002_b.sql", "CREATE TABLE b (id INT);"),
            ("003_c.sql", "CREATE TABLE c (id INT);"),
        ],
    );
    let sum = checksum(first);
    store.add_file(
        "dumps/shop.sql",
        &format!("{first}\nINSERT INTO schema_migrations VALUES ('001_a.sql', '{sum}');\n"),
    );
    let request = Request::Restore {
        target: "dumps/shop.sql".to_string(),
        comment: "from the dump".to_string(),
    };
    let response = session(&mut db, &store, request).unwrap();
    assert_eq!(response.baselined, Some(2));
    let rows: Vec<(String, bool)> =
        db.rows().iter().map(|r| (r.filename.clone(), r.noop)).collect();
    assert_eq!(
        rows,
        vec![
            ("001_a.sql".to_string(), false),
            ("002_b.sql".to_string(), true),
            ("003_c.sql".to_string(), true),
        ]
    );
    assert_eq!(db.rows()[0].comment, None);
    assert_eq!(db.rows()[2].comment.as_deref(), Some("from the dump"));
    assert_eq!(session(&mut db, &store, Request::Migrate).unwrap().applied, Some(0));
}

#[test]
fn a_session_rolls_back_to_a_target() {
    let mut db = Db::default();
    let store = make_store_with_rollbacks(
        "shop",
        vec![
            ("001_a.sql", "CREATE TABLE a (id INT);"),
            ("002_b.sql", "CREATE TABLE b (id INT);"),
        ],
        vec![("002_b.sql", "DROP TABLE b;")],
    );
    session(&mut db, &store, Request::Migrate).unwrap();
    let request = Request::Rollback { down_to: Some("001_a.sql".to_string()) };
    assert_eq!(session(&mut db, &store, request).unwrap().rolled_back, Some(1));
    assert_eq!(db.rows().len(), 1);
}

#[test]
fn a_provision_that_fails_ends_the_session() {
    let mut db = Db::default();
    db.refuse = Some("role shop_app".to_string());
    let store = MemoryFileStore::new();
    assert_eq!(session(&mut db, &store, Request::Migrate).err().unwrap(), "refused");
    assert_eq!(db.locks, 0);
    assert!(!db.log.iter().any(|l| l.starts_with("lock")));
}

#[test]
fn a_provision_stands_on_its_own() {
    let mut db = Db::default();
    let files = MemoryFileStore::new();
    let (mut provision, mut step): (Provision, ProvisionStep) =
        ops::ensure_database("shop", "shop_db");
    let mut ready = false;
    while let ProvisionStep::Do(action) = step {
        let event = db.perform(&files, action);
        let password = if provision.wants_password(&event) { "secret" } else { "" };
        let (next, more) = provision.next(event, password.to_string());
        provision = next;
        step = more;
        ready = matches!(step, ProvisionStep::Ready);
    }
    assert!(ready);
    assert_eq!(
        db.grants[0],
        "GRANT ALL PRIVILEGES ON DATABASE \"shop_db\" TO \"shop_app\";
             GRANT CONNECT ON DATABASE \"shop_db\" TO \"shop_reader\";"
    );
    assert!(db.grants[2].contains(";\n         GRANT ALL ON ALL TABLES"));
    assert_eq!(db.params["/platform/db/shop/password"], "secret");
    assert_eq!(db.databases, vec!["shop_db"]);
}

#[test]
fn a_content_is_judged_by_the_checksum_that_is_given() {
    let file = |name: &str| MigrationFile { key: format!("k/{name}"), filename: name.to_string() };
    let at_reading = || {
        let (run, _) = ops::migrate("p");
        let (run, _) = run.next(Event::Done, 0);
        let (run, _) = run.next(Event::Files(vec![file("1.sql")]), 0);
        run.next(Event::Applied(vec![("1.sql".to_string(), "sum".to_string())]), 0).0
    };
    let content = || Event::Content("SELECT 1;".to_string());
    match at_reading().next_with(content(), "sum".to_string(), 0).1 {
        Step::Finish(response) => assert_eq!(response.applied, Some(0)),
        _ => panic!("nothing to do"),
    }
    match at_reading().next_with(content(), "other".to_string(), 0).1 {
        Step::Do(Action::Audit { entry }) => {
            assert_eq!(entry.error_message.as_deref(), Some("Checksum mismatch for 1.sql"))
        }
        _ => panic!("a refusal"),
    }
}
