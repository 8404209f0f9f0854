//! Operations on project databases.
//!
//! Each operation is a machine. It names the next [`Action`] to perform, is
//! told the [`Event`] that came of it, and ends with a [`Response`] or an error
//! message. Performing an action is all that is left to the caller; what to do,
//! in which order and when to stop is decided here.
//!
//! `T` stands for text: `String` in the values that the machines exchange with
//! their caller, `Seq<char>` in the values that contracts speak of.

use vstd::hash_map::StringHashMap;
use vstd::prelude::*;
use vstd::string::*;

use crate::storage::{FileModel, MigrationFile};

pub use crate::checksum::checksum;
pub use crate::lock::lock_id;
pub use migrate::migrate;
pub use noop::noop;
pub use provision::ensure_database;
pub use rollback::rollback;
pub use seed::seed;
pub use sql::{LOCAL_TRACKING, OPS_SCHEMA};

pub mod connect;
pub mod drop_db;
pub mod dump;
pub mod entry;
pub mod exchange_laws;
pub mod migrate;
pub mod migrate_laws;
pub mod noop;
pub mod noop_laws;
pub mod outage_laws;
pub mod provision;
pub mod provision_laws;
pub mod restore;
pub mod restore_laws;
pub mod rollback;
pub mod rollback_laws;
pub mod seed;
pub mod seed_laws;
pub mod service_laws;
pub mod session;
pub mod session_laws;
pub mod sql;
pub mod sql_laws;
pub mod view_laws;
pub mod world;

verus! {

/// How a project is registered.
pub struct ProjectConfig {
    pub db_name: String,
}

/// What an operation reports when it has succeeded.
#[verifier::ext_equal]
pub struct Response<T = String> {
    pub operation: T,
    pub project: T,
    pub applied: Option<i32>,
    pub rolled_back: Option<i32>,
    pub baselined: Option<i32>,
    pub duration_ms: Option<u64>,
    pub key: Option<T>,
    pub db: Option<T>,
    pub file: Option<T>,
    pub comment: Option<T>,
    pub status: Option<T>,
}

/// A line of the audit table.
#[verifier::ext_equal]
pub struct AuditEntry<T = String> {
    pub project: T,
    pub operation: T,
    pub filename: Option<T>,
    pub checksum: Option<T>,
    pub status: T,
    pub error_message: Option<T>,
    pub duration_ms: Option<i32>,
    pub comment: Option<T>,
}

/// How far the lines of a script are indented behind the first.
#[derive(Clone, Copy)]
pub enum Indent {
    /// Nine blanks.
    Narrow,
    /// Thirteen blanks.
    Wide,
}

/// Something to be done outside.
#[verifier::ext_equal]
pub enum Action<T = String> {
    /// List the SQL files directly under the prefix: `Files`.
    ListFiles { prefix: T },
    /// Read a file: `Content`.
    ReadFile { key: T },
    /// Create the tracking table where it is missing: `Done`.
    InitTracking,
    /// Read name and checksum of every tracked migration: `Applied`.
    QueryApplied,
    /// Read the name of every tracked migration, the last one first: `Names`.
    QueryAppliedNames,
    /// Look for a tracked migration: `Found`.
    QueryRecorded { filename: T },
    /// Open a transaction: `Done`.
    Begin,
    /// Make the transaction permanent: `Done`.
    Commit,
    /// Undo the transaction: `Done`.
    Rollback,
    /// Run a SQL script on the project's database: `Done`.
    RunScript { sql: T },
    /// Track a migration that was run: `Done`.
    Record { filename: T, checksum: T, duration_ms: i32 },
    /// Track a migration that was not run: `Done`.
    RecordNoop { filename: T, checksum: T, comment: T },
    /// Stop tracking a migration: `Done`.
    Unrecord { filename: T },
    /// Write a line of the audit table: `Done`.
    Audit { entry: AuditEntry<T> },
    /// Note that a seed file was run: `Done`.
    LogSeed { project: T, filename: T, checksum: T },
    /// Connect to the maintenance database: `Done`.
    ConnectAdmin,
    /// Connect to a project's database as administrator: `Done`.
    ConnectProject { db: T },
    /// Connect to a project's database as its application: `Done`.
    ConnectApp { project: T, db: T },
    /// Connect to the database of the service: `Done`.
    ConnectOps,
    /// Create the tables of the service where they are missing: `Done`.
    InitOps,
    /// Take an advisory lock: `Done`.
    AcquireLock { id: i64 },
    /// Give an advisory lock back: `Done`.
    ReleaseLock { id: i64 },
    /// End every other session on a database: `Done`.
    TerminateBackends { db: T },
    /// Drop a database where it exists: `Done`.
    DropDatabase { db: T },
    /// Create a database: `Done`.
    CreateDatabase { db: T },
    /// Look for a database: `Found`.
    QueryDatabase { db: T },
    /// Look for a role: `Found`.
    QueryRole { role: T },
    /// Create a role that may log in: `Done`.
    CreateRole { role: T, password: T },
    /// Let a role use a database, and a reader connect to it: `Done`.
    GrantDatabase { db: T, role: T, reader: T, indent: Indent },
    /// Let a role use a database: `Done`.
    GrantAll { db: T, role: T },
    /// Make the administrator a member of a role: `Done`.
    GrantMembership { role: T },
    /// Let a role use everything in the project's schema: `Done`.
    GrantSchema { role: T, indent: Indent },
    /// Let a role read everything in the project's schema; before it, where
    /// asked for, make the administrator a member of the application's role:
    /// `Done`.
    GrantReader { role: T, reader: T, membership: bool },
    /// Look up names in the public schema: `Done`.
    SetSearchPath,
    /// Publish a parameter: `Done`.
    PutParam { name: T, value: T },
    /// Publish a secret: `Done`.
    PutSecret { name: T, value: T },
}

/// What came of an action.
pub enum Event {
    /// It was done.
    Done,
    /// It failed, with a message.
    Failed(String),
    /// Whether what was looked for is there.
    Found(bool),
    /// The files that were listed.
    Files(Vec<MigrationFile>),
    /// Name and checksum of each tracked migration.
    Applied(Vec<(String, String)>),
    /// The name of each tracked migration.
    Names(Vec<String>),
    /// The content of the file that was read.
    Content(String),
}

/// What an [`Event`] says.
#[verifier::ext_equal]
pub enum EventModel {
    Done,
    Failed(Seq<char>),
    Found(bool),
    Files(Seq<FileModel>),
    Applied(Seq<(Seq<char>, Seq<char>)>),
    Names(Seq<Seq<char>>),
    Content(Seq<char>),
}

/// How an operation goes on.
#[verifier::ext_equal]
pub enum Step<T = String> {
    /// Perform the action and say what came of it.
    Do(Action<T>),
    /// The operation succeeded.
    Finish(Response<T>),
    /// The operation failed, with a message.
    Fail(T),
}

impl DeepView for Response {
    type V = Response<Seq<char>>;

    open spec fn deep_view(&self) -> Response<Seq<char>> {
        Response {
            operation: self.operation@,
            project: self.project@,
            applied: self.applied,
            rolled_back: self.rolled_back,
            baselined: self.baselined,
            duration_ms: self.duration_ms,
            key: self.key.deep_view(),
            db: self.db.deep_view(),
            file: self.file.deep_view(),
            comment: self.comment.deep_view(),
            status: self.status.deep_view(),
        }
    }
}

impl DeepView for AuditEntry {
    type V = AuditEntry<Seq<char>>;

    open spec fn deep_view(&self) -> AuditEntry<Seq<char>> {
        AuditEntry {
            project: self.project@,
            operation: self.operation@,
            filename: self.filename.deep_view(),
            checksum: self.checksum.deep_view(),
            status: self.status@,
            error_message: self.error_message.deep_view(),
            duration_ms: self.duration_ms,
            comment: self.comment.deep_view(),
        }
    }
}

impl DeepView for Action {
    type V = Action<Seq<char>>;

    open spec fn deep_view(&self) -> Action<Seq<char>> {
        match *self {
            Action::ListFiles { prefix } => Action::ListFiles { prefix: prefix@ },
            Action::ReadFile { key } => Action::ReadFile { key: key@ },
            Action::InitTracking => Action::InitTracking,
            Action::QueryApplied => Action::QueryApplied,
            Action::QueryAppliedNames => Action::QueryAppliedNames,
            Action::QueryRecorded { filename } => Action::QueryRecorded { filename: filename@ },
            Action::Begin => Action::Begin,
            Action::Commit => Action::Commit,
            Action::Rollback => Action::Rollback,
            Action::RunScript { sql } => Action::RunScript { sql: sql@ },
            Action::Record { filename, checksum, duration_ms } => Action::Record {
                filename: filename@,
                checksum: checksum@,
                duration_ms,
            },
            Action::RecordNoop { filename, checksum, comment } => Action::RecordNoop {
                filename: filename@,
                checksum: checksum@,
                comment: comment@,
            },
            Action::Unrecord { filename } => Action::Unrecord { filename: filename@ },
            Action::Audit { entry } => Action::Audit { entry: entry.deep_view() },
            Action::LogSeed { project, filename, checksum } => Action::LogSeed {
                project: project@,
                filename: filename@,
                checksum: checksum@,
            },
            Action::ConnectAdmin => Action::ConnectAdmin,
            Action::ConnectProject { db } => Action::ConnectProject { db: db@ },
            Action::ConnectApp { project, db } => Action::ConnectApp {
                project: project@,
                db: db@,
            },
            Action::ConnectOps => Action::ConnectOps,
            Action::InitOps => Action::InitOps,
            Action::AcquireLock { id } => Action::AcquireLock { id },
            Action::ReleaseLock { id } => Action::ReleaseLock { id },
            Action::TerminateBackends { db } => Action::TerminateBackends { db: db@ },
            Action::DropDatabase { db } => Action::DropDatabase { db: db@ },
            Action::CreateDatabase { db } => Action::CreateDatabase { db: db@ },
            Action::QueryDatabase { db } => Action::QueryDatabase { db: db@ },
            Action::QueryRole { role } => Action::QueryRole { role: role@ },
            Action::CreateRole { role, password } => Action::CreateRole {
                role: role@,
                password: password@,
            },
            Action::GrantDatabase { db, role, reader, indent } => Action::GrantDatabase {
                db: db@,
                role: role@,
                reader: reader@,
                indent,
            },
            Action::GrantAll { db, role } => Action::GrantAll { db: db@, role: role@ },
            Action::GrantMembership { role } => Action::GrantMembership { role: role@ },
            Action::GrantSchema { role, indent } => Action::GrantSchema {
                role: role@,
                indent,
            },
            Action::GrantReader { role, reader, membership } => Action::GrantReader {
                role: role@,
                reader: reader@,
                membership,
            },
            Action::SetSearchPath => Action::SetSearchPath,
            Action::PutParam { name, value } => Action::PutParam { name: name@, value: value@ },
            Action::PutSecret { name, value } => Action::PutSecret { name: name@, value: value@ },
        }
    }
}

impl DeepView for Event {
    type V = EventModel;

    open spec fn deep_view(&self) -> EventModel {
        match *self {
            Event::Done => EventModel::Done,
            Event::Failed(message) => EventModel::Failed(message@),
            Event::Found(there) => EventModel::Found(there),
            Event::Files(files) => EventModel::Files(files.deep_view()),
            Event::Applied(rows) => EventModel::Applied(rows.deep_view()),
            Event::Names(names) => EventModel::Names(names.deep_view()),
            Event::Content(content) => EventModel::Content(content@),
        }
    }
}

impl DeepView for Step {
    type V = Step<Seq<char>>;

    open spec fn deep_view(&self) -> Step<Seq<char>> {
        match *self {
            Step::Do(action) => Step::Do(action.deep_view()),
            Step::Finish(response) => Step::Finish(response.deep_view()),
            Step::Fail(message) => Step::Fail(message@),
        }
    }
}

/// The response that reports nothing but the operation and the project.
pub open spec fn plain_response(operation: Seq<char>, project: Seq<char>) -> Response<Seq<char>> {
    Response {
        operation,
        project,
        applied: None,
        rolled_back: None,
        baselined: None,
        duration_ms: None,
        key: None,
        db: None,
        file: None,
        comment: None,
        status: None,
    }
}

impl Response {
    /// The response that reports nothing but the operation and the project.
    pub fn plain(operation: &str, project: &str) -> (r: Response)
        ensures
            r.deep_view() == plain_response(operation@, project@),
    {
        Response {
            operation: operation.to_string(),
            project: project.to_string(),
            applied: None,
            rolled_back: None,
            baselined: None,
            duration_ms: None,
            key: None,
            db: None,
            file: None,
            comment: None,
            status: None,
        }
    }
}

impl Default for Response {
    fn default() -> (r: Self)
        ensures
            r.deep_view() == plain_response(Seq::empty(), Seq::empty()),
    {
        Response {
            operation: String::new(),
            project: String::new(),
            applied: None,
            rolled_back: None,
            baselined: None,
            duration_ms: None,
            key: None,
            db: None,
            file: None,
            comment: None,
            status: None,
        }
    }
}

/// The audit line of a file that an operation dealt with.
pub open spec fn success_entry(
    operation: Seq<char>,
    project: Seq<char>,
    filename: Seq<char>,
    checksum: Option<Seq<char>>,
    duration_ms: i32,
) -> AuditEntry<Seq<char>> {
    AuditEntry {
        project,
        operation,
        filename: Some(filename),
        checksum,
        status: "success"@,
        error_message: None,
        duration_ms: Some(duration_ms),
        comment: None,
    }
}

/// The audit line of a file that an operation failed on.
pub open spec fn error_entry(
    operation: Seq<char>,
    project: Seq<char>,
    filename: Seq<char>,
    checksum: Option<Seq<char>>,
    error: Seq<char>,
) -> AuditEntry<Seq<char>> {
    AuditEntry {
        project,
        operation,
        filename: Some(filename),
        checksum,
        status: "error"@,
        error_message: Some(error),
        duration_ms: None,
        comment: None,
    }
}

impl AuditEntry {
    /// The audit line of a file that an operation dealt with.
    pub fn success(
        operation: &str,
        project: &str,
        filename: &str,
        checksum: Option<String>,
        duration_ms: i32,
    ) -> (r: AuditEntry)
        ensures
            r.deep_view() == success_entry(
                operation@,
                project@,
                filename@,
                checksum.deep_view(),
                duration_ms,
            ),
    {
        AuditEntry {
            project: project.to_string(),
            operation: operation.to_string(),
            filename: Some(filename.to_string()),
            checksum,
            status: "success".to_string(),
            error_message: None,
            duration_ms: Some(duration_ms),
            comment: None,
        }
    }

    /// The audit line of a file that an operation failed on.
    pub fn failure(
        operation: &str,
        project: &str,
        filename: &str,
        checksum: Option<String>,
        error: &str,
    ) -> (r: AuditEntry)
        ensures
            r.deep_view() == error_entry(
                operation@,
                project@,
                filename@,
                checksum.deep_view(),
                error@,
            ),
    {
        AuditEntry {
            project: project.to_string(),
            operation: operation.to_string(),
            filename: Some(filename.to_string()),
            checksum,
            status: "error".to_string(),
            error_message: Some(error.to_string()),
            duration_ms: None,
            comment: None,
        }
    }
}

/// The value of each key. Of two rows with one key the later counts.
pub open spec fn latest(rows: Seq<(Seq<char>, Seq<char>)>) -> Map<Seq<char>, Seq<char>>
    decreases rows.len(),
{
    if rows.len() == 0 {
        Map::empty()
    } else {
        latest(rows.drop_last()).insert(rows.last().0, rows.last().1)
    }
}

/// The texts that a hash map of strings holds.
pub open spec fn text_map(m: Map<Seq<char>, String>) -> Map<Seq<char>, Seq<char>> {
    m.map_values(|s: String| s@)
}

/// The value of each key.
pub fn latest_of(rows: &Vec<(String, String)>) -> (m: StringHashMap<String>)
    ensures
        text_map(m@) == latest(rows.deep_view()),
{
    let mut m: StringHashMap<String> = StringHashMap::new();
    let mut i: usize = 0;
    let ghost all = rows.deep_view();
    assert(all.take(0) =~= Seq::empty());
    assert(text_map(m@) =~= latest(all.take(0)));
    while i < rows.len()
        invariant
            i <= rows@.len(),
            all == rows.deep_view(),
            text_map(m@) == latest(all.take(i as int)),
        decreases rows@.len() - i,
    {
        let ghost before = m@;
        m.insert(rows[i].0.clone(), rows[i].1.clone());
        assert(all.take(i + 1).drop_last() =~= all.take(i as int));
        assert(text_map(m@) =~= text_map(before).insert(all[i as int].0, all[i as int].1));
        i += 1;
    }
    assert(all.take(i as int) =~= all);
    m
}

/// Whole milliseconds between two readings of a clock that counts nanoseconds.
pub open spec fn elapsed_ms(start: u128, now: u128) -> u128 {
    if now > start {
        ((now - start) as u128) / 1_000_000
    } else {
        0
    }
}

/// Whole milliseconds between two readings of a clock that counts nanoseconds.
pub fn millis_between(start: u128, now: u128) -> (ms: u128)
    ensures
        ms == elapsed_ms(start, now),
{
    if now > start {
        (now - start) / 1_000_000
    } else {
        0
    }
}

/// The checksum of the content that an event tells of, if it does.
pub open spec fn sum_of(event: EventModel) -> Seq<char> {
    match event {
        EventModel::Content(content) => crate::checksum::checksum_spec(content),
        _ => Seq::empty(),
    }
}

/// The checksum of the content that an event tells of, if it does.
pub fn event_sum(event: &Event) -> (r: String)
    ensures
        r@ == sum_of(event.deep_view()),
{
    match event {
        Event::Content(content) => checksum(content.as_str()),
        _ => String::new(),
    }
}

/// The role of a project's application.
pub open spec fn app_role_of(project: Seq<char>) -> Seq<char> {
    project + "_app"@
}

/// The role that may only read a project's database.
pub open spec fn reader_role_of(project: Seq<char>) -> Seq<char> {
    project + "_reader"@
}

/// The role of a project's application.
pub fn app_role(project: &str) -> (r: String)
    ensures
        r@ == app_role_of(project@),
{
    String::from_str(project).concat("_app")
}

/// The role that may only read a project's database.
pub fn reader_role(project: &str) -> (r: String)
    ensures
        r@ == reader_role_of(project@),
{
    String::from_str(project).concat("_reader")
}

/// Where the SQL files of a project are: under a directory of its migrations,
/// or, with the empty directory, the migrations themselves.
pub open spec fn files_prefix(project: Seq<char>, dir: Seq<char>) -> Seq<char> {
    "migrations/"@ + project + "/"@ + dir
}

/// Where the SQL files of a project are.
pub fn prefix_of(project: &str, dir: &str) -> (r: String)
    ensures
        r@ == files_prefix(project@, dir@),
{
    String::from_str("migrations/").concat(project).concat("/").concat(dir)
}

} // verus!
