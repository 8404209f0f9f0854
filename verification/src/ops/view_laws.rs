//! Contracts speak of values as they are: nothing is lost, and no field is taken
//! for another.

use vstd::prelude::*;

use super::sql::{Statement, Value};
use super::{Action, AuditEntry, Event, EventModel, Response, Step};
use crate::storage::MigrationFile;

verus! {

/// Every action is seen as itself, with what it holds.
pub proof fn actions_are_seen_as_they_are(action: Action)
    ensures
        action matches Action::ListFiles { prefix } ==> action.deep_view() == (Action::<Seq<char>>::ListFiles {
            prefix: prefix@,
        }),
        action matches Action::ReadFile { key } ==> action.deep_view() == (Action::<Seq<char>>::ReadFile {
            key: key@,
        }),
        action is InitTracking ==> action.deep_view() is InitTracking,
        action is QueryApplied ==> action.deep_view() is QueryApplied,
        action is QueryAppliedNames ==> action.deep_view() is QueryAppliedNames,
        action matches Action::QueryRecorded { filename } ==> action.deep_view() == (Action::<Seq<char>>::QueryRecorded {
            filename: filename@,
        }),
        action is Begin ==> action.deep_view() is Begin,
        action is Commit ==> action.deep_view() is Commit,
        action is Rollback ==> action.deep_view() is Rollback,
        action matches Action::RunScript { sql } ==> action.deep_view() == (Action::<Seq<char>>::RunScript {
            sql: sql@,
        }),
        action matches Action::Record { filename, checksum, duration_ms } ==> action.deep_view() == (Action::<Seq<char>>::Record {
            filename: filename@, checksum: checksum@, duration_ms,
        }),
        action matches Action::RecordNoop { filename, checksum, comment } ==> action.deep_view() == (Action::<Seq<char>>::RecordNoop {
            filename: filename@, checksum: checksum@, comment: comment@,
        }),
        action matches Action::Unrecord { filename } ==> action.deep_view() == (Action::<Seq<char>>::Unrecord {
            filename: filename@,
        }),
        action matches Action::LogSeed { project, filename, checksum } ==> action.deep_view() == (Action::<Seq<char>>::LogSeed {
            project: project@, filename: filename@, checksum: checksum@,
        }),
        action is ConnectAdmin ==> action.deep_view() is ConnectAdmin,
        action matches Action::ConnectProject { db } ==> action.deep_view() == (Action::<Seq<char>>::ConnectProject {
            db: db@,
        }),
        action matches Action::ConnectApp { project, db } ==> action.deep_view() == (Action::<Seq<char>>::ConnectApp {
            project: project@, db: db@,
        }),
        action is ConnectOps ==> action.deep_view() is ConnectOps,
        action is InitOps ==> action.deep_view() is InitOps,
        action matches Action::AcquireLock { id } ==> action.deep_view() == (Action::<Seq<char>>::AcquireLock {
            id,
        }),
        action matches Action::ReleaseLock { id } ==> action.deep_view() == (Action::<Seq<char>>::ReleaseLock {
            id,
        }),
        action matches Action::TerminateBackends { db } ==> action.deep_view() == (Action::<Seq<char>>::TerminateBackends {
            db: db@,
        }),
        action matches Action::DropDatabase { db } ==> action.deep_view() == (Action::<Seq<char>>::DropDatabase {
            db: db@,
        }),
        action matches Action::CreateDatabase { db } ==> action.deep_view() == (Action::<Seq<char>>::CreateDatabase {
            db: db@,
        }),
        action matches Action::QueryDatabase { db } ==> action.deep_view() == (Action::<Seq<char>>::QueryDatabase {
            db: db@,
        }),
        action matches Action::QueryRole { role } ==> action.deep_view() == (Action::<Seq<char>>::QueryRole {
            role: role@,
        }),
        action matches Action::CreateRole { role, password } ==> action.deep_view() == (Action::<Seq<char>>::CreateRole {
            role: role@, password: password@,
        }),
        action matches Action::GrantDatabase { db, role, reader, indent } ==> action.deep_view() == (Action::<Seq<char>>::GrantDatabase {
            db: db@, role: role@, reader: reader@, indent,
        }),
        action matches Action::GrantAll { db, role } ==> action.deep_view() == (Action::<Seq<char>>::GrantAll {
            db: db@, role: role@,
        }),
        action matches Action::GrantMembership { role } ==> action.deep_view() == (Action::<Seq<char>>::GrantMembership {
            role: role@,
        }),
        action matches Action::GrantSchema { role, indent } ==> action.deep_view() == (Action::<Seq<char>>::GrantSchema {
            role: role@, indent,
        }),
        action matches Action::GrantReader { role, reader, membership } ==> action.deep_view() == (Action::<Seq<char>>::GrantReader {
            role: role@, reader: reader@, membership,
        }),
        action is SetSearchPath ==> action.deep_view() is SetSearchPath,
        action matches Action::PutParam { name, value } ==> action.deep_view() == (Action::<Seq<char>>::PutParam {
            name: name@, value: value@,
        }),
        action matches Action::PutSecret { name, value } ==> action.deep_view() == (Action::<Seq<char>>::PutSecret {
            name: name@, value: value@,
        }),
        action matches Action::Audit { entry } ==> action.deep_view() == (Action::<Seq<char>>::Audit {
            entry: entry.deep_view(),
        }),
{
}

/// Every line of the audit table and every response is seen field by field.
pub proof fn records_are_seen_as_they_are(entry: AuditEntry, response: Response)
    ensures
        entry.deep_view().project == entry.project@,
        entry.deep_view().operation == entry.operation@,
        entry.deep_view().filename == entry.filename.deep_view(),
        entry.deep_view().checksum == entry.checksum.deep_view(),
        entry.deep_view().status == entry.status@,
        entry.deep_view().error_message == entry.error_message.deep_view(),
        entry.deep_view().duration_ms == entry.duration_ms,
        entry.deep_view().comment == entry.comment.deep_view(),
        response.deep_view().operation == response.operation@,
        response.deep_view().project == response.project@,
        response.deep_view().applied == response.applied,
        response.deep_view().rolled_back == response.rolled_back,
        response.deep_view().baselined == response.baselined,
        response.deep_view().duration_ms == response.duration_ms,
        response.deep_view().key == response.key.deep_view(),
        response.deep_view().db == response.db.deep_view(),
        response.deep_view().file == response.file.deep_view(),
        response.deep_view().comment == response.comment.deep_view(),
        response.deep_view().status == response.status.deep_view(),
{
}

/// Events, steps and files are seen as they are.
pub proof fn events_are_seen_as_they_are(event: Event, step: Step, file: MigrationFile)
    ensures
        event is Done ==> event.deep_view() == EventModel::Done,
        event matches Event::Failed(message) ==> event.deep_view() == EventModel::Failed(message@),
        event matches Event::Found(there) ==> event.deep_view() == EventModel::Found(there),
        event matches Event::Files(files) ==> event.deep_view() == EventModel::Files(
            files.deep_view(),
        ),
        event matches Event::Applied(rows) ==> event.deep_view() == EventModel::Applied(
            rows.deep_view(),
        ),
        event matches Event::Names(names) ==> event.deep_view() == EventModel::Names(
            names.deep_view(),
        ),
        event matches Event::Content(content) ==> event.deep_view() == EventModel::Content(
            content@,
        ),
        step matches Step::Do(action) ==> step.deep_view() == Step::<Seq<char>>::Do(
            action.deep_view(),
        ),
        step matches Step::Finish(response) ==> step.deep_view() == Step::<Seq<char>>::Finish(
            response.deep_view(),
        ),
        step matches Step::Fail(message) ==> step.deep_view() == Step::<Seq<char>>::Fail(message@),
        file.deep_view().key == file.key@,
        file.deep_view().filename == file.filename@,
{
}

/// Statements and their values are seen as they are.
pub proof fn statements_are_seen_as_they_are(statement: Statement, value: Value)
    ensures
        statement.deep_view().connection == statement.connection,
        statement.deep_view().mode == statement.mode,
        statement.deep_view().sql == statement.sql@,
        statement.deep_view().values == statement.values.deep_view(),
        value matches Value::Text(text) ==> value.deep_view() == Value::<Seq<char>>::Text(
            text.deep_view(),
        ),
        value matches Value::Int(n) ==> value.deep_view() == Value::<Seq<char>>::Int(n),
        value matches Value::Big(n) ==> value.deep_view() == Value::<Seq<char>>::Big(n),
        value matches Value::Bool(b) ==> value.deep_view() == Value::<Seq<char>>::Bool(b),
{
}

} // verus!
