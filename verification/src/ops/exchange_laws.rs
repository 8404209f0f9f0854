//! What an operation and its caller say to each other, from the first action to
//! the last.

use vstd::prelude::*;

use super::drop_db::DropModel;
use super::migrate::MigrateModel;
use super::noop::{FileSource, NoopModel};
use super::restore::RestoreModel;
use super::rollback::RollbackModel;
use super::seed::SeedModel;
use super::{Action, AuditEntry, EventModel, Indent, Response, Step};
use crate::checksum;
use crate::ops;
use crate::storage::FileModel;

verus! {

// ---------------------------------------------------------------------------
// Texts
// ---------------------------------------------------------------------------

/// The roles of a project and the places of its files are made of its name.
pub proof fn names_of_a_project(project: Seq<char>, dir: Seq<char>)
    ensures
        ops::app_role_of(project) == project + "_app"@,
        ops::reader_role_of(project) == project + "_reader"@,
        ops::files_prefix(project, dir) == "migrations/"@ + project + "/"@ + dir,
{
}

/// Whole milliseconds: no more than has passed, and less than one more.
pub proof fn milliseconds_have_passed(start: u128, now: u128)
    ensures
        now <= start ==> ops::elapsed_ms(start, now) == 0,
        now >= start ==> ops::elapsed_ms(start, now) * 1_000_000 <= now - start,
        now >= start ==> now - start < (ops::elapsed_ms(start, now) + 1) * 1_000_000,
{
}

/// Of the rows of a key the last one counts, and a key without a row has no
/// value.
pub proof fn last_row_counts(
    before: Seq<(Seq<char>, Seq<char>)>,
    key: Seq<char>,
    value: Seq<char>,
    after: Seq<(Seq<char>, Seq<char>)>,
)
    requires
        forall|i: int| 0 <= i < after.len() ==> (#[trigger] after[i]).0 != key,
    ensures
        ({
            let m = ops::latest(before.push((key, value)) + after);
            m.contains_key(key) && m[key] == value
        }),
        !ops::latest(after).contains_key(key),
    decreases after.len(),
{
    let all = before.push((key, value)) + after;
    if after.len() == 0 {
        assert(all =~= before.push((key, value)));
        assert(all.drop_last() =~= before);
    } else {
        let less = after.drop_last();
        assert(all.drop_last() =~= before.push((key, value)) + less);
        assert(after[after.len() - 1].0 != key);
        assert forall|i: int| 0 <= i < less.len() implies (#[trigger] less[i]).0 != key by {
            assert(less[i] == after[i]);
        }
        last_row_counts(before, key, value, less);
    }
}

// ---------------------------------------------------------------------------
// Migrations
// ---------------------------------------------------------------------------

/// A run of migrations makes sure of the tracking table, lists the files of the
/// project, reads what is tracked, and begins with the first file. Each of
/// these that fails ends it with its error.
pub proof fn migrate_begins(
    project: Seq<char>,
    files: Seq<FileModel>,
    rows: Seq<(Seq<char>, Seq<char>)>,
    error: Seq<char>,
    now: u128,
)
    ensures
        ({
            let m0 = MigrateModel::start(project);
            let r1 = m0.next(EventModel::Done, now);
            let r2 = r1.0.next(EventModel::Files(files), now);
            let r3 = r2.0.next(EventModel::Applied(rows), now);
            &&& m0.project == project
            &&& r1.1 == Step::<Seq<char>>::Do(
                Action::ListFiles { prefix: "migrations/"@ + project + "/"@ + ""@ },
            )
            &&& r2.1 == Step::<Seq<char>>::Do(Action::QueryApplied)
            &&& r3.0.files == files && r3.0.index == 0 && r3.0.count == 0 && r3.0.project
                == project
            &&& r3.0.applied == ops::latest(rows)
            &&& files.len() > 0 ==> r3.0.phase is Reading && r3.1 == Step::<Seq<char>>::Do(
                Action::ReadFile { key: files[0].key },
            )
            &&& files.len() == 0 ==> r3.1 == Step::Finish(
                Response {
                    operation: "migrate"@,
                    project,
                    applied: Some(0i32),
                    rolled_back: None,
                    baselined: None,
                    duration_ms: None,
                    key: None,
                    db: None,
                    file: None,
                    comment: None,
                    status: None,
                },
            )
            &&& m0.next(EventModel::Failed(error), now).1 == Step::Fail(error)
            &&& r1.0.next(EventModel::Failed(error), now).1 == Step::Fail(error)
            &&& r2.0.next(EventModel::Failed(error), now).1 == Step::Fail(error)
            &&& r3.0.phase is Reading ==> r3.0.next(EventModel::Failed(error), now).1
                == Step::Fail(error)
        }),
{
}

/// What follows a file: the next one is read, or the number of files that were
/// run is reported.
pub open spec fn goes_on(m: MigrateModel, r: (MigrateModel, Step<Seq<char>>), count: int) -> bool {
    let next = m.index + 1;
    &&& r.0.project == m.project && r.0.files == m.files && r.0.applied == m.applied
    &&& r.0.index == next && r.0.count == count
    &&& next < m.files.len() ==> r.0.phase is Reading && r.1 == Step::<Seq<char>>::Do(
        Action::ReadFile { key: m.files[next].key },
    )
    &&& next >= m.files.len() ==> r.0.phase is Ended && r.1 == Step::Finish(
        Response {
            operation: "migrate"@,
            project: m.project,
            applied: Some(count as i32),
            rolled_back: None,
            baselined: None,
            duration_ms: None,
            key: None,
            db: None,
            file: None,
            comment: None,
            status: None,
        },
    )
}

/// A file that is not tracked is run in a transaction of its own, and tracked in
/// it under its name with the checksum of its content and the milliseconds that
/// it took; it is then audited and counted.
pub proof fn a_pending_file_is_run(
    m: MigrateModel,
    sql: Seq<char>,
    t0: u128,
    t1: u128,
    t2: u128,
    last: EventModel,
)
    requires
        m.phase is Reading,
        0 <= m.index < m.files.len(),
        !m.applied.contains_key(m.files[m.index].filename),
        t0 <= t2,
        (t2 - t0) / 1_000_000 <= i32::MAX,
        last is Done || last is Failed,
    ensures
        ({
            let filename = m.files[m.index].filename;
            let sum = checksum::checksum_spec(sql);
            let ms = ((t2 - t0) / 1_000_000) as i32;
            let r0 = m.next(EventModel::Content(sql), t0);
            let r1 = r0.0.next(EventModel::Done, t1);
            let r2 = r1.0.next(EventModel::Done, t2);
            let r3 = r2.0.next(EventModel::Done, t1);
            let r4 = r3.0.next(EventModel::Done, t1);
            let r5 = r4.0.next(last, t1);
            &&& r0.1 == Step::<Seq<char>>::Do(Action::Begin)
            &&& r1.1 == Step::<Seq<char>>::Do(Action::RunScript { sql })
            &&& r2.1 == Step::<Seq<char>>::Do(
                Action::Record { filename, checksum: sum, duration_ms: ms },
            )
            &&& r3.1 == Step::<Seq<char>>::Do(Action::Commit)
            &&& r4.1 == Step::<Seq<char>>::Do(
                Action::Audit {
                    entry: AuditEntry {
                        project: m.project,
                        operation: "migrate"@,
                        filename: Some(filename),
                        checksum: Some(sum),
                        status: "success"@,
                        error_message: None,
                        duration_ms: Some(ms),
                        comment: None,
                    },
                },
            )
            &&& goes_on(m, r5, m.count + 1)
        }),
{
}

/// A file whose script fails is undone, audited with the error, and ends the run
/// with it. A failure of the transaction itself ends the run at once.
pub proof fn a_failing_file_is_undone(
    m: MigrateModel,
    sql: Seq<char>,
    error: Seq<char>,
    second: Seq<char>,
    now: u128,
    after: EventModel,
    last: EventModel,
)
    requires
        m.phase is Reading,
        0 <= m.index < m.files.len(),
        !m.applied.contains_key(m.files[m.index].filename),
        after is Done || after is Failed,
        last is Done || last is Failed,
    ensures
        ({
            let filename = m.files[m.index].filename;
            let r0 = m.next(EventModel::Content(sql), now);
            let r1 = r0.0.next(EventModel::Done, now);
            let r2 = r1.0.next(EventModel::Failed(error), now);
            let r3 = r2.0.next(after, now);
            let r4 = r3.0.next(last, now);
            let recording = r1.0.next(EventModel::Done, now);
            let committing = recording.0.next(EventModel::Done, now);
            &&& r2.1 == Step::<Seq<char>>::Do(Action::Rollback)
            &&& r3.1 == Step::<Seq<char>>::Do(
                Action::Audit {
                    entry: AuditEntry {
                        project: m.project,
                        operation: "migrate"@,
                        filename: Some(filename),
                        checksum: Some(checksum::checksum_spec(sql)),
                        status: "error"@,
                        error_message: Some(error),
                        duration_ms: None,
                        comment: None,
                    },
                },
            )
            &&& r4.1 == Step::Fail(error)
            &&& r0.0.next(EventModel::Failed(second), now).1 == Step::Fail(second)
            &&& recording.0.next(EventModel::Failed(second), now).1 == Step::Fail(second)
            &&& committing.0.next(EventModel::Failed(second), now).1 == Step::Fail(second)
        }),
{
}

/// A file that is tracked is not run again: with the checksum that it is tracked
/// under it is passed over, and with another one the run ends with the mismatch,
/// which is audited.
pub proof fn a_tracked_file_is_not_run(
    m: MigrateModel,
    sql: Seq<char>,
    now: u128,
    last: EventModel,
)
    requires
        m.phase is Reading,
        0 <= m.index < m.files.len(),
        m.applied.contains_key(m.files[m.index].filename),
        last is Done || last is Failed,
    ensures
        ({
            let filename = m.files[m.index].filename;
            let sum = checksum::checksum_spec(sql);
            let r = m.next(EventModel::Content(sql), now);
            let error = "Checksum mismatch for "@ + filename;
            &&& m.applied[filename] == sum ==> goes_on(m, r, m.count)
            &&& m.applied[filename] != sum ==> {
                &&& r.1 == Step::<Seq<char>>::Do(
                    Action::Audit {
                        entry: AuditEntry {
                            project: m.project,
                            operation: "migrate"@,
                            filename: Some(filename),
                            checksum: Some(sum),
                            status: "error"@,
                            error_message: Some(error),
                            duration_ms: None,
                            comment: None,
                        },
                    },
                )
                &&& r.0.next(last, now).1 == Step::Fail(error)
            }
        }),
{
}

// ---------------------------------------------------------------------------
// Roll-backs
// ---------------------------------------------------------------------------

/// How a roll-back stands before the migration at its index.
pub open spec fn rolls_on(
    m: RollbackModel,
    r: (RollbackModel, Step<Seq<char>>),
    index: int,
    count: int,
) -> bool {
    let ended = Step::Finish(
        Response {
            operation: "rollback"@,
            project: m.project,
            applied: None,
            rolled_back: Some(count as i32),
            baselined: None,
            duration_ms: None,
            key: None,
            db: None,
            file: None,
            comment: None,
            status: None,
        },
    );
    &&& r.0.project == m.project && r.0.target == m.target
    &&& r.0.index == index && r.0.count == count
    &&& index >= r.0.names.len() ==> r.1 == ended
    &&& index < r.0.names.len() ==> {
        let name = r.0.names[index];
        let stays = m.target is Some && crate::text::text_le(name, m.target->0);
        &&& stays ==> r.1 == ended
        &&& !stays && r.0.keys.contains_key(name) ==> r.0.phase is Reading && r.1 == Step::<
            Seq<char>,
        >::Do(Action::ReadFile { key: r.0.keys[name] })
        &&& !stays && !r.0.keys.contains_key(name) ==> r.1 == Step::<Seq<char>>::Fail(
            "No rollback file for "@ + name,
        )
    }
}

/// A roll-back reads the names of the tracked migrations, lists the roll-back
/// files of the project, and begins with the first name; without a name it
/// reports that nothing was rolled back.
pub proof fn rollback_begins(
    project: Seq<char>,
    target: Option<Seq<char>>,
    names: Seq<Seq<char>>,
    files: Seq<FileModel>,
    error: Seq<char>,
    now: u128,
)
    ensures
        ({
            let m0 = RollbackModel::start(project, target);
            let r1 = m0.next(EventModel::Names(names), now);
            let r2 = r1.0.next(EventModel::Files(files), now);
            &&& m0.project == project && m0.target == target
            &&& names.len() == 0 ==> r1.1 == Step::Finish(
                Response {
                    operation: "rollback"@,
                    project,
                    applied: None,
                    rolled_back: Some(0i32),
                    baselined: None,
                    duration_ms: None,
                    key: None,
                    db: None,
                    file: None,
                    comment: None,
                    status: None,
                },
            )
            &&& names.len() > 0 ==> {
                &&& r1.1 == Step::<Seq<char>>::Do(
                    Action::ListFiles { prefix: "migrations/"@ + project + "/"@ + "rollback/"@ },
                )
                &&& r2.0.names == names
                &&& r2.0.keys == ops::latest(
                    files.map_values(|f: FileModel| (f.filename, f.key)),
                )
                &&& rolls_on(m0, r2, 0, 0)
                &&& r1.0.next(EventModel::Failed(error), now).1 == Step::Fail(error)
            }
            &&& m0.next(EventModel::Failed(error), now).1 == Step::Fail(error)
        }),
{
    assert(super::rollback::name_and_key(files) =~= files.map_values(
        |f: FileModel| (f.filename, f.key),
    ));
}

/// A migration is rolled back in a transaction of its own: its roll-back file is
/// run and its row is deleted; it is then audited and counted, and the next one
/// follows.
pub proof fn a_migration_is_rolled_back(
    m: RollbackModel,
    sql: Seq<char>,
    t0: u128,
    t1: u128,
    t2: u128,
    last: EventModel,
)
    requires
        m.phase is Reading,
        0 <= m.index < m.names.len(),
        t0 <= t2,
        (t2 - t0) / 1_000_000 <= i32::MAX,
        last is Done || last is Failed,
    ensures
        ({
            let filename = m.names[m.index];
            let ms = ((t2 - t0) / 1_000_000) as i32;
            let r0 = m.next(EventModel::Content(sql), t0);
            let r1 = r0.0.next(EventModel::Done, t1);
            let r2 = r1.0.next(EventModel::Done, t1);
            let r3 = r2.0.next(EventModel::Done, t1);
            let r4 = r3.0.next(EventModel::Done, t2);
            let r5 = r4.0.next(last, t1);
            &&& r0.1 == Step::<Seq<char>>::Do(Action::Begin)
            &&& r1.1 == Step::<Seq<char>>::Do(Action::RunScript { sql })
            &&& r2.1 == Step::<Seq<char>>::Do(Action::Unrecord { filename })
            &&& r3.1 == Step::<Seq<char>>::Do(Action::Commit)
            &&& r4.1 == Step::<Seq<char>>::Do(
                Action::Audit {
                    entry: AuditEntry {
                        project: m.project,
                        operation: "rollback"@,
                        filename: Some(filename),
                        checksum: None,
                        status: "success"@,
                        error_message: None,
                        duration_ms: Some(ms),
                        comment: None,
                    },
                },
            )
            &&& r5.0.names == m.names && r5.0.keys == m.keys
            &&& rolls_on(m, r5, m.index + 1, m.count + 1)
        }),
{
}

/// A roll-back whose script fails is undone, audited with the error, and ends
/// with it. A failure of the transaction itself ends it at once.
pub proof fn a_failing_rollback_is_undone(
    m: RollbackModel,
    sql: Seq<char>,
    error: Seq<char>,
    second: Seq<char>,
    now: u128,
    after: EventModel,
    last: EventModel,
)
    requires
        m.phase is Reading,
        0 <= m.index < m.names.len(),
        after is Done || after is Failed,
        last is Done || last is Failed,
    ensures
        ({
            let r0 = m.next(EventModel::Content(sql), now);
            let r1 = r0.0.next(EventModel::Done, now);
            let r2 = r1.0.next(EventModel::Failed(error), now);
            let r3 = r2.0.next(after, now);
            let deleting = r1.0.next(EventModel::Done, now);
            let committing = deleting.0.next(EventModel::Done, now);
            &&& r2.1 == Step::<Seq<char>>::Do(Action::Rollback)
            &&& r3.1 == Step::<Seq<char>>::Do(
                Action::Audit {
                    entry: AuditEntry {
                        project: m.project,
                        operation: "rollback"@,
                        filename: Some(m.names[m.index]),
                        checksum: None,
                        status: "error"@,
                        error_message: Some(error),
                        duration_ms: None,
                        comment: None,
                    },
                },
            )
            &&& r3.0.next(last, now).1 == Step::Fail(error)
            &&& m.next(EventModel::Failed(second), now).1 == Step::Fail(second)
            &&& r0.0.next(EventModel::Failed(second), now).1 == Step::Fail(second)
            &&& deleting.0.next(EventModel::Failed(second), now).1 == Step::Fail(second)
            &&& committing.0.next(EventModel::Failed(second), now).1 == Step::Fail(second)
        }),
{
}

// ---------------------------------------------------------------------------
// Seed files
// ---------------------------------------------------------------------------

/// How a run of seed files stands before the file at an index.
pub open spec fn seeds_on(m: SeedModel, r: (SeedModel, Step<Seq<char>>), index: int) -> bool {
    &&& r.0.project == m.project && r.0.index == index
    &&& index < r.0.files.len() ==> r.0.phase is Reading && r.1 == Step::<Seq<char>>::Do(
        Action::ReadFile { key: r.0.files[index].key },
    )
    &&& index >= r.0.files.len() ==> r.1 == Step::Finish(
        Response {
            operation: "seed"@,
            project: m.project,
            applied: Some(index as i32),
            rolled_back: None,
            baselined: None,
            duration_ms: None,
            key: None,
            db: None,
            file: None,
            comment: None,
            status: None,
        },
    )
}

/// Every seed file is run, noted under its project and name with the checksum of
/// its content, and audited, whether the note could be written or not. One that
/// fails is audited with the error and ends the run with it.
pub proof fn a_seed_file_is_run(
    m: SeedModel,
    sql: Seq<char>,
    error: Seq<char>,
    t0: u128,
    t1: u128,
    noted: EventModel,
    last: EventModel,
)
    requires
        m.phase is Reading,
        0 <= m.index < m.files.len(),
        t0 <= t1,
        (t1 - t0) / 1_000_000 <= i32::MAX,
        noted is Done || noted is Failed,
        last is Done || last is Failed,
    ensures
        ({
            let filename = m.files[m.index].filename;
            let sum = checksum::checksum_spec(sql);
            let ms = ((t1 - t0) / 1_000_000) as i32;
            let r0 = m.next(EventModel::Content(sql), t0);
            let r1 = r0.0.next(EventModel::Done, t1);
            let r2 = r1.0.next(noted, t1);
            let r3 = r2.0.next(last, t1);
            let failed = r0.0.next(EventModel::Failed(error), t1);
            &&& r0.1 == Step::<Seq<char>>::Do(Action::RunScript { sql })
            &&& r1.1 == Step::<Seq<char>>::Do(
                Action::LogSeed { project: m.project, filename, checksum: sum },
            )
            &&& r2.1 == Step::<Seq<char>>::Do(
                Action::Audit {
                    entry: AuditEntry {
                        project: m.project,
                        operation: "seed"@,
                        filename: Some(filename),
                        checksum: Some(sum),
                        status: "success"@,
                        error_message: None,
                        duration_ms: Some(ms),
                        comment: None,
                    },
                },
            )
            &&& r3.0.files == m.files && seeds_on(m, r3, m.index + 1)
            &&& failed.1 == Step::<Seq<char>>::Do(
                Action::Audit {
                    entry: AuditEntry {
                        project: m.project,
                        operation: "seed"@,
                        filename: Some(filename),
                        checksum: Some(sum),
                        status: "error"@,
                        error_message: Some(error),
                        duration_ms: None,
                        comment: None,
                    },
                },
            )
            &&& failed.0.next(last, t1).1 == Step::Fail(error)
            &&& m.next(EventModel::Failed(error), t1).1 == Step::Fail(error)
        }),
{
}

/// A run of seed files begins with the first file that is listed.
pub proof fn seed_begins(project: Seq<char>, files: Seq<FileModel>, error: Seq<char>, now: u128)
    ensures
        ({
            let m0 = SeedModel::start(project);
            let r1 = m0.next(EventModel::Files(files), now);
            &&& m0.project == project
            &&& r1.0.files == files && seeds_on(m0, r1, 0)
            &&& m0.next(EventModel::Failed(error), now).1 == Step::Fail(error)
        }),
{
}

// ---------------------------------------------------------------------------
// Recordings
// ---------------------------------------------------------------------------

/// A migration that is tracked already is reported as such. Any other is looked
/// for among the files of the project, and tracked as not run, with the checksum
/// of its content and the comment; without a file the recording fails.
pub proof fn a_migration_is_recorded(
    project: Seq<char>,
    target: Seq<char>,
    comment: Seq<char>,
    source: FileSource,
    files: Seq<FileModel>,
    at: int,
    sql: Seq<char>,
    last: EventModel,
)
    requires
        last is Done || last is Failed,
        0 <= at <= files.len(),
        forall|i: int| 0 <= i < at ==> (#[trigger] files[i]).filename != target,
        at < files.len() ==> files[at].filename == target,
    ensures
        ({
            let sum = checksum::checksum_spec(sql);
            let m0 = NoopModel::start(project, target, comment, source);
            let r1 = m0.next(EventModel::Done);
            let there = r1.0.next(EventModel::Found(true));
            let r2 = r1.0.next(EventModel::Found(false));
            let r3 = r2.0.next(EventModel::Files(files));
            let r4 = r3.0.next(EventModel::Content(sql));
            let r5 = r4.0.next(EventModel::Done);
            let r6 = r5.0.next(last);
            &&& r1.1 == Step::<Seq<char>>::Do(Action::QueryRecorded { filename: target })
            &&& there.1 == Step::Finish(
                Response {
                    operation: "noop"@,
                    project,
                    applied: None,
                    rolled_back: None,
                    baselined: None,
                    duration_ms: None,
                    key: None,
                    db: None,
                    file: Some(target),
                    comment: None,
                    status: Some("already_recorded"@),
                },
            )
            &&& r2.1 == Step::<Seq<char>>::Do(
                Action::ListFiles { prefix: "migrations/"@ + project + "/"@ + ""@ },
            )
            &&& at == files.len() ==> r3.1 == Step::Fail(
                (if source is S3 {
                    "Migration file not found in S3: migrations/"@
                } else {
                    "Migration file not found: migrations/"@
                }) + project + "/"@ + target,
            )
            &&& at < files.len() ==> {
                &&& r3.1 == Step::<Seq<char>>::Do(Action::ReadFile { key: files[at].key })
                &&& r4.1 == Step::<Seq<char>>::Do(
                    Action::RecordNoop { filename: target, checksum: sum, comment },
                )
                &&& r5.1 == Step::<Seq<char>>::Do(
                    Action::Audit {
                        entry: AuditEntry {
                            project,
                            operation: "noop"@,
                            filename: Some(target),
                            checksum: Some(sum),
                            status: "success"@,
                            error_message: None,
                            duration_ms: Some(0i32),
                            comment: Some(comment),
                        },
                    },
                )
                &&& r6.1 == Step::Finish(
                    Response {
                        operation: "noop"@,
                        project,
                        applied: None,
                        rolled_back: None,
                        baselined: None,
                        duration_ms: None,
                        key: None,
                        db: None,
                        file: Some(target),
                        comment: Some(comment),
                        status: None,
                    },
                )
            }
        }),
{
    first_of_name(files, target, 0, at);
}

proof fn first_of_name(files: Seq<FileModel>, name: Seq<char>, from: int, at: int)
    requires
        0 <= from <= at <= files.len(),
        forall|i: int| from <= i < at ==> (#[trigger] files[i]).filename != name,
        at < files.len() ==> files[at].filename == name,
    ensures
        super::noop::find_file(files, name, from) == at,
    decreases at - from,
{
    if from < at {
        assert(files[from].filename != name);
        first_of_name(files, name, from + 1, at);
    }
}

/// A recording ends with the error of whatever it needs that fails.
pub proof fn a_failing_recording_ends(m: NoopModel, error: Seq<char>)
    requires
        !(m.phase is Ended),
        !(m.phase is Auditing),
    ensures
        m.next(EventModel::Failed(error)).1 == Step::Fail(error),
{
}

// ---------------------------------------------------------------------------
// Dropping and restoring
// ---------------------------------------------------------------------------

/// Dropping ends every session on the database, drops it, and writes that down.
pub proof fn a_database_is_dropped(
    project: Seq<char>,
    db: Seq<char>,
    error: Seq<char>,
    last: EventModel,
)
    requires
        last is Done || last is Failed,
    ensures
        ({
            let m0 = DropModel::start(project, db);
            let r1 = m0.next(EventModel::Done);
            let r2 = r1.0.next(EventModel::Done);
            let r3 = r2.0.next(EventModel::Done);
            let r4 = r3.0.next(last);
            &&& r1.1 == Step::<Seq<char>>::Do(Action::TerminateBackends { db })
            &&& r2.1 == Step::<Seq<char>>::Do(Action::DropDatabase { db })
            &&& r3.1 == Step::<Seq<char>>::Do(
                Action::Audit {
                    entry: AuditEntry {
                        project,
                        operation: "drop"@,
                        filename: None,
                        checksum: None,
                        status: "success"@,
                        error_message: None,
                        duration_ms: None,
                        comment: None,
                    },
                },
            )
            &&& r4.1 == Step::Finish(
                Response {
                    operation: "drop"@,
                    project,
                    applied: None,
                    rolled_back: None,
                    baselined: None,
                    duration_ms: None,
                    key: None,
                    db: Some(db),
                    file: None,
                    comment: None,
                    status: None,
                },
            )
            &&& m0.next(EventModel::Failed(error)).1 == Step::Fail(error)
            &&& r1.0.next(EventModel::Failed(error)).1 == Step::Fail(error)
            &&& r2.0.next(EventModel::Failed(error)).1 == Step::Fail(error)
        }),
{
}

/// How a restoring stands before the migration at an index.
pub open spec fn restores_on(
    m: RestoreModel,
    r: (RestoreModel, Step<Seq<char>>),
    index: int,
    baselined: int,
) -> bool {
    &&& r.0.project == m.project && r.0.db == m.db && r.0.target == m.target && r.0.comment
        == m.comment
    &&& r.0.index == index && r.0.baselined == baselined
    &&& index < r.0.files.len() ==> r.0.phase is Querying && r.1 == Step::<Seq<char>>::Do(
        Action::QueryRecorded { filename: r.0.files[index].filename },
    )
    &&& index >= r.0.files.len() ==> r.0.phase is Auditing && r.1 == Step::<Seq<char>>::Do(
        Action::Audit {
            entry: AuditEntry {
                project: m.project,
                operation: "restore"@,
                filename: Some(m.target),
                checksum: None,
                status: "success"@,
                error_message: None,
                duration_ms: Some(r.0.duration_ms as i32),
                comment: Some(m.comment),
            },
        },
    )
}

/// A restoring drops the database, creates it anew, runs what is left of the
/// dump, and grants the roles what they need; then it lists the migrations.
pub proof fn a_dump_is_restored(
    project: Seq<char>,
    db: Seq<char>,
    target: Seq<char>,
    comment: Seq<char>,
    raw: Seq<char>,
    files: Seq<FileModel>,
    t0: u128,
    t1: u128,
)
    requires
        t0 <= t1,
        (t1 - t0) / 1_000_000 <= u64::MAX,
    ensures
        ({
            let m0 = RestoreModel::start(project, db, target, comment);
            let done = EventModel::Done;
            let r1 = m0.next(done, t0);
            let r2 = r1.0.next(done, t0);
            let r3 = r2.0.next(done, t0);
            let r4 = r3.0.next(done, t0);
            let r5 = r4.0.next(done, t0);
            let r6 = r5.0.next(EventModel::Content(raw), t0);
            let r7 = r6.0.next(done, t1);
            let r8 = r7.0.next(done, t0);
            let r9 = r8.0.next(done, t0);
            let r10 = r9.0.next(done, t0);
            let r11 = r10.0.next(done, t0);
            let r12 = r11.0.next(EventModel::Files(files), t0);
            let role = project + "_app"@;
            let reader = project + "_reader"@;
            &&& r1.1 == Step::<Seq<char>>::Do(Action::TerminateBackends { db })
            &&& r2.1 == Step::<Seq<char>>::Do(Action::DropDatabase { db })
            &&& r3.1 == Step::<Seq<char>>::Do(Action::CreateDatabase { db })
            &&& r4.1 == Step::<Seq<char>>::Do(Action::ConnectProject { db })
            &&& r5.1 == Step::<Seq<char>>::Do(Action::ReadFile { key: target })
            &&& r6.1 == Step::<Seq<char>>::Do(Action::RunScript { sql: ops::dump::cleaned(raw) })
            &&& r7.1 == Step::<Seq<char>>::Do(Action::SetSearchPath)
            &&& r7.0.duration_ms == (t1 - t0) / 1_000_000
            &&& r8.1 == Step::<Seq<char>>::Do(
                Action::GrantSchema { role, indent: Indent::Wide },
            )
            &&& r9.1 == Step::<Seq<char>>::Do(
                Action::GrantReader { role, reader, membership: true },
            )
            &&& r10.1 == Step::<Seq<char>>::Do(Action::InitTracking)
            &&& r11.1 == Step::<Seq<char>>::Do(
                Action::ListFiles { prefix: "migrations/"@ + project + "/"@ + ""@ },
            )
            &&& r12.0.files == files && r12.0.duration_ms == (t1 - t0) / 1_000_000
            &&& restores_on(m0, r12, 0, 0)
        }),
{
}

/// A migration that the restored database tracks is left alone; any other is
/// tracked as not run, with the checksum of its content and the comment, and
/// counted. At the end the dump, how long it ran and the number are reported.
pub proof fn a_migration_is_baselined(
    m: RestoreModel,
    sql: Seq<char>,
    now: u128,
    error: Seq<char>,
    last: EventModel,
)
    requires
        last is Done || last is Failed,
    ensures
        m.phase is Querying && 0 <= m.index < m.files.len() ==> {
            let file = m.files[m.index];
            let found = m.next(EventModel::Found(true), now);
            let r1 = m.next(EventModel::Found(false), now);
            let r2 = r1.0.next(EventModel::Content(sql), now);
            let r3 = r2.0.next(EventModel::Done, now);
            &&& found.0.files == m.files && found.0.duration_ms == m.duration_ms
            &&& restores_on(m, found, m.index + 1, m.baselined)
            &&& r1.1 == Step::<Seq<char>>::Do(Action::ReadFile { key: file.key })
            &&& r2.1 == Step::<Seq<char>>::Do(
                Action::RecordNoop {
                    filename: file.filename,
                    checksum: checksum::checksum_spec(sql),
                    comment: m.comment,
                },
            )
            &&& r3.0.files == m.files && r3.0.duration_ms == m.duration_ms
            &&& restores_on(m, r3, m.index + 1, m.baselined + 1)
        },
        m.phase is Auditing ==> m.next(last, now).1 == Step::Finish(
            Response {
                operation: "restore"@,
                project: m.project,
                applied: None,
                rolled_back: None,
                baselined: Some(m.baselined as i32),
                duration_ms: Some(m.duration_ms),
                key: Some(m.target),
                db: None,
                file: None,
                comment: None,
                status: None,
            },
        ),
        !(m.phase is Auditing) ==> m.next(EventModel::Failed(error), now).1 == Step::Fail(error),
{
}

} // verus!
