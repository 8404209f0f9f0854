//! What a run of migrations does to a world.

use vstd::prelude::*;

use super::migrate::{MigrateModel, MigratePhase};
use super::world::{Data, Machine, Row, World};
use super::{Action, AuditEntry, EventModel, Step};
use crate::checksum;
use crate::ops;
use crate::ops::migrate;
use crate::ops::world;
use crate::storage::FileModel;
use crate::text;

verus! {

impl Machine for MigrateModel {
    open spec fn awaits(self, event: EventModel) -> bool {
        self.expects(event)
    }

    open spec fn after(self, event: EventModel, now: u128) -> (Self, Step<Seq<char>>) {
        self.next(event, now)
    }
}

/// The migration files of a project.
pub open spec fn migrations(w: World, project: Seq<char>) -> Seq<FileModel> {
    world::listing(w.files, ops::files_prefix(project, ""@))
}

/// How a run of the project's migrations ends in a world after at most `fuel`
/// actions.
pub open spec fn migrate_run(w: World, project: Seq<char>, fuel: nat) -> (Step<Seq<char>>, World) {
    world::run(MigrateModel::start(project), Step::Do(Action::InitTracking), w, fuel)
}

/// How many actions are enough for a run.
pub open spec fn migrate_fuel(w: World, project: Seq<char>) -> nat {
    6 * migrations(w, project).len() + 3
}

/// The row of a file that was run.
pub open spec fn row_of(w: World, file: FileModel) -> Row {
    Row {
        filename: file.filename,
        checksum: checksum::checksum_spec(w.files[file.key]),
        noop: false,
        comment: None,
    }
}

/// The world after a file was run.
pub open spec fn with_file(w: World, project: Seq<char>, file: FileModel) -> World {
    let sum = checksum::checksum_spec(w.files[file.key]);
    w.with_data(
        Data {
            rows: w.data.rows.push(row_of(w, file)),
            scripts: w.data.scripts.push(w.files[file.key]),
        },
    ).audited(ops::success_entry("migrate"@, project, file.filename, Some(sum), 0))
}

/// The world after a file was refused.
pub open spec fn with_refusal(
    w: World,
    project: Seq<char>,
    file: FileModel,
    error: Seq<char>,
) -> World {
    let sum = checksum::checksum_spec(w.files[file.key]);
    w.audited(ops::error_entry("migrate"@, project, file.filename, Some(sum), error))
}

/// How a run ends that has the files from `i` on before it: files that were
/// tracked at the start are passed over, the others are run in order, and the
/// first that is not what was tracked, or that fails, ends the run.
pub open spec fn migrate_from(
    w: World,
    project: Seq<char>,
    files: Seq<FileModel>,
    applied: Map<Seq<char>, Seq<char>>,
    i: int,
    count: int,
) -> (Step<Seq<char>>, World)
    decreases files.len() - i,
{
    if i >= files.len() {
        (Step::Finish(migrate::migrated(project, count)), w)
    } else {
        let file = files[i];
        let sql = w.files[file.key];
        if applied.contains_key(file.filename) {
            if applied[file.filename] == checksum::checksum_spec(sql) {
                migrate_from(w, project, files, applied, i + 1, count)
            } else {
                let error = migrate::mismatch(file.filename);
                (Step::Fail(error), with_refusal(w, project, file, error))
            }
        } else {
            match (w.error)(w.data.scripts, sql) {
                Some(error) => (Step::Fail(error), with_refusal(w, project, file, error)),
                None => migrate_from(
                    with_file(w, project, file),
                    project,
                    files,
                    applied,
                    i + 1,
                    count + 1,
                ),
            }
        }
    }
}

/// What holds while the files from `i` on are still to be dealt with.
spec fn open_run(
    w: World,
    files: Seq<FileModel>,
    applied: Map<Seq<char>, Seq<char>>,
    i: int,
) -> bool {
    &&& w.saved is None
    &&& 0 <= i <= files.len() <= i32::MAX
    &&& forall|k: int| i <= k < files.len() ==> w.files.contains_key((#[trigger] files[k]).key)
    &&& forall|k: int|
        i <= k < files.len() ==> (world::is_tracked(w.data.rows, (#[trigger] files[k]).filename)
            <==> applied.contains_key(files[k].filename))
    &&& forall|j: int, k: int|
        0 <= j < k < files.len() ==> (#[trigger] files[j]).filename != (
        #[trigger] files[k]).filename
}

proof fn still_open(
    w: World,
    project: Seq<char>,
    files: Seq<FileModel>,
    applied: Map<Seq<char>, Seq<char>>,
    i: int,
)
    requires
        open_run(w, files, applied, i),
        i < files.len(),
    ensures
        open_run(w, files, applied, i + 1),
        open_run(with_file(w, project, files[i]), files, applied, i + 1),
{
    world::tracked_more(w.data.rows, row_of(w, files[i]));
}

proof fn run_from(m: MigrateModel, w: World, fuel: nat)
    requires
        open_run(w, m.files, m.applied, m.index),
        0 <= m.count <= m.index,
        fuel >= 6 * (m.files.len() - m.index),
    ensures
        world::run(m.proceed().0, m.proceed().1, w, fuel) == migrate_from(
            w,
            m.project,
            m.files,
            m.applied,
            m.index,
            m.count,
        ),
    decreases m.files.len() - m.index,
{
    if m.index < m.files.len() {
        reveal_with_fuel(world::run, 7);
        let file = m.files[m.index];
        let sql = w.files[file.key];
        let sum = checksum::checksum_spec(sql);
        still_open(w, m.project, m.files, m.applied, m.index);
        let (reading, _) = m.proceed();
        if m.applied.contains_key(file.filename) {
            let next = MigrateModel { index: m.index + 1, ..reading };
            if m.applied[file.filename] == sum {
                run_from(next, w, (fuel - 1) as nat);
            }
        } else if (w.error)(w.data.scripts, sql) is None {
            let next = MigrateModel {
                index: m.index + 1,
                count: m.count + 1,
                phase: MigratePhase::Auditing,
                ..m
            };
            let done = with_file(w, m.project, file);
            run_from(next, done, (fuel - 6) as nat);
            run_of_file(m, w, fuel);
        } else {
            assert(World { data: w.data, saved: None, ..w } == w);
        }
    }
}

/// The actions that run a file.
proof fn run_of_file(m: MigrateModel, w: World, fuel: nat)
    requires
        open_run(w, m.files, m.applied, m.index),
        0 <= m.index < m.files.len(),
        0 <= m.count <= m.index,
        fuel >= 6,
        !m.applied.contains_key(m.files[m.index].filename),
        (w.error)(w.data.scripts, w.files[m.files[m.index].key]) is None,
    ensures
        ({
            let next = MigrateModel {
                index: m.index + 1,
                count: m.count + 1,
                phase: MigratePhase::Auditing,
                ..m
            };
            world::run(m.proceed().0, m.proceed().1, w, fuel) == world::run(
                next.proceed().0,
                next.proceed().1,
                with_file(w, m.project, m.files[m.index]),
                (fuel - 6) as nat,
            )
        }),
{
    reveal_with_fuel(world::run, 7);
    let file = m.files[m.index];
    let sql = w.files[file.key];
    let w1 = World { saved: Some(w.data), ..w };
    let w2 = w1.perform(Action::RunScript { sql }).1;
    let w3 = w2.tracking(row_of(w, file)).1;
    let w4 = World { saved: None, ..w3 };
    assert(w4 == w.with_data(
        Data { rows: w.data.rows.push(row_of(w, file)), scripts: w.data.scripts.push(sql) },
    ));
}

/// A run ends, and it ends as [`migrate_from`] says.
pub proof fn migrate_runs(w: World, project: Seq<char>, fuel: nat)
    requires
        w.ready(ops::files_prefix(project, ""@)),
        fuel >= migrate_fuel(w, project),
    ensures
        migrate_run(w, project, fuel) == migrate_from(
            w,
            project,
            migrations(w, project),
            world::checksums(w.data.rows),
            0,
            0,
        ),
{
    reveal_with_fuel(world::run, 4);
    let m0 = MigrateModel::start(project);
    let files = migrations(w, project);
    let m = MigrateModel {
        files,
        applied: world::checksums(w.data.rows),
        phase: MigratePhase::Querying,
        ..m0
    };
    world::checksums_of_rows(w.data.rows);
    run_from(m, w, (fuel - 3) as nat);
}

/// The files from `i` on that are not tracked.
pub open spec fn pending(
    files: Seq<FileModel>,
    applied: Map<Seq<char>, Seq<char>>,
    i: int,
) -> Seq<FileModel>
    decreases files.len() - i,
{
    if i >= files.len() {
        Seq::empty()
    } else if applied.contains_key(files[i].filename) {
        pending(files, applied, i + 1)
    } else {
        seq![files[i]] + pending(files, applied, i + 1)
    }
}

/// The pending migrations of a project.
pub open spec fn pending_of(w: World, project: Seq<char>) -> Seq<FileModel> {
    pending(migrations(w, project), world::checksums(w.data.rows), 0)
}

/// The contents of files.
pub open spec fn contents(w: World, files: Seq<FileModel>) -> Seq<Seq<char>> {
    files.map_values(|f: FileModel| w.files[f.key])
}

/// The rows of files that were run.
pub open spec fn rows_of(w: World, files: Seq<FileModel>) -> Seq<Row> {
    files.map_values(|f: FileModel| row_of(w, f))
}

/// The audit line of a file that was run, without its duration.
pub open spec fn success_line(w: World, project: Seq<char>, file: FileModel) -> AuditEntry<
    Seq<char>,
> {
    let sum = checksum::checksum_spec(w.files[file.key]);
    world::untimed(ops::success_entry("migrate"@, project, file.filename, Some(sum), 0))
}

/// The audit lines of files that were run, without their durations.
pub open spec fn success_lines(w: World, project: Seq<char>, files: Seq<FileModel>) -> Seq<
    AuditEntry<Seq<char>>,
> {
    files.map_values(|f: FileModel| success_line(w, project, f))
}

/// The world after files were run.
pub open spec fn with_files(w: World, project: Seq<char>, files: Seq<FileModel>) -> World {
    World {
        data: Data {
            rows: w.data.rows + rows_of(w, files),
            scripts: w.data.scripts + contents(w, files),
        },
        audits: w.audits + success_lines(w, project, files),
        ..w
    }
}

/// Whether a tracked file is not what was tracked under its name.
pub open spec fn differs(w: World, applied: Map<Seq<char>, Seq<char>>, file: FileModel) -> bool {
    applied.contains_key(file.filename) && applied[file.filename] != checksum::checksum_spec(
        w.files[file.key],
    )
}

/// Why a run is refused at a file, after some were run.
pub open spec fn refused(
    w: World,
    applied: Map<Seq<char>, Seq<char>>,
    file: FileModel,
    error: Seq<char>,
) -> bool {
    ||| differs(w, applied, file) && error == migrate::mismatch(file.filename)
    ||| !applied.contains_key(file.filename) && (w.error)(w.data.scripts, w.files[file.key])
        == Some(error)
}

proof fn with_no_files(w: World, project: Seq<char>)
    ensures
        with_files(w, project, Seq::empty()) == w,
{
    let a = with_files(w, project, Seq::empty());
    assert(a.data.rows =~= w.data.rows);
    assert(a.data.scripts =~= w.data.scripts);
    assert(a.audits =~= w.audits);
}

/// The files before `i` that are not tracked.
pub open spec fn pending_before(
    files: Seq<FileModel>,
    applied: Map<Seq<char>, Seq<char>>,
    i: int,
) -> Seq<FileModel>
    decreases i,
{
    if i <= 0 {
        Seq::empty()
    } else if applied.contains_key(files[i - 1].filename) {
        pending_before(files, applied, i - 1)
    } else {
        pending_before(files, applied, i - 1).push(files[i - 1])
    }
}

/// What is pending is what is pending before a file and from it on.
pub proof fn pending_in_two(files: Seq<FileModel>, applied: Map<Seq<char>, Seq<char>>, i: int)
    requires
        0 <= i <= files.len(),
    ensures
        pending(files, applied, 0) == pending_before(files, applied, i) + pending(
            files,
            applied,
            i,
        ),
    decreases i,
{
    if i > 0 {
        pending_in_two(files, applied, i - 1);
        assert(pending_before(files, applied, i) + pending(files, applied, i)
            =~= pending_before(files, applied, i - 1) + pending(files, applied, i - 1));
    } else {
        assert(pending_before(files, applied, 0) + pending(files, applied, 0) =~= pending(
            files,
            applied,
            0,
        ));
    }
}

/// Whether a run that ended as `ended` ran the pending files before the one at
/// `at`, which are the first of the pending ones, and was refused at that one:
/// the first that is refused, since no tracked file before it differs and each
/// pending one succeeded.
pub open spec fn refused_at(
    w: World,
    project: Seq<char>,
    files: Seq<FileModel>,
    applied: Map<Seq<char>, Seq<char>>,
    ended: (Step<Seq<char>>, World),
    at: int,
) -> bool {
    let done = pending_before(files, applied, at);
    let error = ended.0->Fail_0;
    &&& 0 <= at < files.len()
    &&& done.is_prefix_of(pending(files, applied, 0))
    &&& forall|k: int| 0 <= k < at ==> !differs(w, applied, #[trigger] files[k])
    &&& runs_through(w, done)
    &&& refused(with_files(w, project, done), applied, files[at], error)
    &&& ended.1 == with_refusal(with_files(w, project, done), project, files[at], error)
}

/// Whether a run that ended as `ended` was refused at one of the files.
pub open spec fn is_refused(
    w: World,
    project: Seq<char>,
    files: Seq<FileModel>,
    applied: Map<Seq<char>, Seq<char>>,
    ended: (Step<Seq<char>>, World),
) -> bool {
    exists|at: int| refused_at(w, project, files, applied, ended, at)
}

proof fn runs_one_more(w: World, files: Seq<FileModel>, file: FileModel)
    requires
        runs_through(w, files),
        (w.error)(w.data.scripts + contents(w, files), w.files[file.key]) is None,
    ensures
        runs_through(w, files.push(file)),
{
    let more = files.push(file);
    assert forall|n: int| 0 <= n < more.len() implies (w.error)(
        w.data.scripts + contents(w, more.take(n)),
        w.files[(#[trigger] more[n]).key],
    ) is None by {
        if n < files.len() {
            assert(more[n] == files[n]);
            assert(more.take(n) =~= files.take(n));
        } else {
            assert(more.take(n) =~= files);
        }
    }
}

/// How a run that has dealt with the files before `i` ends, seen from its start
/// in `w0`.
proof fn outcome_from(
    w0: World,
    w: World,
    project: Seq<char>,
    files: Seq<FileModel>,
    applied: Map<Seq<char>, Seq<char>>,
    i: int,
    count: int,
)
    requires
        0 <= i <= files.len(),
        w == with_files(w0, project, pending_before(files, applied, i)),
        count == pending_before(files, applied, i).len(),
        forall|k: int| 0 <= k < i ==> !differs(w0, applied, #[trigger] files[k]),
        runs_through(w0, pending_before(files, applied, i)),
    ensures
        ({
            let ended = migrate_from(w, project, files, applied, i, count);
            let all = pending(files, applied, 0);
            &&& !(ended.0 is Do)
            &&& ended.0 is Finish ==> {
                &&& ended == (
                    Step::<Seq<char>>::Finish(migrate::migrated(project, all.len() as int)),
                    with_files(w0, project, all),
                )
                &&& forall|k: int|
                    0 <= k < files.len() ==> !differs(w0, applied, #[trigger] files[k])
                &&& runs_through(w0, all)
            }
            &&& ended.0 is Fail ==> is_refused(w0, project, files, applied, ended)
        }),
    decreases files.len() - i,
{
    let ended = migrate_from(w, project, files, applied, i, count);
    let done = pending_before(files, applied, i);
    let all = pending(files, applied, 0);
    pending_in_two(files, applied, i);
    assert(done.is_prefix_of(all)) by {
        assert(done =~= all.subrange(0, done.len() as int));
    }
    if i >= files.len() {
        assert(all =~= done);
    } else {
        let file = files[i];
        if applied.contains_key(file.filename) {
            if differs(w0, applied, file) {
                assert(ended.0 == Step::<Seq<char>>::Fail(migrate::mismatch(file.filename)));
                assert(refused_at(w0, project, files, applied, ended, i));
            } else {
                outcome_from(w0, w, project, files, applied, i + 1, count);
            }
        } else {
            match (w.error)(w.data.scripts, w.files[file.key]) {
                Some(error) => {
                    assert(ended.0 == Step::<Seq<char>>::Fail(error));
                    assert(refused_at(w0, project, files, applied, ended, i));
                },
                None => {
                    let next = with_file(w, project, file);
                    let goal = with_files(w0, project, done.push(file));
                    assert(next.data.rows =~= goal.data.rows);
                    assert(next.data.scripts =~= goal.data.scripts);
                    assert(next.audits =~= goal.audits);
                    assert(next == goal);
                    runs_one_more(w0, done, file);
                    outcome_from(w0, next, project, files, applied, i + 1, count + 1);
                },
            }
        }
    }
}

proof fn outcome(w: World, project: Seq<char>)
    ensures
        ({
            let files = migrations(w, project);
            let applied = world::checksums(w.data.rows);
            let ended = migrate_from(w, project, files, applied, 0, 0);
            let all = pending_of(w, project);
            &&& !(ended.0 is Do)
            &&& ended.0 is Finish ==> {
                &&& ended == (
                    Step::<Seq<char>>::Finish(migrate::migrated(project, all.len() as int)),
                    with_files(w, project, all),
                )
                &&& forall|k: int|
                    0 <= k < files.len() ==> !differs(w, applied, #[trigger] files[k])
                &&& runs_through(w, all)
            }
            &&& ended.0 is Fail ==> is_refused(w, project, files, applied, ended)
        }),
{
    let files = migrations(w, project);
    let applied = world::checksums(w.data.rows);
    with_no_files(w, project);
    outcome_from(w, w, project, files, applied, 0, 0);
}

/// A run ends. When it succeeds, the pending migrations have been run and
/// tracked in order, each with an audit line, and their number is reported;
/// nothing else has changed, no tracked file differs from what was run, and each
/// of the pending migrations succeeded after the ones before it.
pub proof fn migrate_applies_pending(w: World, project: Seq<char>, fuel: nat)
    requires
        w.ready(ops::files_prefix(project, ""@)),
        fuel >= migrate_fuel(w, project),
    ensures
        !(migrate_run(w, project, fuel).0 is Do),
        migrate_run(w, project, fuel).0 is Finish ==> {
            let left = pending_of(w, project);
            &&& migrate_run(w, project, fuel) == (
                Step::Finish(migrate::migrated(project, left.len() as int)),
                with_files(w, project, left),
            )
            &&& forall|i: int|
                0 <= i < migrations(w, project).len() ==> !differs(
                    w,
                    world::checksums(w.data.rows),
                    #[trigger] migrations(w, project)[i],
                )
            &&& runs_through(w, left)
        },
{
    migrate_runs(w, project, fuel);
    outcome(w, project);
}

/// A run that fails leaves the migrations that were run before, and only
/// those, in effect and tracked: of the one that was refused nothing is left
/// but its audit line, and no transaction is open. It is the first one that was
/// refused, for a checksum that differs or with the error of its script.
pub proof fn migrate_fails_whole(w: World, project: Seq<char>, fuel: nat)
    requires
        w.ready(ops::files_prefix(project, ""@)),
        fuel >= migrate_fuel(w, project),
        migrate_run(w, project, fuel).0 is Fail,
    ensures
        is_refused(
            w,
            project,
            migrations(w, project),
            world::checksums(w.data.rows),
            migrate_run(w, project, fuel),
        ),
        migrate_run(w, project, fuel).1.saved is None,
{
    migrate_runs(w, project, fuel);
    outcome(w, project);
}

/// The pending migrations are the files that are not tracked, in the order of
/// their names.
pub proof fn pending_in_order(w: World, project: Seq<char>)
    requires
        w.ready(ops::files_prefix(project, ""@)),
    ensures
        forall|f: FileModel| #[trigger]
            pending_of(w, project).contains(f) <==> migrations(w, project).contains(f)
                && !world::is_tracked(w.data.rows, f.filename),
        forall|i: int, j: int|
            0 <= i < j < pending_of(w, project).len() ==> {
                &&& text::text_le(
                    (#[trigger] pending_of(w, project)[i]).filename,
                    (#[trigger] pending_of(w, project)[j]).filename,
                )
                &&& pending_of(w, project)[i].filename != pending_of(w, project)[j].filename
            },
{
    world::checksums_of_rows(w.data.rows);
    pending_from(migrations(w, project), world::checksums(w.data.rows), 0);
    assert forall|f: FileModel| #[trigger] pending_of(w, project).contains(f) <==> migrations(
        w,
        project,
    ).contains(f) && !world::is_tracked(w.data.rows, f.filename) by {
        let files = migrations(w, project);
        let left = pending_of(w, project);
        if left.contains(f) {
            let k = choose|k: int| 0 <= k < left.len() && left[k] == f;
            assert(left[k] == f);
        }
        if files.contains(f) && !world::is_tracked(w.data.rows, f.filename) {
            let k = choose|k: int| 0 <= k < files.len() && files[k] == f;
            assert(files[k] == f);
        }
    }
}

spec fn ascends(files: Seq<FileModel>) -> bool {
    forall|i: int, j: int|
        0 <= i < j < files.len() ==> {
            &&& text::text_le((#[trigger] files[i]).filename, (#[trigger] files[j]).filename)
            &&& files[i].filename != files[j].filename
        }
}

proof fn pending_from(files: Seq<FileModel>, applied: Map<Seq<char>, Seq<char>>, i: int)
    requires
        0 <= i <= files.len(),
        ascends(files),
    ensures
        ({
            let left = pending(files, applied, i);
            &&& ascends(left)
            &&& forall|k: int|
                0 <= k < left.len() ==> {
                    &&& files.skip(i).contains(#[trigger] left[k])
                    &&& files.contains(left[k])
                    &&& !applied.contains_key(left[k].filename)
                }
            &&& forall|k: int|
                i <= k < files.len() && !applied.contains_key((#[trigger] files[k]).filename)
                    ==> left.contains(files[k])
        }),
    decreases files.len() - i,
{
    if i < files.len() {
        pending_from(files, applied, i + 1);
        let rest = pending(files, applied, i + 1);
        let left = pending(files, applied, i);
        let tail = files.skip(i);
        assert(tail[0] == files[i]);
        assert forall|k: int| 0 <= k < rest.len() implies tail.contains(#[trigger] rest[k])
            && text::text_le(files[i].filename, rest[k].filename) && files[i].filename
            != rest[k].filename by {
            let later = files.skip(i + 1);
            let t = choose|t: int| 0 <= t < later.len() && later[t] == rest[k];
            assert(tail[t + 1] == rest[k]);
            assert(files[i + 1 + t] == rest[k]);
        }
        if !applied.contains_key(files[i].filename) {
            assert(left[0] == files[i]);
            assert forall|k: int| 0 < k < left.len() implies #[trigger] left[k] == rest[k - 1] by {}
            assert forall|k: int|
                i <= k < files.len() && !applied.contains_key((#[trigger] files[k]).filename)
                implies left.contains(files[k]) by {
                if k > i {
                    let t = choose|t: int| 0 <= t < rest.len() && rest[t] == files[k];
                    assert(left[t + 1] == files[k]);
                }
            }
        }
    }
}

proof fn nothing_from(
    w: World,
    project: Seq<char>,
    files: Seq<FileModel>,
    applied: Map<Seq<char>, Seq<char>>,
    i: int,
)
    requires
        0 <= i <= files.len(),
        forall|k: int|
            0 <= k < files.len() ==> applied.contains_key((#[trigger] files[k]).filename)
                && !differs(w, applied, files[k]),
    ensures
        migrate_from(w, project, files, applied, i, 0) == (
            Step::<Seq<char>>::Finish(migrate::migrated(project, 0)),
            w,
        ),
    decreases files.len() - i,
{
    if i < files.len() {
        assert(applied.contains_key(files[i].filename));
        nothing_from(w, project, files, applied, i + 1);
    }
}

/// A run finds nothing to do and changes nothing where every migration is
/// tracked and none differs from what is tracked.
pub proof fn nothing_to_migrate(w: World, project: Seq<char>, fuel: nat)
    requires
        w.ready(ops::files_prefix(project, ""@)),
        fuel >= migrate_fuel(w, project),
        forall|i: int|
            0 <= i < migrations(w, project).len() ==> world::is_tracked(
                w.data.rows,
                (#[trigger] migrations(w, project)[i]).filename,
            ) && !differs(w, world::checksums(w.data.rows), migrations(w, project)[i]),
    ensures
        migrate_run(w, project, fuel) == (
            Step::<Seq<char>>::Finish(migrate::migrated(project, 0)),
            w,
        ),
{
    world::checksums_of_rows(w.data.rows);
    migrate_runs(w, project, fuel);
    nothing_from(w, project, migrations(w, project), world::checksums(w.data.rows), 0);
}

/// After a run has succeeded every migration is tracked with its checksum, and
/// no name twice.
pub proof fn migrate_tracks_all(w: World, project: Seq<char>, fuel: nat)
    requires
        w.ready(ops::files_prefix(project, ""@)),
        fuel >= migrate_fuel(w, project),
        migrate_run(w, project, fuel).0 is Finish,
    ensures
        ({
            let end = migrate_run(w, project, fuel).1;
            let files = migrations(w, project);
            &&& world::distinct(end.data.rows)
            &&& forall|i: int|
                0 <= i < files.len() ==> {
                    &&& world::is_tracked(end.data.rows, (#[trigger] files[i]).filename)
                    &&& world::checksums(end.data.rows)[files[i].filename]
                        == checksum::checksum_spec(w.files[files[i].key])
                }
        }),
{
    migrate_applies_pending(w, project, fuel);
    pending_in_order(w, project);
    let files = migrations(w, project);
    let left = pending_of(w, project);
    let end = migrate_run(w, project, fuel).1;
    let more = rows_of(w, left);
    assert forall|i: int| 0 <= i < more.len() implies !world::is_tracked(
        w.data.rows,
        (#[trigger] more[i]).filename,
    ) by {
        assert(left.contains(left[i]));
    }
    assert forall|i: int, j: int| 0 <= i < j < more.len() implies (#[trigger] more[i]).filename != (
    #[trigger] more[j]).filename by {
        assert(left[i].filename != left[j].filename);
    }
    world::tracked_together(w.data.rows, more);
    world::checksums_of_rows(w.data.rows);
    world::checksums_of_rows(end.data.rows);
    assert forall|i: int| 0 <= i < files.len() implies {
        &&& world::is_tracked(end.data.rows, (#[trigger] files[i]).filename)
        &&& world::checksums(end.data.rows)[files[i].filename] == checksum::checksum_spec(
            w.files[files[i].key],
        )
    } by {
        let name = files[i].filename;
        if world::is_tracked(w.data.rows, name) {
            let k = choose|k: int|
                0 <= k < w.data.rows.len() && (#[trigger] w.data.rows[k]).filename == name;
            assert(end.data.rows[k] == w.data.rows[k]);
            assert(!differs(w, world::checksums(w.data.rows), files[i]));
        } else {
            assert(files.contains(files[i]));
            assert(left.contains(files[i]));
            let k = choose|k: int| 0 <= k < left.len() && left[k] == files[i];
            assert(more[k].filename == name);
            assert(end.data.rows[w.data.rows.len() + k] == more[k]);
        }
    }
}

/// A second run after one that has succeeded finds nothing to do and changes
/// nothing.
pub proof fn migrate_idempotent(w: World, project: Seq<char>, fuel: nat, again: nat)
    requires
        w.ready(ops::files_prefix(project, ""@)),
        fuel >= migrate_fuel(w, project),
        again >= migrate_fuel(w, project),
        migrate_run(w, project, fuel).0 is Finish,
    ensures
        migrate_run(migrate_run(w, project, fuel).1, project, again) == (
            Step::<Seq<char>>::Finish(migrate::migrated(project, 0)),
            migrate_run(w, project, fuel).1,
        ),
{
    migrate_tracks_all(w, project, fuel);
    migrate_applies_pending(w, project, fuel);
    let end = migrate_run(w, project, fuel).1;
    nothing_to_migrate(end, project, again);
}

proof fn success_from(
    w: World,
    project: Seq<char>,
    files: Seq<FileModel>,
    applied: Map<Seq<char>, Seq<char>>,
    i: int,
    count: int,
)
    requires
        0 <= i <= files.len(),
        forall|k: int| i <= k < files.len() ==> !differs(w, applied, #[trigger] files[k]),
        runs_through(w, pending(files, applied, i)),
    ensures
        migrate_from(w, project, files, applied, i, count).0 is Finish,
    decreases files.len() - i,
{
    if i < files.len() {
        let file = files[i];
        assert(!differs(w, applied, file));
        if applied.contains_key(file.filename) {
            success_from(w, project, files, applied, i + 1, count);
        } else {
            let left = pending(files, applied, i);
            let rest = pending(files, applied, i + 1);
            let done = with_file(w, project, file);
            assert(left[0] == file);
            assert(w.data.scripts + contents(w, left.take(0)) =~= w.data.scripts);
            assert((w.error)(
                w.data.scripts + contents(w, left.take(0)),
                w.files[left[0].key],
            ) is None);
            assert forall|n: int| 0 <= n < rest.len() implies (done.error)(
                done.data.scripts + contents(done, rest.take(n)),
                done.files[(#[trigger] rest[n]).key],
            ) is None by {
                assert(left[n + 1] == rest[n]);
                assert(done.data.scripts + contents(done, rest.take(n)) =~= w.data.scripts
                    + contents(w, left.take(n + 1)));
            }
            assert forall|k: int| i + 1 <= k < files.len() implies !differs(
                done,
                applied,
                #[trigger] files[k],
            ) by {
                assert(!differs(w, applied, files[k]));
            }
            success_from(done, project, files, applied, i + 1, count + 1);
        }
    }
}

/// Whether each of the files succeeds after the ones before it.
pub open spec fn runs_through(w: World, files: Seq<FileModel>) -> bool {
    forall|n: int|
        0 <= n < files.len() ==> (w.error)(
            w.data.scripts + contents(w, files.take(n)),
            w.files[(#[trigger] files[n]).key],
        ) is None
}

/// A run succeeds where no tracked file differs and every pending migration
/// succeeds after the ones before it.
pub proof fn migrate_succeeds(w: World, project: Seq<char>, fuel: nat)
    requires
        w.ready(ops::files_prefix(project, ""@)),
        fuel >= migrate_fuel(w, project),
        forall|i: int|
            0 <= i < migrations(w, project).len() ==> !differs(
                w,
                world::checksums(w.data.rows),
                #[trigger] migrations(w, project)[i],
            ),
        runs_through(w, pending_of(w, project)),
    ensures
        migrate_run(w, project, fuel).0 is Finish,
{
    migrate_runs(w, project, fuel);
    success_from(
        w,
        project,
        migrations(w, project),
        world::checksums(w.data.rows),
        0,
        0,
    );
}

proof fn mismatch_from(
    w: World,
    project: Seq<char>,
    files: Seq<FileModel>,
    applied: Map<Seq<char>, Seq<char>>,
    i: int,
    count: int,
    at: int,
)
    requires
        0 <= i <= at < files.len(),
        forall|k: int| i <= k < at ==> !differs(w, applied, #[trigger] files[k]),
        forall|scripts: Seq<Seq<char>>, sql: Seq<char>|
            (#[trigger] (w.error)(scripts, sql)) is None,
        differs(w, applied, files[at]),
    ensures
        migrate_from(w, project, files, applied, i, count).0 == Step::<Seq<char>>::Fail(
            migrate::mismatch(files[at].filename),
        ),
    decreases at - i,
{
    if i < at {
        let file = files[i];
        assert(!differs(w, applied, file));
        if applied.contains_key(file.filename) {
            mismatch_from(w, project, files, applied, i + 1, count, at);
        } else {
            let done = with_file(w, project, file);
            assert forall|k: int| i + 1 <= k < at implies !differs(
                done,
                applied,
                #[trigger] files[k],
            ) by {
                assert(!differs(w, applied, files[k]));
            }
            mismatch_from(done, project, files, applied, i + 1, count + 1, at);
        }
    }
}

/// Where no script fails, a run fails with a checksum mismatch for the first
/// tracked file that is not what was run.
pub proof fn migrate_detects_mismatch(w: World, project: Seq<char>, fuel: nat, at: int)
    requires
        w.ready(ops::files_prefix(project, ""@)),
        fuel >= migrate_fuel(w, project),
        0 <= at < migrations(w, project).len(),
        forall|k: int|
            0 <= k < at ==> !differs(
                w,
                world::checksums(w.data.rows),
                #[trigger] migrations(w, project)[k],
            ),
        differs(w, world::checksums(w.data.rows), migrations(w, project)[at]),
        forall|scripts: Seq<Seq<char>>, sql: Seq<char>|
            (#[trigger] (w.error)(scripts, sql)) is None,
    ensures
        migrate_run(w, project, fuel).0 == Step::<Seq<char>>::Fail(
            migrate::mismatch(migrations(w, project)[at].filename),
        ),
{
    migrate_runs(w, project, fuel);
    mismatch_from(
        w,
        project,
        migrations(w, project),
        world::checksums(w.data.rows),
        0,
        0,
        at,
    );
}

} // verus!
