//! What a restoring does to a world.

use vstd::prelude::*;

use super::restore::{RestoreModel, RestorePhase};
use super::world::{Data, Row, World};
use super::{Action, EventModel, Step};
use crate::checksum;
use crate::ops;
use crate::ops::dump;
use crate::ops::migrate;
use crate::ops::migrate_laws;
use crate::ops::restore;
use crate::ops::world;
use crate::storage::FileModel;

verus! {

/// What comes of an action of a restoring, and the world after it: a dump that
/// was run leaves the rows `dumped` in the tracking table.
pub open spec fn perform(w: World, action: Action<Seq<char>>, dumped: Seq<Row>) -> (
    EventModel,
    World,
) {
    let (event, after) = w.perform(action);
    if action is RunScript && event is Done {
        (event, after.with_data(Data { rows: dumped, ..after.data }))
    } else {
        (event, after)
    }
}

/// How a restoring goes on in a world and ends after at most `fuel` actions.
pub open spec fn load(
    m: RestoreModel,
    step: Step<Seq<char>>,
    w: World,
    dumped: Seq<Row>,
    fuel: nat,
) -> (Step<Seq<char>>, World)
    decreases fuel,
{
    match step {
        Step::Do(action) => if fuel > 0 {
            let (event, after) = perform(w, action, dumped);
            if m.expects(event) {
                let (next, step) = m.next(event, (w.clock)(fuel));
                load(next, step, after, dumped, (fuel - 1) as nat)
            } else {
                arbitrary()
            }
        } else {
            (step, w)
        },
        _ => (step, w),
    }
}

/// How a restoring ends in a world after at most `fuel` actions, where the dump
/// leaves the rows `dumped` in the tracking table.
pub open spec fn restore_run(
    w: World,
    project: Seq<char>,
    db: Seq<char>,
    target: Seq<char>,
    comment: Seq<char>,
    dumped: Seq<Row>,
    fuel: nat,
) -> (Step<Seq<char>>, World) {
    load(
        RestoreModel::start(project, db, target, comment),
        Step::Do(Action::ConnectAdmin),
        w,
        dumped,
        fuel,
    )
}

/// The row of a migration that a restored database is taken to hold.
pub open spec fn baseline_row(w: World, comment: Seq<char>, file: FileModel) -> Row {
    Row {
        filename: file.filename,
        checksum: checksum::checksum_spec(w.files[file.key]),
        noop: true,
        comment: Some(comment),
    }
}

/// The first `n` files but those that have a row.
pub open spec fn untracked(files: Seq<FileModel>, rows: Seq<Row>, n: int) -> Seq<FileModel>
    decreases n,
{
    if n <= 0 {
        Seq::empty()
    } else if world::is_tracked(rows, files[n - 1].filename) {
        untracked(files, rows, n - 1)
    } else {
        untracked(files, rows, n - 1).push(files[n - 1])
    }
}

/// The rows that a dump left, and one for each of the first `n` files that is
/// not among them.
pub open spec fn baselined(
    w: World,
    comment: Seq<char>,
    files: Seq<FileModel>,
    dumped: Seq<Row>,
    n: int,
) -> Seq<Row> {
    dumped + untracked(files, dumped, n).map_values(
        |f: FileModel| baseline_row(w, comment, f),
    )
}

/// A database that holds nothing.
pub open spec fn nothing() -> Data {
    Data { rows: Seq::empty(), scripts: Seq::empty() }
}

/// The migrations that are not among the rows that a dump left.
pub open spec fn new_files(w: World, project: Seq<char>, dumped: Seq<Row>) -> Seq<FileModel> {
    let files = migrate_laws::migrations(w, project);
    untracked(files, dumped, files.len() as int)
}

/// The world after a restoring has succeeded.
pub open spec fn with_restored(
    w: World,
    project: Seq<char>,
    target: Seq<char>,
    comment: Seq<char>,
    dumped: Seq<Row>,
) -> World {
    World {
        data: Data {
            rows: dumped + new_files(w, project, dumped).map_values(
                |f: FileModel| baseline_row(w, comment, f),
            ),
            scripts: seq![dump::cleaned(w.files[target])],
        },
        audits: w.audits.push(
            world::untimed(restore::restore_entry(project, target, 0, comment)),
        ),
        ..w
    }
}

/// The files without a row are files, in their order, and each of the others has
/// a row.
pub proof fn untracked_files(files: Seq<FileModel>, rows: Seq<Row>, n: int)
    requires
        0 <= n <= files.len(),
    ensures
        forall|f: FileModel| #[trigger]
            untracked(files, rows, n).contains(f) <==> files.take(n).contains(f)
                && !world::is_tracked(rows, f.filename),
        untracked(files, rows, n).len() <= n,
    decreases n,
{
    let these = untracked(files, rows, n);
    if n > 0 {
        untracked_files(files, rows, n - 1);
        let before = untracked(files, rows, n - 1);
        let last = files[n - 1];
        assert(files.take(n) =~= files.take(n - 1).push(last));
        assert forall|f: FileModel| #[trigger] these.contains(f) <==> files.take(n).contains(f)
            && !world::is_tracked(rows, f.filename) by {
            pushed(files.take(n - 1), last, f);
            pushed(before, last, f);
        }
    }
}

proof fn pushed(files: Seq<FileModel>, last: FileModel, f: FileModel)
    ensures
        files.push(last).contains(f) <==> files.contains(f) || f == last,
{
    let more = files.push(last);
    if files.contains(f) {
        let k = choose|k: int| 0 <= k < files.len() && files[k] == f;
        assert(more[k] == f);
    }
    if f == last {
        assert(more[files.len() as int] == f);
    }
    if more.contains(f) {
        let k = choose|k: int| 0 <= k < more.len() && more[k] == f;
        if k < files.len() {
            assert(files[k] == f);
        }
    }
}

/// Whether no two files have one name.
pub open spec fn own_names(files: Seq<FileModel>) -> bool {
    forall|j: int, k: int|
        0 <= j < k < files.len() ==> (#[trigger] files[j]).filename != (
        #[trigger] files[k]).filename
}

/// The rows up to a file tell of it what those of the dump tell.
proof fn still_untracked(
    w: World,
    comment: Seq<char>,
    files: Seq<FileModel>,
    dumped: Seq<Row>,
    i: int,
)
    requires
        0 <= i < files.len(),
        own_names(files),
    ensures
        world::is_tracked(baselined(w, comment, files, dumped, i), files[i].filename)
            <==> world::is_tracked(dumped, files[i].filename),
        baselined(w, comment, files, dumped, i + 1) == if world::is_tracked(
            dumped,
            files[i].filename,
        ) {
            baselined(w, comment, files, dumped, i)
        } else {
            baselined(w, comment, files, dumped, i).push(baseline_row(w, comment, files[i]))
        },
{
    let rows = baselined(w, comment, files, dumped, i);
    let name = files[i].filename;
    let new = untracked(files, dumped, i);
    untracked_files(files, dumped, i);
    if world::is_tracked(dumped, name) {
        let k = choose|k: int| 0 <= k < dumped.len() && (#[trigger] dumped[k]).filename == name;
        assert(rows[k].filename == name);
    } else {
        if world::is_tracked(rows, name) {
            let k = choose|k: int| 0 <= k < rows.len() && (#[trigger] rows[k]).filename == name;
            if k < dumped.len() {
                assert(dumped[k].filename == name);
            } else {
                let f = new[k - dumped.len()];
                assert(new.contains(f));
                let front = files.take(i);
                let j = choose|j: int| 0 <= j < front.len() && front[j] == f;
                assert(files[j].filename == files[i].filename);
            }
        }
        assert(baselined(w, comment, files, dumped, i + 1) =~= rows.push(
            baseline_row(w, comment, files[i]),
        ));
    }
}

/// The baseline of the migrations from the index on.
proof fn run_from(m: RestoreModel, w0: World, w: World, dumped: Seq<Row>, fuel: nat)
    requires
        0 <= m.index <= m.files.len() <= i32::MAX,
        m.baselined == untracked(m.files, dumped, m.index).len(),
        own_names(m.files),
        forall|k: int|
            0 <= k < m.files.len() ==> w0.files.contains_key((#[trigger] m.files[k]).key),
        w == (World {
            data: Data {
                rows: baselined(w0, m.comment, m.files, dumped, m.index),
                scripts: w.data.scripts,
            },
            ..w0
        }),
        fuel >= 3 * (m.files.len() - m.index) + 1,
    ensures
        load(m.proceed().0, m.proceed().1, w, dumped, fuel) == (
            Step::<Seq<char>>::Finish(
                restore::restored(
                    m.project,
                    m.target,
                    m.duration_ms,
                    untracked(m.files, dumped, m.files.len() as int).len() as int,
                ),
            ),
            World {
                data: Data {
                    rows: baselined(w0, m.comment, m.files, dumped, m.files.len() as int),
                    scripts: w.data.scripts,
                },
                audits: w0.audits.push(
                    world::untimed(restore::restore_entry(m.project, m.target, 0, m.comment)),
                ),
                ..w0
            },
        ),
    decreases m.files.len() - m.index,
{
    reveal_with_fuel(load, 4);
    if m.index < m.files.len() {
        let file = m.files[m.index];
        still_untracked(w0, m.comment, m.files, dumped, m.index);
        let found = world::is_tracked(dumped, file.filename);
        if found {
            let next = RestoreModel {
                index: m.index + 1,
                phase: RestorePhase::Querying,
                ..m
            };
            run_from(next, w0, w, dumped, (fuel - 1) as nat);
        } else {
            let next = RestoreModel {
                index: m.index + 1,
                baselined: m.baselined + 1,
                phase: RestorePhase::Recording,
                ..m
            };
            let row = baseline_row(w0, m.comment, file);
            let done = w.with_data(Data { rows: w.data.rows.push(row), ..w.data });
            run_from(next, w0, done, dumped, (fuel - 3) as nat);
        }
    }
}

/// A restoring up to the dump: the database is emptied.
proof fn run_to_dump(w: World, m: RestoreModel, dumped: Seq<Row>, fuel: nat)
    requires
        m.phase == RestorePhase::Connecting,
        fuel >= 5,
    ensures
        load(m, Step::Do(Action::ConnectAdmin), w, dumped, fuel) == load(
            m.waiting(RestorePhase::Loading),
            Step::Do(Action::ReadFile { key: m.target }),
            w.with_data(nothing()),
            dumped,
            (fuel - 5) as nat,
        ),
{
    reveal_with_fuel(load, 6);
}

/// A restoring between the dump and the baseline.
proof fn run_to_baseline(w: World, m: RestoreModel, dumped: Seq<Row>, fuel: nat)
    requires
        m.phase == RestorePhase::SettingPath,
        migrate_laws::migrations(w, m.project).len() <= i32::MAX,
        fuel >= 5,
    ensures
        ({
            let files = migrate_laws::migrations(w, m.project);
            let next = RestoreModel { files, phase: RestorePhase::Listing, ..m };
            load(m, Step::Do(Action::SetSearchPath), w, dumped, fuel) == load(
                next.proceed().0,
                next.proceed().1,
                w,
                dumped,
                (fuel - 5) as nat,
            )
        }),
{
    reveal_with_fuel(load, 6);
}

/// A restoring ends. It fails where the dump is missing or its script fails on
/// an empty database, and leaves the database empty. Otherwise the dump has
/// been run on an empty database; the rows that it left in the tracking table
/// are kept, and every migration that is not among them is tracked as one that
/// was not run, with the comment. The number of these is reported.
pub proof fn restore_runs(
    w: World,
    project: Seq<char>,
    db: Seq<char>,
    target: Seq<char>,
    comment: Seq<char>,
    dumped: Seq<Row>,
    fuel: nat,
)
    requires
        w.ready(ops::files_prefix(project, ""@)),
        fuel >= 3 * migrate_laws::migrations(w, project).len() + 13,
    ensures
        ({
            let ended = restore_run(w, project, db, target, comment, dumped, fuel);
            let count = new_files(w, project, dumped).len() as int;
            let error = (w.error)(Seq::empty(), dump::cleaned(w.files[target]));
            if !w.files.contains_key(target) {
                ended == (
                    Step::<Seq<char>>::Fail(world::not_found(target)),
                    w.with_data(nothing()),
                )
            } else if error is Some {
                ended == (Step::<Seq<char>>::Fail(error->0), w.with_data(nothing()))
            } else {
                &&& exists|ms: u64|
                    ended.0 == Step::<Seq<char>>::Finish(
                        #[trigger] restore::restored(project, target, ms, count),
                    )
                &&& ended.1 == with_restored(w, project, target, comment, dumped)
            }
        }),
{
    reveal_with_fuel(load, 3);
    let files = migrate_laws::migrations(w, project);
    let sql = dump::cleaned(w.files[target]);
    let empty = w.with_data(nothing());
    let m = RestoreModel::start(project, db, target, comment);
    run_to_dump(w, m, dumped, fuel);
    if w.files.contains_key(target) && (w.error)(Seq::empty(), sql) is None {
        let start = (w.clock)((fuel - 5) as nat);
        let now = (w.clock)((fuel - 6) as nat);
        let ms = ops::elapsed_ms(start, now) as u64;
        let path = RestoreModel { duration_ms: ms, phase: RestorePhase::SettingPath, ..m };
        let listed = RestoreModel { files, phase: RestorePhase::Listing, ..path };
        let loaded = empty.with_data(
            Data { rows: dumped, scripts: Seq::<Seq<char>>::empty().push(sql) },
        );
        run_to_baseline(loaded, path, dumped, (fuel - 7) as nat);
        assert(baselined(w, comment, files, dumped, 0) =~= dumped);
        run_from(listed, w, loaded, dumped, (fuel - 12) as nat);
        assert(Seq::<Seq<char>>::empty().push(sql) =~= seq![sql]);
    }
}

/// After a restoring has succeeded every migration is tracked. So a run of
/// migrations finds nothing to do, provided that the rows that the dump left,
/// no two of one name, were written for the files as they are.
pub proof fn restored_is_migrated(
    w: World,
    project: Seq<char>,
    db: Seq<char>,
    target: Seq<char>,
    comment: Seq<char>,
    dumped: Seq<Row>,
    fuel: nat,
    again: nat,
)
    requires
        w.ready(ops::files_prefix(project, ""@)),
        fuel >= 3 * migrate_laws::migrations(w, project).len() + 13,
        again >= migrate_laws::migrate_fuel(w, project),
        restore_run(w, project, db, target, comment, dumped, fuel).0 is Finish,
        world::distinct(dumped),
    ensures
        ({
            let end = restore_run(w, project, db, target, comment, dumped, fuel).1;
            let files = migrate_laws::migrations(w, project);
            &&& forall|i: int|
                0 <= i < files.len() ==> world::is_tracked(
                    end.data.rows,
                    (#[trigger] files[i]).filename,
                )
            &&& (forall|i: int|
                0 <= i < files.len() ==> !migrate_laws::differs(
                    w,
                    world::checksums(dumped),
                    #[trigger] files[i],
                )) ==> migrate_laws::migrate_run(end, project, again) == (
                Step::<Seq<char>>::Finish(migrate::migrated(project, 0)),
                end,
            )
        }),
{
    restore_runs(w, project, db, target, comment, dumped, fuel);
    let end = restore_run(w, project, db, target, comment, dumped, fuel).1;
    let files = migrate_laws::migrations(w, project);
    let new = new_files(w, project, dumped);
    let more = new.map_values(|f: FileModel| baseline_row(w, comment, f));
    let rows = end.data.rows;
    assert(rows == dumped + more);
    untracked_files(files, dumped, files.len() as int);
    assert(files.take(files.len() as int) =~= files);
    untracked_names(files, dumped, files.len() as int);
    assert forall|i: int, j: int| 0 <= i < j < more.len() implies (#[trigger] more[i]).filename != (
    #[trigger] more[j]).filename by {
        assert(new[i].filename != new[j].filename);
    }
    assert forall|i: int| 0 <= i < more.len() implies !world::is_tracked(
        dumped,
        (#[trigger] more[i]).filename,
    ) by {
        assert(new.contains(new[i]));
    }
    world::tracked_together(dumped, more);
    world::checksums_of_rows(rows);
    world::checksums_of_rows(dumped);
    assert forall|i: int| 0 <= i < files.len() implies {
        &&& world::is_tracked(rows, (#[trigger] files[i]).filename)
        &&& !migrate_laws::differs(w, world::checksums(dumped), files[i])
            ==> !migrate_laws::differs(end, world::checksums(rows), files[i])
    } by {
        let name = files[i].filename;
        if world::is_tracked(dumped, name) {
            let k = choose|k: int| 0 <= k < dumped.len() && (#[trigger] dumped[k]).filename == name;
            assert(rows[k] == dumped[k]);
        } else {
            assert(files.contains(files[i]));
            assert(new.contains(files[i]));
            let k = choose|k: int| 0 <= k < new.len() && new[k] == files[i];
            assert(more[k] == baseline_row(w, comment, files[i]));
            assert(rows[dumped.len() + k] == more[k]);
            assert(rows[dumped.len() + k].filename == name);
        }
    }
    if forall|i: int|
        0 <= i < files.len() ==> !migrate_laws::differs(
            w,
            world::checksums(dumped),
            #[trigger] files[i],
        ) {
        migrate_laws::nothing_to_migrate(end, project, again);
    }
}

proof fn untracked_names(files: Seq<FileModel>, rows: Seq<Row>, n: int)
    requires
        0 <= n <= files.len(),
        own_names(files),
    ensures
        own_names(untracked(files, rows, n)),
    decreases n,
{
    if n > 0 {
        untracked_names(files, rows, n - 1);
        untracked_files(files, rows, n - 1);
        let before = untracked(files, rows, n - 1);
        let these = untracked(files, rows, n);
        let front = files.take(n - 1);
        assert forall|j: int, k: int| 0 <= j < k < these.len() implies (
        #[trigger] these[j]).filename != (#[trigger] these[k]).filename by {
            if k < before.len() {
                assert(before[j].filename != before[k].filename);
            } else {
                assert(before.contains(before[j]));
                let t = choose|t: int| 0 <= t < front.len() && front[t] == before[j];
                assert(files[t].filename != files[n - 1].filename);
            }
        }
    }
}

} // verus!
