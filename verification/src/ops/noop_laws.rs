//! What the recording of a migration does to a world.

use vstd::prelude::*;

use super::noop::{FileSource, NoopModel};
use super::world::{Data, Machine, Row, World};
use super::{Action, EventModel, Step};
use crate::checksum;
use crate::ops;
use crate::ops::migrate_laws;
use crate::ops::noop;
use crate::ops::world;
use crate::storage::FileModel;

verus! {

impl Machine for NoopModel {
    open spec fn awaits(self, event: EventModel) -> bool {
        self.expects(event)
    }

    open spec fn after(self, event: EventModel, now: u128) -> (Self, Step<Seq<char>>) {
        self.next(event)
    }
}

/// How the recording of a migration ends in a world after at most `fuel`
/// actions.
pub open spec fn noop_run(
    w: World,
    project: Seq<char>,
    target: Seq<char>,
    comment: Seq<char>,
    source: FileSource,
    fuel: nat,
) -> (Step<Seq<char>>, World) {
    world::run(
        NoopModel::start(project, target, comment, source),
        Step::Do(Action::InitTracking),
        w,
        fuel,
    )
}

/// Where the file of a migration stands among the project's migrations.
pub open spec fn place(w: World, project: Seq<char>, target: Seq<char>) -> int {
    noop::find_file(migrate_laws::migrations(w, project), target, 0)
}

/// The world after a migration was recorded.
pub open spec fn with_record(
    w: World,
    project: Seq<char>,
    target: Seq<char>,
    comment: Seq<char>,
) -> World {
    let file = migrate_laws::migrations(w, project)[place(w, project, target)];
    let sum = checksum::checksum_spec(w.files[file.key]);
    let row = Row { filename: target, checksum: sum, noop: true, comment: Some(comment) };
    w.with_data(Data { rows: w.data.rows.push(row), ..w.data }).audited(
        noop::noop_entry(project, target, sum, comment),
    )
}

proof fn found(files: Seq<FileModel>, name: Seq<char>, from: int)
    requires
        0 <= from <= files.len(),
    ensures
        from <= noop::find_file(files, name, from) <= files.len(),
        noop::find_file(files, name, from) < files.len() ==> files[noop::find_file(
            files,
            name,
            from,
        )].filename == name,
        noop::find_file(files, name, from) == files.len() ==> forall|i: int|
            from <= i < files.len() ==> (#[trigger] files[i]).filename != name,
    decreases files.len() - from,
{
    if from < files.len() && files[from].filename != name {
        found(files, name, from + 1);
    }
}

/// The recording of a migration ends. One that is tracked is left alone; one
/// that has no file is refused; any other is tracked with its checksum and the
/// comment, and gets an audit line. Nothing is run.
pub proof fn noop_runs(
    w: World,
    project: Seq<char>,
    target: Seq<char>,
    comment: Seq<char>,
    source: FileSource,
    fuel: nat,
)
    requires
        w.ready(ops::files_prefix(project, ""@)),
        fuel >= 6,
    ensures
        noop_run(w, project, target, comment, source, fuel) == if world::is_tracked(
            w.data.rows,
            target,
        ) {
            (Step::Finish(noop::already_recorded(project, target)), w)
        } else if place(w, project, target) < migrate_laws::migrations(w, project).len() {
            (
                Step::Finish(noop::recorded(project, target, comment)),
                with_record(w, project, target, comment),
            )
        } else {
            (Step::Fail(noop::no_migration_file(source, project, target)), w)
        },
        noop_run(w, project, target, comment, source, fuel).1.data.scripts == w.data.scripts,
{
    reveal_with_fuel(world::run, 7);
    let files = migrate_laws::migrations(w, project);
    found(files, target, 0);
}

/// The file of a migration is the one of its name, where there is one.
pub proof fn place_of_target(w: World, project: Seq<char>, target: Seq<char>)
    ensures
        0 <= place(w, project, target) <= migrate_laws::migrations(w, project).len(),
        place(w, project, target) < migrate_laws::migrations(w, project).len()
            ==> migrate_laws::migrations(w, project)[place(w, project, target)].filename == target,
        place(w, project, target) == migrate_laws::migrations(w, project).len() ==> forall|i: int|
            0 <= i < migrate_laws::migrations(w, project).len() ==> (
            #[trigger] migrate_laws::migrations(w, project)[i]).filename != target,
{
    found(migrate_laws::migrations(w, project), target, 0);
}

/// Recording a migration a second time, with whatever comment, changes nothing
/// and says that it is recorded.
pub proof fn noop_idempotent(
    w: World,
    project: Seq<char>,
    target: Seq<char>,
    first: Seq<char>,
    second: Seq<char>,
    source: FileSource,
    fuel: nat,
)
    requires
        w.ready(ops::files_prefix(project, ""@)),
        fuel >= 6,
        noop_run(w, project, target, first, source, fuel).0 is Finish,
    ensures
        ({
            let end = noop_run(w, project, target, first, source, fuel).1;
            noop_run(end, project, target, second, source, fuel) == (
                Step::<Seq<char>>::Finish(noop::already_recorded(project, target)),
                end,
            )
        }),
{
    noop_runs(w, project, target, first, source, fuel);
    let end = noop_run(w, project, target, first, source, fuel).1;
    if !world::is_tracked(w.data.rows, target) {
        world::tracked_more(w.data.rows, end.data.rows.last());
    }
    assert(end.ready(ops::files_prefix(project, ""@)));
    noop_runs(end, project, target, second, source, fuel);
}

/// A migration that was recorded is no longer pending; the other pending
/// migrations are as before, and the recorded file does not differ from what
/// is tracked. So a run of migrations passes over it.
pub proof fn migrate_passes_over_noop(
    w: World,
    project: Seq<char>,
    target: Seq<char>,
    comment: Seq<char>,
    source: FileSource,
    fuel: nat,
)
    requires
        w.ready(ops::files_prefix(project, ""@)),
        fuel >= 6,
        noop_run(w, project, target, comment, source, fuel).0 is Finish,
        !world::is_tracked(w.data.rows, target),
    ensures
        ({
            let end = noop_run(w, project, target, comment, source, fuel).1;
            let files = migrate_laws::migrations(w, project);
            &&& end.ready(ops::files_prefix(project, ""@))
            &&& migrate_laws::migrations(end, project) == files
            &&& forall|f: FileModel| #[trigger]
                migrate_laws::pending_of(end, project).contains(f) <==> migrate_laws::pending_of(
                    w,
                    project,
                ).contains(f) && f.filename != target
            &&& forall|i: int|
                0 <= i < files.len() && (#[trigger] files[i]).filename == target
                    ==> !migrate_laws::differs(end, world::checksums(end.data.rows), files[i])
        }),
{
    noop_runs(w, project, target, comment, source, fuel);
    let end = noop_run(w, project, target, comment, source, fuel).1;
    let files = migrate_laws::migrations(w, project);
    let row = end.data.rows.last();
    found(files, target, 0);
    world::tracked_more(w.data.rows, row);
    migrate_laws::pending_in_order(w, project);
    migrate_laws::pending_in_order(end, project);
    world::checksums_of_rows(end.data.rows);
    let at = place(w, project, target);
    assert forall|i: int| 0 <= i < files.len() && (
    #[trigger] files[i]).filename == target implies !migrate_laws::differs(
        end,
        world::checksums(end.data.rows),
        files[i],
    ) by {
        if i < at {
            assert(files[i].filename != files[at].filename);
        }
        if at < i {
            assert(files[at].filename != files[i].filename);
        }
        assert(end.data.rows[w.data.rows.len() as int] == row);
    }
}

} // verus!
