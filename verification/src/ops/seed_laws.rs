//! What a run of seed files does to a world.

use vstd::prelude::*;

use super::seed::{SeedModel, SeedPhase};
use super::world::{Data, Machine, SeedRun, World};
use super::{Action, AuditEntry, EventModel, Step};
use crate::checksum;
use crate::ops;
use crate::ops::migrate_laws;
use crate::ops::seed;
use crate::ops::world;
use crate::storage::FileModel;

verus! {

impl Machine for SeedModel {
    open spec fn awaits(self, event: EventModel) -> bool {
        self.expects(event)
    }

    open spec fn after(self, event: EventModel, now: u128) -> (Self, Step<Seq<char>>) {
        self.next(event, now)
    }
}

/// Where the seed files of a project are.
pub open spec fn seed_prefix(project: Seq<char>) -> Seq<char> {
    ops::files_prefix(project, "seed/"@)
}

/// The seed files of a project.
pub open spec fn seed_files(w: World, project: Seq<char>) -> Seq<FileModel> {
    world::listing(w.files, seed_prefix(project))
}

/// How a run of the project's seed files ends in a world after at most `fuel`
/// actions.
pub open spec fn seed_run(w: World, project: Seq<char>, fuel: nat) -> (Step<Seq<char>>, World) {
    world::run(
        SeedModel::start(project),
        Step::Do(Action::ListFiles { prefix: seed_prefix(project) }),
        w,
        fuel,
    )
}

/// The checksum of a file.
pub open spec fn sum(w: World, file: FileModel) -> Seq<char> {
    checksum::checksum_spec(w.files[file.key])
}

/// The audit line of a seed file that was run, without its duration.
pub open spec fn seed_line(w: World, project: Seq<char>, file: FileModel) -> AuditEntry<Seq<char>> {
    world::untimed(
        ops::success_entry("seed"@, project, file.filename, Some(sum(w, file)), 0),
    )
}

/// The note of a seed file that was run.
pub open spec fn seed_note(w: World, project: Seq<char>, file: FileModel) -> SeedRun {
    SeedRun { project, filename: file.filename, checksum: sum(w, file) }
}

/// The world after seed files were run.
pub open spec fn with_seeds(w: World, project: Seq<char>, files: Seq<FileModel>) -> World {
    World {
        data: Data {
            scripts: w.data.scripts + migrate_laws::contents(w, files),
            ..w.data
        },
        audits: w.audits + files.map_values(|f: FileModel| seed_line(w, project, f)),
        seeds: w.seeds + files.map_values(|f: FileModel| seed_note(w, project, f)),
        ..w
    }
}

/// The world after a seed file failed.
pub open spec fn with_failure(
    w: World,
    project: Seq<char>,
    file: FileModel,
    error: Seq<char>,
) -> World {
    w.audited(
        ops::error_entry("seed"@, project, file.filename, Some(sum(w, file)), error),
    )
}

/// How a run ends that has run the files before `i`.
pub open spec fn seed_from(w: World, project: Seq<char>, files: Seq<FileModel>, i: int) -> (
    Step<Seq<char>>,
    World,
)
    decreases files.len() - i,
{
    if i >= files.len() {
        (Step::Finish(seed::seeded(project, i)), w)
    } else {
        match (w.error)(w.data.scripts, w.files[files[i].key]) {
            Some(error) => (Step::Fail(error), with_failure(w, project, files[i], error)),
            None => seed_from(with_seeds(w, project, seq![files[i]]), project, files, i + 1),
        }
    }
}

proof fn run_of_file(m: SeedModel, w: World, fuel: nat)
    requires
        0 <= m.index < m.files.len() <= i32::MAX,
        w.files.contains_key(m.files[m.index].key),
        fuel >= 4,
        (w.error)(w.data.scripts, w.files[m.files[m.index].key]) is None,
    ensures
        ({
            let next = SeedModel { index: m.index + 1, phase: SeedPhase::Auditing, ..m };
            world::run(m.proceed().0, m.proceed().1, w, fuel) == world::run(
                next.proceed().0,
                next.proceed().1,
                with_seeds(w, m.project, seq![m.files[m.index]]),
                (fuel - 4) as nat,
            )
        }),
{
    reveal_with_fuel(world::run, 5);
    let file = m.files[m.index];
    let sql = w.files[file.key];
    let w1 = w.perform(Action::RunScript { sql }).1;
    let w2 = World { seeds: w1.seeds.push(seed_note(w, m.project, file)), ..w1 };
    let w3 = World { audits: w2.audits.push(seed_line(w, m.project, file)), ..w2 };
    let end = with_seeds(w, m.project, seq![file]);
    assert(w3.data.scripts =~= end.data.scripts);
    assert(w3.audits =~= end.audits);
    assert(w3.seeds =~= end.seeds);
    assert(w3 == end);
}

proof fn run_from(m: SeedModel, w: World, fuel: nat)
    requires
        0 <= m.index <= m.files.len() <= i32::MAX,
        forall|k: int|
            0 <= k < m.files.len() ==> w.files.contains_key((#[trigger] m.files[k]).key),
        fuel >= 4 * (m.files.len() - m.index),
    ensures
        world::run(m.proceed().0, m.proceed().1, w, fuel) == seed_from(
            w,
            m.project,
            m.files,
            m.index,
        ),
    decreases m.files.len() - m.index,
{
    if m.index < m.files.len() {
        let file = m.files[m.index];
        let sql = w.files[file.key];
        match (w.error)(w.data.scripts, sql) {
            None => {
                let next = SeedModel { index: m.index + 1, phase: SeedPhase::Auditing, ..m };
                run_of_file(m, w, fuel);
                run_from(next, with_seeds(w, m.project, seq![file]), (fuel - 4) as nat);
            },
            Some(_) => {
                reveal_with_fuel(world::run, 5);
            },
        }
    }
}

/// Whether a run that ended as `ended` ran the first `n` of the files, and the
/// next one failed.
pub open spec fn failed_at(
    w: World,
    project: Seq<char>,
    files: Seq<FileModel>,
    ended: (Step<Seq<char>>, World),
    n: int,
) -> bool {
    let before = with_seeds(w, project, files.take(n));
    &&& 0 <= n < files.len()
    &&& (w.error)(before.data.scripts, w.files[files[n].key]) == Some(ended.0->Fail_0)
    &&& ended.1 == with_failure(before, project, files[n], ended.0->Fail_0)
}

proof fn outcome_from(w0: World, w: World, project: Seq<char>, files: Seq<FileModel>, i: int)
    requires
        0 <= i <= files.len(),
        w == with_seeds(w0, project, files.take(i)),
    ensures
        ({
            let ended = seed_from(w, project, files, i);
            &&& !(ended.0 is Do)
            &&& ended.0 is Finish ==> ended == (
                Step::<Seq<char>>::Finish(seed::seeded(project, files.len() as int)),
                with_seeds(w0, project, files),
            )
            &&& ended.0 is Fail ==> exists|n: int| failed_at(w0, project, files, ended, n)
            &&& migrate_laws::runs_through(w0, files) ==> ended.0 is Finish
        }),
    decreases files.len() - i,
{
    let ended = seed_from(w, project, files, i);
    if i >= files.len() {
        assert(files.take(i) =~= files);
    } else {
        match (w.error)(w.data.scripts, w.files[files[i].key]) {
            Some(error) => {
                assert(ended.0 == Step::<Seq<char>>::Fail(error));
                assert(failed_at(w0, project, files, ended, i));
            },
            None => {
                let next = with_seeds(w, project, seq![files[i]]);
                let sofar = files.take(i + 1);
                let goal = with_seeds(w0, project, sofar);
                assert(sofar =~= files.take(i) + seq![files[i]]);
                assert(next.data.scripts =~= goal.data.scripts);
                assert(next.audits =~= goal.audits);
                assert(next.seeds =~= goal.seeds);
                assert(next == goal);
                outcome_from(w0, next, project, files, i + 1);
            },
        }
    }
}

/// A run ends. When it succeeds, every seed file has been run in the order of
/// the names, noted and given an audit line, their number is reported, and
/// what is tracked is as before. When it fails, the files before the one that
/// failed have been run and only those. It succeeds where every file succeeds
/// after the ones before it.
pub proof fn seed_runs_all(w: World, project: Seq<char>, fuel: nat)
    requires
        w.ready(seed_prefix(project)),
        fuel >= 4 * seed_files(w, project).len() + 1,
    ensures
        ({
            let ended = seed_run(w, project, fuel);
            let files = seed_files(w, project);
            &&& !(ended.0 is Do)
            &&& ended.0 is Finish ==> ended == (
                Step::<Seq<char>>::Finish(seed::seeded(project, files.len() as int)),
                with_seeds(w, project, files),
            )
            &&& ended.0 is Fail ==> exists|n: int| failed_at(w, project, files, ended, n)
            &&& migrate_laws::runs_through(w, files) ==> ended.0 is Finish
        }),
{
    reveal_with_fuel(world::run, 2);
    let files = seed_files(w, project);
    let m = SeedModel { files, ..SeedModel::start(project) };
    run_from(m, w, (fuel - 1) as nat);
    let start = with_seeds(w, project, files.take(0));
    assert(start.data.scripts =~= w.data.scripts);
    assert(start.audits =~= w.audits);
    assert(start.seeds =~= w.seeds);
    assert(start == w);
    outcome_from(w, w, project, files, 0);
}

} // verus!
