//! What is left of a run of migrations or of a roll-back when any of its
//! actions may fail.

use vstd::prelude::*;

use super::migrate::{MigrateModel, MigratePhase};
use super::rollback::{RollbackModel, RollbackPhase};
use super::world::{Data, World};
use super::{Action, EventModel, Step};
use crate::checksum;
use crate::ops;
use crate::ops::migrate_laws;
use crate::ops::rollback_laws;
use crate::ops::world;

verus! {

/// The database after the pending migrations before `i` were run.
pub open spec fn migrated_before(w: World, project: Seq<char>, i: int) -> Data {
    let files = migrate_laws::migrations(w, project);
    let done = migrate_laws::pending_before(files, world::checksums(w.data.rows), i);
    migrate_laws::with_files(w, project, done).data
}

spec fn common(w0: World, project: Seq<char>, m: MigrateModel, w: World) -> bool {
    &&& m.project == project
    &&& m.files == migrate_laws::migrations(w0, project)
    &&& m.applied == world::checksums(w0.data.rows)
    &&& 0 <= m.index <= m.files.len() <= i32::MAX
    &&& 0 <= m.count
    &&& w.files == w0.files
    &&& w.error == w0.error
}

/// What holds at every moment of a run.
spec fn sound(
    w0: World,
    project: Seq<char>,
    m: MigrateModel,
    step: Step<Seq<char>>,
    w: World,
) -> bool {
    let at = migrated_before(w0, project, m.index);
    let file = m.files[m.index];
    let sql = w0.files[file.key];
    let open = common(w0, project, m, w) && m.index < m.files.len();
    let pending = open && !m.applied.contains_key(file.filename);
    match m.phase {
        MigratePhase::Tracking => {
            &&& m == MigrateModel::start(project)
            &&& step == Step::<Seq<char>>::Do(Action::InitTracking)
            &&& w.data == w0.data && w.saved is None
            &&& w.files == w0.files && w.error == w0.error
        },
        MigratePhase::Listing => {
            &&& m == (MigrateModel { phase: MigratePhase::Listing, ..MigrateModel::start(project) })
            &&& step == Step::<Seq<char>>::Do(
                Action::ListFiles { prefix: ops::files_prefix(project, ""@) },
            )
            &&& w.data == w0.data && w.saved is None
            &&& w.files == w0.files && w.error == w0.error
        },
        MigratePhase::Querying => {
            &&& m.project == project && m.index == 0 && m.count == 0
            &&& m.files == migrate_laws::migrations(w0, project)
            &&& step == Step::<Seq<char>>::Do(Action::QueryApplied)
            &&& w.data == w0.data && w.saved is None
            &&& w.files == w0.files && w.error == w0.error
        },
        MigratePhase::Reading => {
            &&& open && m.count <= m.index
            &&& step == Step::<Seq<char>>::Do(Action::ReadFile { key: file.key })
            &&& w.data == at && w.saved is None
        },
        MigratePhase::Beginning { sql: s, checksum, .. } => {
            &&& pending && m.count <= m.index
            &&& s == sql && checksum == checksum::checksum_spec(sql)
            &&& step == Step::<Seq<char>>::Do(Action::Begin)
            &&& w.data == at && w.saved is None
        },
        MigratePhase::Running { checksum, .. } => {
            &&& pending && m.count <= m.index
            &&& checksum == checksum::checksum_spec(sql)
            &&& step == Step::<Seq<char>>::Do(Action::RunScript { sql })
            &&& w.data == at && w.saved == Some(at)
        },
        MigratePhase::Recording { checksum, duration_ms } => {
            &&& pending && m.count <= m.index
            &&& checksum == checksum::checksum_spec(sql)
            &&& step == Step::<Seq<char>>::Do(
                Action::Record { filename: file.filename, checksum, duration_ms },
            )
            &&& w.data == Data { scripts: at.scripts.push(sql), ..at }
            &&& w.saved == Some(at)
        },
        MigratePhase::Committing { .. } => {
            &&& pending && m.count <= m.index
            &&& step == Step::<Seq<char>>::Do(Action::Commit)
            &&& w.data == migrated_before(w0, project, m.index + 1)
            &&& w.saved == Some(at)
        },
        MigratePhase::Auditing => {
            &&& pending && m.count <= m.index + 1
            &&& step is Do && step->Do_0 is Audit
            &&& w.data == migrated_before(w0, project, m.index + 1) && w.saved is None
        },
        MigratePhase::RollingBack { .. } => {
            &&& open
            &&& step == Step::<Seq<char>>::Do(Action::Rollback)
            &&& w.data == at && w.saved == Some(at)
        },
        MigratePhase::Failing { .. } => {
            &&& open
            &&& step is Do && step->Do_0 is Audit
            &&& w.committed() == at
        },
        MigratePhase::Ended => {
            &&& !(step is Do)
            &&& kept_front(w0, project, w)
            &&& step is Finish ==> w.saved is None && w.data == migrated_before(
                w0,
                project,
                migrate_laws::migrations(w0, project).len() as int,
            )
        },
    }
}

/// Whether what is left of the project's database is that after the pending
/// migrations before some file were run.
pub open spec fn kept_front(w0: World, project: Seq<char>, w: World) -> bool {
    exists|i: int|
        0 <= i <= migrate_laws::migrations(w0, project).len() && w.committed()
            == #[trigger] migrated_before(w0, project, i)
}

proof fn one_more(w: World, project: Seq<char>, i: int)
    requires
        0 <= i < migrate_laws::migrations(w, project).len(),
    ensures
        ({
            let files = migrate_laws::migrations(w, project);
            let applied = world::checksums(w.data.rows);
            let before = migrated_before(w, project, i);
            migrated_before(w, project, i + 1) == if applied.contains_key(files[i].filename) {
                before
            } else {
                Data {
                    rows: before.rows.push(migrate_laws::row_of(w, files[i])),
                    scripts: before.scripts.push(w.files[files[i].key]),
                }
            }
        }),
{
    let files = migrate_laws::migrations(w, project);
    let before = migrated_before(w, project, i);
    let after = migrated_before(w, project, i + 1);
    if !world::checksums(w.data.rows).contains_key(files[i].filename) {
        assert(after.rows =~= before.rows.push(migrate_laws::row_of(w, files[i])));
        assert(after.scripts =~= before.scripts.push(w.files[files[i].key]));
    }
}

proof fn none_yet(w: World, project: Seq<char>)
    ensures
        migrated_before(w, project, 0) == w.data,
{
    let start = migrated_before(w, project, 0);
    assert(start.rows =~= w.data.rows);
    assert(start.scripts =~= w.data.scripts);
}

/// One action of a run, whether it fails or not.
proof fn sound_next(
    w0: World,
    project: Seq<char>,
    m: MigrateModel,
    step: Step<Seq<char>>,
    w: World,
    outage: Option<Seq<char>>,
    now: u128,
)
    requires
        w0.ready(ops::files_prefix(project, ""@)),
        sound(w0, project, m, step, w),
        step is Do,
    ensures
        ({
            let (event, after) = match outage {
                Some(error) => (EventModel::Failed(error), w),
                None => w.perform(step->Do_0),
            };
            let (next, more) = m.next(event, now);
            m.expects(event) && sound(w0, project, next, more, after)
        }),
{
    let (event, after) = match outage {
        Some(error) => (EventModel::Failed(error), w),
        None => w.perform(step->Do_0),
    };
    let (next, more) = m.next(event, now);
    none_yet(w0, project);
    if m.index < migrate_laws::migrations(w0, project).len() {
        one_more(w0, project, m.index);
    }
    if next.phase is Ended {
        if m.phase is Tracking || m.phase is Listing || m.phase is Querying {
            assert(after.committed() == migrated_before(w0, project, 0));
        } else if m.phase is Auditing || (m.phase is Reading && event is Content) {
            assert(after.committed() == migrated_before(w0, project, m.index + 1));
        } else {
            assert(after.committed() == migrated_before(w0, project, m.index));
        }
    }
}

proof fn sound_always(
    w0: World,
    project: Seq<char>,
    m: MigrateModel,
    step: Step<Seq<char>>,
    w: World,
    outages: spec_fn(nat) -> Option<Seq<char>>,
    fuel: nat,
)
    requires
        w0.ready(ops::files_prefix(project, ""@)),
        sound(w0, project, m, step, w),
    ensures
        ({
            let (end, after) = world::shaky_run(m, step, w, outages, fuel);
            &&& kept_front(w0, project, after)
            &&& end is Finish ==> after.saved is None && after.data == migrated_before(
                w0,
                project,
                migrate_laws::migrations(w0, project).len() as int,
            )
        }),
    decreases fuel,
{
    if step is Do && fuel > 0 {
        let now = (w.clock)(fuel);
        sound_next(w0, project, m, step, w, outages(fuel), now);
        let (event, after) = match outages(fuel) {
            Some(error) => (EventModel::Failed(error), w),
            None => w.perform(step->Do_0),
        };
        let (next, more) = m.next(event, now);
        sound_always(w0, project, next, more, after, outages, (fuel - 1) as nat);
    } else {
        none_yet(w0, project);
        if m.phase is Committing || m.phase is Auditing {
            assert(m.index + 1 <= m.files.len());
        }
        if m.phase is Auditing {
            assert(w.committed() == migrated_before(w0, project, m.index + 1));
        } else if m.phase is Tracking || m.phase is Listing || m.phase is Querying {
            assert(w.committed() == migrated_before(w0, project, 0));
        } else if !(m.phase is Ended) {
            assert(w.committed() == migrated_before(w0, project, m.index));
        }
    }
}

/// Whatever actions of a run fail, and wherever it is cut off, the database is
/// left as it is after the pending migrations before some file were run: each of
/// those is in effect and tracked, and nothing else has changed. A run that
/// succeeds has run all of them.
pub proof fn migrate_survives_outages(
    w: World,
    project: Seq<char>,
    outages: spec_fn(nat) -> Option<Seq<char>>,
    fuel: nat,
)
    requires
        w.ready(ops::files_prefix(project, ""@)),
    ensures
        ({
            let (end, after) = world::shaky_run(
                MigrateModel::start(project),
                Step::Do(Action::InitTracking),
                w,
                outages,
                fuel,
            );
            &&& kept_front(w, project, after)
            &&& end is Finish ==> after.saved is None && after.data == migrated_before(
                w,
                project,
                migrate_laws::migrations(w, project).len() as int,
            )
        }),
{
    sound_always(
        w,
        project,
        MigrateModel::start(project),
        Step::Do(Action::InitTracking),
        w,
        outages,
        fuel,
    );
}

/// The database after the first `n` of the tracked migrations were rolled back,
/// from the last one on.
pub open spec fn undone_before(w: World, project: Seq<char>, n: int) -> Data {
    rollback_laws::undone_all(
        w,
        project,
        rollback_laws::rollback_keys(w, project),
        world::names_descending(w.data.rows).take(n),
    ).data
}

/// Whether what is left of the project's database is that after some of the
/// migrations that do not stay were rolled back, from the last one on.
pub open spec fn kept_back(
    w0: World,
    project: Seq<char>,
    target: Option<Seq<char>>,
    w: World,
) -> bool {
    exists|n: int|
        0 <= n <= rollback_laws::leavers(w0, target) && w.committed() == #[trigger] undone_before(
            w0,
            project,
            n,
        )
}

/// What holds at every moment of a roll-back.
spec fn undoing(
    w0: World,
    project: Seq<char>,
    target: Option<Seq<char>>,
    m: RollbackModel,
    step: Step<Seq<char>>,
    w: World,
) -> bool {
    let names = world::names_descending(w0.data.rows);
    let keys = rollback_laws::rollback_keys(w0, project);
    let leavers = rollback_laws::leavers(w0, target);
    let at = undone_before(w0, project, m.index);
    let sql = w0.files[keys[names[m.index]]];
    let same = m.project == project && m.target == target && w.files == w0.files && w.error
        == w0.error;
    let open = same && m.names == names && m.keys == keys && 0 <= m.index < leavers && m.index
        < names.len() <= i32::MAX && 0 <= m.count;
    let known = open && keys.contains_key(names[m.index]) && m.count == m.index;
    match m.phase {
        RollbackPhase::Querying => {
            &&& same && m.index == 0 && m.count == 0
            &&& step == Step::<Seq<char>>::Do(Action::QueryAppliedNames)
            &&& w.data == w0.data && w.saved is None
        },
        RollbackPhase::Listing => {
            &&& same && m.names == names && m.index == 0 && m.count == 0 && names.len() <= i32::MAX
            &&& step == Step::<Seq<char>>::Do(
                Action::ListFiles { prefix: rollback_laws::rollback_prefix(project) },
            )
            &&& w.data == w0.data && w.saved is None
        },
        RollbackPhase::Reading => {
            &&& known
            &&& step == Step::<Seq<char>>::Do(Action::ReadFile { key: keys[names[m.index]] })
            &&& w.data == at && w.saved is None
        },
        RollbackPhase::Beginning { sql: s, .. } => {
            &&& known && s == sql
            &&& step == Step::<Seq<char>>::Do(Action::Begin)
            &&& w.data == at && w.saved is None
        },
        RollbackPhase::Running { .. } => {
            &&& known
            &&& step == Step::<Seq<char>>::Do(Action::RunScript { sql })
            &&& w.data == at && w.saved == Some(at)
        },
        RollbackPhase::Unrecording { .. } => {
            &&& known
            &&& step == Step::<Seq<char>>::Do(Action::Unrecord { filename: names[m.index] })
            &&& w.data == Data { scripts: at.scripts.push(sql), ..at }
            &&& w.saved == Some(at)
        },
        RollbackPhase::Committing { .. } => {
            &&& known
            &&& step == Step::<Seq<char>>::Do(Action::Commit)
            &&& w.data == undone_before(w0, project, m.index + 1)
            &&& w.saved == Some(at)
        },
        RollbackPhase::Auditing => {
            &&& open && m.count == m.index + 1
            &&& step is Do && step->Do_0 is Audit
            &&& w.data == undone_before(w0, project, m.index + 1) && w.saved is None
        },
        RollbackPhase::RollingBack { .. } => {
            &&& open
            &&& step == Step::<Seq<char>>::Do(Action::Rollback)
            &&& w.data == at && w.saved == Some(at)
        },
        RollbackPhase::Failing { .. } => {
            &&& open
            &&& step is Do && step->Do_0 is Audit
            &&& w.committed() == at
        },
        RollbackPhase::Ended => {
            &&& !(step is Do)
            &&& kept_back(w0, project, target, w)
            &&& step is Finish ==> w.saved is None && w.data == undone_before(
                w0,
                project,
                leavers,
            )
        },
    }
}

proof fn one_more_undone(w: World, project: Seq<char>, i: int)
    requires
        0 <= i < world::names_descending(w.data.rows).len(),
    ensures
        ({
            let name = world::names_descending(w.data.rows)[i];
            let before = undone_before(w, project, i);
            undone_before(w, project, i + 1) == Data {
                rows: world::without(before.rows, name),
                scripts: before.scripts.push(
                    w.files[rollback_laws::rollback_keys(w, project)[name]],
                ),
            }
        }),
{
    let names = world::names_descending(w.data.rows);
    let keys = rollback_laws::rollback_keys(w, project);
    assert(names.take(i + 1).drop_last() =~= names.take(i));
    rollback_laws::undone_all_facts(w, project, keys, names.take(i));
}

proof fn none_undone(w: World, project: Seq<char>)
    ensures
        undone_before(w, project, 0) == w.data,
{
    assert(world::names_descending(w.data.rows).take(0) =~= Seq::empty());
}

/// One action of a roll-back, whether it fails or not.
proof fn undoing_next(
    w0: World,
    project: Seq<char>,
    target: Option<Seq<char>>,
    m: RollbackModel,
    step: Step<Seq<char>>,
    w: World,
    outage: Option<Seq<char>>,
    now: u128,
)
    requires
        w0.ready(rollback_laws::rollback_prefix(project)),
        w0.data.rows.len() <= i32::MAX,
        undoing(w0, project, target, m, step, w),
        step is Do,
    ensures
        ({
            let (event, after) = match outage {
                Some(error) => (EventModel::Failed(error), w),
                None => w.perform(step->Do_0),
            };
            let (next, more) = m.next(event, now);
            m.expects(event) && undoing(w0, project, target, next, more, after)
        }),
{
    let (event, after) = match outage {
        Some(error) => (EventModel::Failed(error), w),
        None => w.perform(step->Do_0),
    };
    let (next, more) = m.next(event, now);
    let names = world::names_descending(w0.data.rows);
    none_undone(w0, project);
    world::descending_names(w0.data.rows);
    rollback_laws::leavers_lead(w0, target);
    if m.index < names.len() {
        one_more_undone(w0, project, m.index);
    }
    if next.phase is Ended {
        if m.phase is Querying || m.phase is Listing {
            assert(after.committed() == undone_before(w0, project, 0));
        } else if m.phase is Auditing {
            assert(after.committed() == undone_before(w0, project, m.index + 1));
        } else {
            assert(after.committed() == undone_before(w0, project, m.index));
        }
    }
}

proof fn undoing_always(
    w0: World,
    project: Seq<char>,
    target: Option<Seq<char>>,
    m: RollbackModel,
    step: Step<Seq<char>>,
    w: World,
    outages: spec_fn(nat) -> Option<Seq<char>>,
    fuel: nat,
)
    requires
        w0.ready(rollback_laws::rollback_prefix(project)),
        w0.data.rows.len() <= i32::MAX,
        undoing(w0, project, target, m, step, w),
    ensures
        ({
            let (end, after) = world::shaky_run(m, step, w, outages, fuel);
            &&& kept_back(w0, project, target, after)
            &&& end is Finish ==> after.saved is None && after.data == undone_before(
                w0,
                project,
                rollback_laws::leavers(w0, target),
            )
        }),
    decreases fuel,
{
    if step is Do && fuel > 0 {
        let now = (w.clock)(fuel);
        undoing_next(w0, project, target, m, step, w, outages(fuel), now);
        let (event, after) = match outages(fuel) {
            Some(error) => (EventModel::Failed(error), w),
            None => w.perform(step->Do_0),
        };
        let (next, more) = m.next(event, now);
        undoing_always(w0, project, target, next, more, after, outages, (fuel - 1) as nat);
    } else {
        none_undone(w0, project);
        rollback_laws::leavers_lead(w0, target);
        if m.phase is Auditing {
            assert(w.committed() == undone_before(w0, project, m.index + 1));
        } else if m.phase is Querying || m.phase is Listing {
            assert(w.committed() == undone_before(w0, project, 0));
        } else if !(m.phase is Ended) {
            assert(w.committed() == undone_before(w0, project, m.index));
        }
    }
}

/// Whatever actions of a roll-back fail, and wherever it is cut off, the database
/// is left as it is after some of the migrations that do not stay were rolled
/// back, from the last one on: none of them by half. A roll-back that succeeds
/// has rolled back all of them.
pub proof fn rollback_survives_outages(
    w: World,
    project: Seq<char>,
    target: Option<Seq<char>>,
    outages: spec_fn(nat) -> Option<Seq<char>>,
    fuel: nat,
)
    requires
        w.ready(rollback_laws::rollback_prefix(project)),
        w.data.rows.len() <= i32::MAX,
    ensures
        ({
            let (end, after) = world::shaky_run(
                RollbackModel::start(project, target),
                Step::Do(Action::QueryAppliedNames),
                w,
                outages,
                fuel,
            );
            &&& kept_back(w, project, target, after)
            &&& end is Finish ==> after.saved is None && after.data == undone_before(
                w,
                project,
                rollback_laws::leavers(w, target),
            )
        }),
{
    undoing_always(
        w,
        project,
        target,
        RollbackModel::start(project, target),
        Step::Do(Action::QueryAppliedNames),
        w,
        outages,
        fuel,
    );
}

} // verus!
