//! What a roll-back does to a world.

use vstd::prelude::*;

use super::rollback::{RollbackModel, RollbackPhase};
use super::world::{Data, Machine, Row, World};
use super::{Action, AuditEntry, EventModel, Step};
use crate::ops;
use crate::ops::rollback;
use crate::ops::world;
use crate::storage::FileModel;
use crate::text;

verus! {

impl Machine for RollbackModel {
    open spec fn awaits(self, event: EventModel) -> bool {
        self.expects(event)
    }

    open spec fn after(self, event: EventModel, now: u128) -> (Self, Step<Seq<char>>) {
        self.next(event, now)
    }
}

/// Where the roll-back files of a project are.
pub open spec fn rollback_prefix(project: Seq<char>) -> Seq<char> {
    ops::files_prefix(project, "rollback/"@)
}

/// The key of the roll-back file of each migration that has one.
pub open spec fn rollback_keys(w: World, project: Seq<char>) -> Map<Seq<char>, Seq<char>> {
    ops::latest(rollback::name_and_key(world::listing(w.files, rollback_prefix(project))))
}

/// How a roll-back ends in a world after at most `fuel` actions.
pub open spec fn rollback_run(
    w: World,
    project: Seq<char>,
    target: Option<Seq<char>>,
    fuel: nat,
) -> (Step<Seq<char>>, World) {
    world::run(
        RollbackModel::start(project, target),
        Step::Do(Action::QueryAppliedNames),
        w,
        fuel,
    )
}

/// Whether a migration of this name stays: it is the target or before it.
pub open spec fn stays(target: Option<Seq<char>>, name: Seq<char>) -> bool {
    target matches Some(t) && text::text_le(name, t)
}

/// The audit line of a migration that was rolled back, without its duration.
pub open spec fn rollback_line(project: Seq<char>, name: Seq<char>) -> AuditEntry<Seq<char>> {
    world::untimed(ops::success_entry("rollback"@, project, name, None, 0))
}

/// The world after a migration was rolled back.
pub open spec fn undone(
    w: World,
    project: Seq<char>,
    keys: Map<Seq<char>, Seq<char>>,
    name: Seq<char>,
) -> World {
    World {
        data: Data {
            rows: world::without(w.data.rows, name),
            scripts: w.data.scripts.push(w.files[keys[name]]),
        },
        audits: w.audits.push(rollback_line(project, name)),
        ..w
    }
}

/// The world after migrations were rolled back in order.
pub open spec fn undone_all(
    w: World,
    project: Seq<char>,
    keys: Map<Seq<char>, Seq<char>>,
    names: Seq<Seq<char>>,
) -> World
    decreases names.len(),
{
    if names.len() == 0 {
        w
    } else {
        undone(undone_all(w, project, keys, names.drop_last()), project, keys, names.last())
    }
}

/// The contents of the roll-back files of migrations.
pub open spec fn undo_scripts(
    w: World,
    keys: Map<Seq<char>, Seq<char>>,
    names: Seq<Seq<char>>,
) -> Seq<Seq<char>> {
    names.map_values(|name: Seq<char>| w.files[keys[name]])
}

/// Rolling back migrations runs their roll-back files in order, writes an
/// audit line for each, and leaves exactly the other migrations tracked.
pub proof fn undone_all_facts(
    w: World,
    project: Seq<char>,
    keys: Map<Seq<char>, Seq<char>>,
    names: Seq<Seq<char>>,
)
    ensures
        ({
            let end = undone_all(w, project, keys, names);
            &&& end.data.scripts == w.data.scripts + undo_scripts(w, keys, names)
            &&& end.audits == w.audits + names.map_values(
                |name: Seq<char>| rollback_line(project, name),
            )
            &&& forall|name: Seq<char>| #[trigger]
                world::is_tracked(end.data.rows, name) <==> world::is_tracked(w.data.rows, name)
                    && !names.contains(name)
            &&& world::distinct(w.data.rows) ==> world::distinct(end.data.rows)
            &&& end == World { data: end.data, audits: end.audits, ..w }
        }),
    decreases names.len(),
{
    let end = undone_all(w, project, keys, names);
    let line = |name: Seq<char>| rollback_line(project, name);
    if names.len() == 0 {
        assert(undo_scripts(w, keys, names) =~= Seq::empty());
        assert(w.data.scripts + undo_scripts(w, keys, names) =~= w.data.scripts);
        assert(w.audits + names.map_values(line) =~= w.audits);
    } else {
        let init = names.drop_last();
        let last = names.last();
        undone_all_facts(w, project, keys, init);
        let before = undone_all(w, project, keys, init);
        world::tracked_less(before.data.rows, last);
        assert(undo_scripts(w, keys, names) =~= undo_scripts(w, keys, init).push(
            w.files[keys[last]],
        ));
        assert(end.data.scripts =~= w.data.scripts + undo_scripts(w, keys, names));
        assert(end.audits =~= w.audits + names.map_values(line));
        assert forall|name: Seq<char>| #[trigger]
            names.contains(name) <==> init.contains(name) || name == last by {
            if names.contains(name) {
                let i = choose|i: int| 0 <= i < names.len() && names[i] == name;
                if i < init.len() {
                    assert(init[i] == name);
                }
            }
            if init.contains(name) {
                let i = choose|i: int| 0 <= i < init.len() && init[i] == name;
                assert(names[i] == name);
            }
            assert(names[names.len() - 1] == last);
        }
    }
}

/// How a roll-back ends that has rolled back the names before `i`.
pub open spec fn rollback_from(
    w: World,
    project: Seq<char>,
    target: Option<Seq<char>>,
    names: Seq<Seq<char>>,
    keys: Map<Seq<char>, Seq<char>>,
    i: int,
) -> (Step<Seq<char>>, World)
    decreases names.len() - i,
{
    if i >= names.len() || stays(target, names[i]) {
        (Step::Finish(rollback::rolled_back(project, i)), w)
    } else if !keys.contains_key(names[i]) {
        (Step::Fail(rollback::no_rollback_file(names[i])), w)
    } else {
        match (w.error)(w.data.scripts, w.files[keys[names[i]]]) {
            Some(error) => (
                Step::Fail(error),
                w.audited(ops::error_entry("rollback"@, project, names[i], None, error)),
            ),
            None => rollback_from(
                undone(w, project, keys, names[i]),
                project,
                target,
                names,
                keys,
                i + 1,
            ),
        }
    }
}

proof fn run_of_name(m: RollbackModel, w: World, fuel: nat)
    requires
        0 <= m.index < m.names.len() <= i32::MAX,
        m.count == m.index,
        w.saved is None,
        fuel >= 6,
        !stays(m.target, m.names[m.index]),
        m.keys.contains_key(m.names[m.index]),
        w.files.contains_key(m.keys[m.names[m.index]]),
        (w.error)(w.data.scripts, w.files[m.keys[m.names[m.index]]]) is None,
    ensures
        ({
            let next = RollbackModel {
                index: m.index + 1,
                count: m.count + 1,
                phase: RollbackPhase::Auditing,
                ..m
            };
            world::run(m.proceed().0, m.proceed().1, w, fuel) == world::run(
                next.proceed().0,
                next.proceed().1,
                undone(w, m.project, m.keys, m.names[m.index]),
                (fuel - 6) as nat,
            )
        }),
{
    reveal_with_fuel(world::run, 7);
    let name = m.names[m.index];
    let sql = w.files[m.keys[name]];
    let w1 = World { saved: Some(w.data), ..w };
    let w2 = w1.perform(Action::RunScript { sql }).1;
    let w3 = w2.perform(Action::Unrecord { filename: name }).1;
    let w4 = World { saved: None, ..w3 };
    let w5 = World { audits: w4.audits.push(rollback_line(m.project, name)), ..w4 };
    assert(w5 == undone(w, m.project, m.keys, name));
}

proof fn run_from(m: RollbackModel, w: World, fuel: nat)
    requires
        0 <= m.index <= m.names.len() <= i32::MAX,
        m.count == m.index,
        w.saved is None,
        forall|name: Seq<char>| #[trigger]
            m.keys.contains_key(name) ==> w.files.contains_key(m.keys[name]),
        fuel >= 6 * (m.names.len() - m.index),
    ensures
        world::run(m.proceed().0, m.proceed().1, w, fuel) == rollback_from(
            w,
            m.project,
            m.target,
            m.names,
            m.keys,
            m.index,
        ),
    decreases m.names.len() - m.index,
{
    if m.index < m.names.len() && !stays(m.target, m.names[m.index]) && m.keys.contains_key(
        m.names[m.index],
    ) {
        let name = m.names[m.index];
        match (w.error)(w.data.scripts, w.files[m.keys[name]]) {
            None => {
                let next = RollbackModel {
                    index: m.index + 1,
                    count: m.count + 1,
                    phase: RollbackPhase::Auditing,
                    ..m
                };
                run_of_name(m, w, fuel);
                run_from(next, undone(w, m.project, m.keys, name), (fuel - 6) as nat);
            },
            Some(_) => {
                reveal_with_fuel(world::run, 7);
                assert(World { data: w.data, saved: None, ..w } == w);
            },
        }
    }
}

/// The roll-back files can be read.
proof fn keys_are_there(files: Seq<FileModel>, w: World)
    requires
        forall|k: int| 0 <= k < files.len() ==> w.files.contains_key((#[trigger] files[k]).key),
    ensures
        forall|name: Seq<char>| #[trigger]
            ops::latest(rollback::name_and_key(files)).contains_key(name) ==> w.files.contains_key(
                ops::latest(rollback::name_and_key(files))[name],
            ),
    decreases files.len(),
{
    if files.len() > 0 {
        let init = files.drop_last();
        assert(rollback::name_and_key(files).drop_last() =~= rollback::name_and_key(init));
        assert forall|k: int| 0 <= k < init.len() implies w.files.contains_key(
            (#[trigger] init[k]).key,
        ) by {
            assert(files[k] == init[k]);
        }
        keys_are_there(init, w);
        assert(w.files.contains_key(files[files.len() - 1].key));
        let before = ops::latest(rollback::name_and_key(init));
        let all = ops::latest(rollback::name_and_key(files));
        assert(all == before.insert(files.last().filename, files.last().key));
        assert forall|name: Seq<char>| #[trigger]
            all.contains_key(name) implies w.files.contains_key(all[name]) by {
            if name != files.last().filename {
                assert(before.contains_key(name));
            }
        }
    }
}

/// How many of the names from `i` on come before the first one that stays.
pub open spec fn leaving(target: Option<Seq<char>>, names: Seq<Seq<char>>, i: int) -> int
    decreases names.len() - i,
{
    if i >= names.len() || stays(target, names[i]) {
        0
    } else {
        1 + leaving(target, names, i + 1)
    }
}

/// Whether a roll-back that ended as `ended` undid the first `n` of the names
/// and then came to one that has no roll-back file, or whose roll-back failed:
/// the first such name, since each before it has a file that succeeded.
pub open spec fn stuck_at(
    w: World,
    project: Seq<char>,
    target: Option<Seq<char>>,
    names: Seq<Seq<char>>,
    keys: Map<Seq<char>, Seq<char>>,
    ended: (Step<Seq<char>>, World),
    n: int,
) -> bool {
    let before = undone_all(w, project, keys, names.take(n));
    let error = ended.0->Fail_0;
    &&& 0 <= n < names.len()
    &&& forall|k: int| 0 <= k <= n ==> !stays(target, #[trigger] names[k])
    &&& can_undo(w, keys, names.take(n))
    &&& if keys.contains_key(names[n]) {
        &&& (w.error)(before.data.scripts, w.files[keys[names[n]]]) == Some(error)
        &&& ended.1 == before.audited(
            ops::error_entry("rollback"@, project, names[n], None, error),
        )
    } else {
        &&& error == rollback::no_rollback_file(names[n])
        &&& ended.1 == before
    }
}

proof fn outcome_from(
    w0: World,
    w: World,
    project: Seq<char>,
    target: Option<Seq<char>>,
    names: Seq<Seq<char>>,
    keys: Map<Seq<char>, Seq<char>>,
    i: int,
)
    requires
        0 <= i <= names.len(),
        w == undone_all(w0, project, keys, names.take(i)),
        can_undo(w0, keys, names.take(i)),
        forall|k: int| 0 <= k < i ==> !stays(target, #[trigger] names[k]),
    ensures
        ({
            let ended = rollback_from(w, project, target, names, keys, i);
            let n = i + leaving(target, names, i);
            &&& i <= n <= names.len()
            &&& forall|k: int| i <= k < n ==> !stays(target, #[trigger] names[k])
            &&& n < names.len() ==> stays(target, names[n])
            &&& !(ended.0 is Do)
            &&& ended.0 is Finish ==> ended == (
                Step::<Seq<char>>::Finish(rollback::rolled_back(project, n)),
                undone_all(w0, project, keys, names.take(n)),
            )
            &&& ended.0 is Fail ==> exists|k: int|
                stuck_at(w0, project, target, names, keys, ended, k)
            &&& ended.0 is Finish <==> can_undo(w0, keys, names.take(n))
        }),
    decreases names.len() - i,
{
    let ended = rollback_from(w, project, target, names, keys, i);
    undone_all_facts(w0, project, keys, names.take(i));
    if i < names.len() && !stays(target, names[i]) {
        let n = i + leaving(target, names, i);
        let next = undone(w, project, keys, names[i]);
        assert(names.take(i + 1).drop_last() =~= names.take(i));
        if keys.contains_key(names[i]) && (w.error)(w.data.scripts, w.files[keys[names[i]]])
            is None {
            can_undo_more(w0, keys, names, i);
            outcome_from(w0, next, project, target, names, keys, i + 1);
        }
        leaving_from(target, names, i);
        let front = names.take(n);
        assert(front[i] == names[i]);
        assert(front.take(i) =~= names.take(i));
        if !keys.contains_key(names[i]) {
            assert(ended.0 == Step::<Seq<char>>::Fail(rollback::no_rollback_file(names[i])));
            assert(stuck_at(w0, project, target, names, keys, ended, i));
        } else {
            match (w.error)(w.data.scripts, w.files[keys[names[i]]]) {
                Some(error) => {
                    assert(ended.0 == Step::<Seq<char>>::Fail(error));
                    assert(stuck_at(w0, project, target, names, keys, ended, i));
                },
                None => {},
            }
        }
    }
}

/// Whether each of the names has a roll-back file that succeeds after the ones
/// before it.
pub open spec fn can_undo(
    w: World,
    keys: Map<Seq<char>, Seq<char>>,
    names: Seq<Seq<char>>,
) -> bool {
    forall|n: int|
        0 <= n < names.len() ==> {
            &&& keys.contains_key(#[trigger] names[n])
            &&& (w.error)(
                w.data.scripts + undo_scripts(w, keys, names.take(n)),
                w.files[keys[names[n]]],
            ) is None
        }
}

proof fn can_undo_more(
    w: World,
    keys: Map<Seq<char>, Seq<char>>,
    names: Seq<Seq<char>>,
    i: int,
)
    requires
        0 <= i < names.len(),
        can_undo(w, keys, names.take(i)),
        keys.contains_key(names[i]),
        (w.error)(
            w.data.scripts + undo_scripts(w, keys, names.take(i)),
            w.files[keys[names[i]]],
        ) is None,
    ensures
        can_undo(w, keys, names.take(i + 1)),
{
    let more = names.take(i + 1);
    let front = names.take(i);
    assert forall|n: int| 0 <= n < more.len() implies {
        &&& keys.contains_key(#[trigger] more[n])
        &&& (w.error)(
            w.data.scripts + undo_scripts(w, keys, more.take(n)),
            w.files[keys[more[n]]],
        ) is None
    } by {
        if n < i {
            assert(more[n] == front[n]);
            assert(more.take(n) =~= front.take(n));
        } else {
            assert(more.take(n) =~= front);
        }
    }
}

/// How many of the tracked migrations leave when rolled back to the target.
pub open spec fn leavers(w: World, target: Option<Seq<char>>) -> int {
    leaving(target, world::names_descending(w.data.rows), 0)
}

/// The migrations that leave are the ones before the first that stays, in the
/// order from the last one on.
pub proof fn leavers_lead(w: World, target: Option<Seq<char>>)
    ensures
        0 <= leavers(w, target) <= world::names_descending(w.data.rows).len(),
        forall|k: int|
            0 <= k < leavers(w, target) ==> !stays(
                target,
                #[trigger] world::names_descending(w.data.rows)[k],
            ),
        leavers(w, target) < world::names_descending(w.data.rows).len() ==> stays(
            target,
            world::names_descending(w.data.rows)[leavers(w, target)],
        ),
{
    leaving_from(target, world::names_descending(w.data.rows), 0);
}

proof fn leaving_from(target: Option<Seq<char>>, names: Seq<Seq<char>>, i: int)
    requires
        0 <= i <= names.len(),
    ensures
        0 <= leaving(target, names, i) <= names.len() - i,
        forall|k: int|
            i <= k < i + leaving(target, names, i) ==> !stays(target, #[trigger] names[k]),
        i + leaving(target, names, i) < names.len() ==> stays(
            target,
            names[i + leaving(target, names, i)],
        ),
    decreases names.len() - i,
{
    if i < names.len() && !stays(target, names[i]) {
        leaving_from(target, names, i + 1);
    }
}

/// A roll-back ends. When it succeeds, the migrations after the target have
/// been rolled back from the last one on, their number is reported, and nothing
/// else has changed. When it fails, those before the one that could not be
/// rolled back have been, and only those, and no transaction is open. It
/// succeeds where every one of them has a roll-back file that succeeds after the
/// ones before it, and nowhere else.
pub proof fn rollback_runs(w: World, project: Seq<char>, target: Option<Seq<char>>, fuel: nat)
    requires
        w.ready(rollback_prefix(project)),
        w.data.rows.len() <= i32::MAX,
        fuel >= 6 * w.data.rows.len() + 2,
    ensures
        ({
            let ended = rollback_run(w, project, target, fuel);
            let names = world::names_descending(w.data.rows);
            let keys = rollback_keys(w, project);
            let n = leavers(w, target);
            &&& !(ended.0 is Do)
            &&& ended.0 is Finish ==> ended == (
                Step::<Seq<char>>::Finish(rollback::rolled_back(project, n)),
                undone_all(w, project, keys, names.take(n)),
            )
            &&& ended.0 is Fail ==> exists|k: int|
                stuck_at(w, project, target, names, keys, ended, k)
            &&& ended.0 is Finish <==> can_undo(w, keys, names.take(n))
            &&& ended.1.saved is None
        }),
{
    reveal_with_fuel(world::run, 3);
    world::descending_names(w.data.rows);
    let names = world::names_descending(w.data.rows);
    let files = world::listing(w.files, rollback_prefix(project));
    let keys = rollback_keys(w, project);
    let ended = rollback_run(w, project, target, fuel);
    keys_are_there(files, w);
    let m = RollbackModel {
        names,
        keys,
        phase: RollbackPhase::Listing,
        ..RollbackModel::start(project, target)
    };
    assert(names.take(0) =~= Seq::empty());
    outcome_from(w, w, project, target, names, keys, 0);
    if names.len() > 0 {
        run_from(m, w, (fuel - 2) as nat);
    }
    undone_all_facts(w, project, keys, names.take(leavers(w, target)));
    if ended.0 is Fail {
        let k = choose|k: int| stuck_at(w, project, target, names, keys, ended, k);
        undone_all_facts(w, project, keys, names.take(k));
    }
}

/// After a roll-back has succeeded, exactly the migrations that stay are
/// tracked: the target and those before it.
pub proof fn rollback_to_target(w: World, project: Seq<char>, target: Option<Seq<char>>, fuel: nat)
    requires
        w.ready(rollback_prefix(project)),
        w.data.rows.len() <= i32::MAX,
        fuel >= 6 * w.data.rows.len() + 2,
        rollback_run(w, project, target, fuel).0 is Finish,
    ensures
        forall|name: Seq<char>| #[trigger]
            world::is_tracked(rollback_run(w, project, target, fuel).1.data.rows, name)
                <==> world::is_tracked(w.data.rows, name) && stays(target, name),
{
    rollback_runs(w, project, target, fuel);
    world::descending_names(w.data.rows);
    let names = world::names_descending(w.data.rows);
    let keys = rollback_keys(w, project);
    let n = leavers(w, target);
    let end = rollback_run(w, project, target, fuel).1;
    assert(names.take(0) =~= Seq::empty());
    outcome_from(w, w, project, target, names, keys, 0);
    undone_all_facts(w, project, keys, names.take(n));
    assert forall|name: Seq<char>| #[trigger]
        world::is_tracked(end.data.rows, name) <==> world::is_tracked(w.data.rows, name) && stays(
            target,
            name,
        ) by {
        let gone = names.take(n);
        if gone.contains(name) {
            let k = choose|k: int| 0 <= k < gone.len() && gone[k] == name;
            assert(names[k] == name);
        }
        if world::is_tracked(w.data.rows, name) && !gone.contains(name) {
            assert(names.contains(name));
            let k = choose|k: int| 0 <= k < names.len() && names[k] == name;
            if k < n {
                assert(gone[k] == name);
            }
            if k > n {
                text::text_le_transitive(names[k], names[n], target->0);
            }
        }
    }
}

/// A roll-back without a target that has succeeded leaves nothing tracked.
pub proof fn rollback_reverses_all(w: World, project: Seq<char>, fuel: nat)
    requires
        w.ready(rollback_prefix(project)),
        w.data.rows.len() <= i32::MAX,
        fuel >= 6 * w.data.rows.len() + 2,
        rollback_run(w, project, None, fuel).0 is Finish,
    ensures
        rollback_run(w, project, None, fuel).1.data.rows == Seq::<Row>::empty(),
        rollback_run(w, project, None, fuel).0 == Step::<Seq<char>>::Finish(
            rollback::rolled_back(project, w.data.rows.len() as int),
        ),
{
    rollback_to_target(w, project, None, fuel);
    rollback_runs(w, project, None, fuel);
    let names = world::names_descending(w.data.rows);
    world::descending_names(w.data.rows);
    assert(names.take(0) =~= Seq::empty());
    outcome_from(w, w, project, None, names, rollback_keys(w, project), 0);
    let rows = rollback_run(w, project, None, fuel).1.data.rows;
    if rows.len() > 0 {
        assert(world::is_tracked(rows, rows[0].filename));
    }
    assert(rows =~= Seq::<Row>::empty());
}

} // verus!
