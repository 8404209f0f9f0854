//! What the actions of an operation do, as far as its laws speak of it.
//!
//! A [`World`] holds the files of a store, the rows of the tracking table, the
//! scripts that have taken effect on the project's database, and what the
//! service has written down. Whether a script succeeds after others have run is
//! left open, and so are the readings of the clock. A script does not write to
//! the tracking table, but for a dump that is restored (see the laws of a
//! restoring), and one that fails has no effect.

use vstd::prelude::*;

use super::{Action, AuditEntry, EventModel, Step};
use crate::ops;
use crate::storage;
use crate::storage::FileModel;
use crate::text;

verus! {

/// A row of the tracking table.
#[verifier::ext_equal]
pub struct Row {
    pub filename: Seq<char>,
    pub checksum: Seq<char>,
    pub noop: bool,
    pub comment: Option<Seq<char>>,
}

/// A note that a seed file was run.
#[verifier::ext_equal]
pub struct SeedRun {
    pub project: Seq<char>,
    pub filename: Seq<char>,
    pub checksum: Seq<char>,
}

/// What is undone with a transaction.
#[verifier::ext_equal]
pub struct Data {
    /// The rows of the tracking table.
    pub rows: Seq<Row>,
    /// The scripts that have taken effect, in order.
    pub scripts: Seq<Seq<char>>,
}

/// What an operation works on.
#[verifier::ext_equal]
pub struct World {
    /// The content of each file by its key.
    pub files: Map<Seq<char>, Seq<char>>,
    /// The project's database.
    pub data: Data,
    /// The project's database as it was before the open transaction.
    pub saved: Option<Data>,
    /// The audit lines, without the durations.
    pub audits: Seq<AuditEntry<Seq<char>>>,
    /// The notes of seed files.
    pub seeds: Seq<SeedRun>,
    /// With which error a script fails after the scripts that have taken
    /// effect, if it fails.
    pub error: spec_fn(Seq<Seq<char>>, Seq<char>) -> Option<Seq<char>>,
    /// The readings of the clock.
    pub clock: spec_fn(nat) -> u128,
}

/// The audit line without its duration.
pub open spec fn untimed(entry: AuditEntry<Seq<char>>) -> AuditEntry<Seq<char>> {
    AuditEntry { duration_ms: None, ..entry }
}

/// Whether a migration of this name is tracked.
pub open spec fn is_tracked(rows: Seq<Row>, name: Seq<char>) -> bool {
    exists|i: int| 0 <= i < rows.len() && (#[trigger] rows[i]).filename == name
}

/// Whether no two rows have one name.
pub open spec fn distinct(rows: Seq<Row>) -> bool {
    forall|i: int, j: int|
        0 <= i < j < rows.len() ==> (#[trigger] rows[i]).filename != (#[trigger] rows[j]).filename
}

/// Name and checksum of each row.
pub open spec fn pairs(rows: Seq<Row>) -> Seq<(Seq<char>, Seq<char>)> {
    rows.map_values(|row: Row| (row.filename, row.checksum))
}

/// The checksum under which each name is tracked.
pub open spec fn checksums(rows: Seq<Row>) -> Map<Seq<char>, Seq<char>> {
    ops::latest(pairs(rows))
}

/// The names of the rows.
pub open spec fn names(rows: Seq<Row>) -> Seq<Seq<char>> {
    rows.map_values(|row: Row| row.filename)
}

/// The names of the rows, the last one first.
pub open spec fn names_descending(rows: Seq<Row>) -> Seq<Seq<char>> {
    names(rows).sort_by(|a: Seq<char>, b: Seq<char>| text::text_le(b, a))
}

/// The rows of other names.
pub open spec fn without(rows: Seq<Row>, name: Seq<char>) -> Seq<Row>
    decreases rows.len(),
{
    if rows.len() == 0 {
        rows
    } else if rows.last().filename == name {
        without(rows.drop_last(), name)
    } else {
        without(rows.drop_last(), name).push(rows.last())
    }
}

/// What a store lists directly under a prefix.
pub open spec fn listing(contents: Map<Seq<char>, Seq<char>>, prefix: Seq<char>) -> Seq<FileModel> {
    choose|files: Seq<FileModel>| storage::is_listing(files, contents, prefix)
}

/// The error of a file that is not there.
pub open spec fn not_found(key: Seq<char>) -> Seq<char> {
    "File not found: "@ + key
}

/// The error of a second row of one name.
pub open spec fn duplicate(name: Seq<char>) -> Seq<char> {
    "duplicate key: "@ + name
}

impl World {
    /// With another state of the project's database.
    pub open spec fn with_data(self, data: Data) -> World {
        World { data, ..self }
    }

    /// After a row was added to the tracking table.
    pub open spec fn tracking(self, row: Row) -> (EventModel, World) {
        if is_tracked(self.data.rows, row.filename) {
            (EventModel::Failed(duplicate(row.filename)), self)
        } else {
            (
                EventModel::Done,
                self.with_data(Data { rows: self.data.rows.push(row), ..self.data }),
            )
        }
    }

    /// With one more audit line.
    pub open spec fn audited(self, entry: AuditEntry<Seq<char>>) -> World {
        World { audits: self.audits.push(untimed(entry)), ..self }
    }

    /// What comes of an action, and the world after it.
    pub open spec fn perform(self, action: Action<Seq<char>>) -> (EventModel, World) {
        match action {
            Action::ListFiles { prefix } => (
                EventModel::Files(listing(self.files, prefix)),
                self,
            ),
            Action::ReadFile { key } => (
                if self.files.contains_key(key) {
                    EventModel::Content(self.files[key])
                } else {
                    EventModel::Failed(not_found(key))
                },
                self,
            ),
            Action::QueryApplied => (EventModel::Applied(pairs(self.data.rows)), self),
            Action::QueryAppliedNames => (
                EventModel::Names(names_descending(self.data.rows)),
                self,
            ),
            Action::QueryRecorded { filename } => (
                EventModel::Found(is_tracked(self.data.rows, filename)),
                self,
            ),
            Action::Begin => (EventModel::Done, World { saved: Some(self.data), ..self }),
            Action::Commit => (EventModel::Done, World { saved: None, ..self }),
            Action::Rollback => (
                EventModel::Done,
                match self.saved {
                    Some(data) => World { data, saved: None, ..self },
                    None => self,
                },
            ),
            Action::RunScript { sql } => match (self.error)(self.data.scripts, sql) {
                Some(message) => (EventModel::Failed(message), self),
                None => (
                    EventModel::Done,
                    self.with_data(Data { scripts: self.data.scripts.push(sql), ..self.data }),
                ),
            },
            Action::Record { filename, checksum, .. } => self.tracking(
                Row { filename, checksum, noop: false, comment: None },
            ),
            Action::RecordNoop { filename, checksum, comment } => self.tracking(
                Row { filename, checksum, noop: true, comment: Some(comment) },
            ),
            Action::Unrecord { filename } => (
                EventModel::Done,
                self.with_data(
                    Data { rows: without(self.data.rows, filename), ..self.data },
                ),
            ),
            Action::Audit { entry } => (EventModel::Done, self.audited(entry)),
            Action::LogSeed { project, filename, checksum } => (
                EventModel::Done,
                World { seeds: self.seeds.push(SeedRun { project, filename, checksum }), ..self },
            ),
            Action::DropDatabase { .. } => (
                EventModel::Done,
                self.with_data(Data { rows: Seq::empty(), scripts: Seq::empty() }),
            ),
            _ => (EventModel::Done, self),
        }
    }

    /// What is left of the project's database when its connection is closed: an
    /// open transaction is undone.
    pub open spec fn committed(self) -> Data {
        match self.saved {
            Some(data) => data,
            None => self.data,
        }
    }

    /// Whether the world is one that an operation may start in: no transaction
    /// is open, no name is tracked twice, and the files of the prefix can be
    /// listed and counted.
    pub open spec fn ready(self, prefix: Seq<char>) -> bool {
        &&& self.saved is None
        &&& distinct(self.data.rows)
        &&& storage::is_listing(listing(self.files, prefix), self.files, prefix)
        &&& listing(self.files, prefix).len() <= i32::MAX
    }
}

/// An operation that can be run in a world.
pub trait Machine: Sized {
    /// Whether the event is one that the operation waits for.
    spec fn awaits(self, event: EventModel) -> bool;

    /// How the operation goes on after an event that it waits for.
    spec fn after(self, event: EventModel, now: u128) -> (Self, Step<Seq<char>>);
}

/// How an operation ends in a world after at most `fuel` actions.
pub open spec fn run<M: Machine>(m: M, step: Step<Seq<char>>, w: World, fuel: nat) -> (
    Step<Seq<char>>,
    World,
)
    decreases fuel,
{
    match step {
        Step::Do(action) => if fuel > 0 {
            let (event, after) = w.perform(action);
            if m.awaits(event) {
                let (next, step) = m.after(event, (w.clock)(fuel));
                run(next, step, after, (fuel - 1) as nat)
            } else {
                arbitrary()
            }
        } else {
            (step, w)
        },
        _ => (step, w),
    }
}

/// How an operation ends in a world after at most `fuel` actions of which any
/// may fail: one that does has no effect.
pub open spec fn shaky_run<M: Machine>(
    m: M,
    step: Step<Seq<char>>,
    w: World,
    outages: spec_fn(nat) -> Option<Seq<char>>,
    fuel: nat,
) -> (Step<Seq<char>>, World)
    decreases fuel,
{
    match step {
        Step::Do(action) => if fuel > 0 {
            let (event, after) = match outages(fuel) {
                Some(error) => (EventModel::Failed(error), w),
                None => w.perform(action),
            };
            if m.awaits(event) {
                let (next, step) = m.after(event, (w.clock)(fuel));
                shaky_run(next, step, after, outages, (fuel - 1) as nat)
            } else {
                arbitrary()
            }
        } else {
            (step, w)
        },
        _ => (step, w),
    }
}

/// The names of a table in descending order are its names, each as often, and
/// none stands before a larger one.
pub proof fn descending_names(rows: Seq<Row>)
    ensures
        names_descending(rows).len() == rows.len(),
        names_descending(rows).to_multiset() == names(rows).to_multiset(),
        forall|i: int, j: int|
            0 <= i < j < rows.len() ==> text::text_le(
                #[trigger] names_descending(rows)[j],
                #[trigger] names_descending(rows)[i],
            ),
        forall|name: Seq<char>| #[trigger]
            names_descending(rows).contains(name) <==> is_tracked(rows, name),
{
    let leq = |a: Seq<char>, b: Seq<char>| text::text_le(b, a);
    assert forall|x: Seq<char>| #[trigger] leq(x, x) by {
        text::text_le_reflexive(x);
    }
    assert forall|x: Seq<char>, y: Seq<char>| #[trigger] leq(x, y) && #[trigger] leq(
        y,
        x,
    ) implies x == y by {
        text::text_le_total(x, y);
    }
    assert forall|x: Seq<char>, y: Seq<char>, z: Seq<char>| #[trigger]
        leq(x, y) && #[trigger] leq(y, z) implies leq(x, z) by {
        text::text_le_transitive(z, y, x);
    }
    assert forall|x: Seq<char>, y: Seq<char>| #[trigger] leq(x, y) || #[trigger] leq(y, x) by {
        text::text_le_total(x, y);
    }
    names(rows).lemma_sort_by_ensures(leq);
    let sorted = names_descending(rows);
    broadcast use vstd::seq_lib::group_to_multiset_ensures;

    assert(sorted.len() == sorted.to_multiset().len());
    assert(names(rows).len() == names(rows).to_multiset().len());
    assert forall|i: int, j: int| 0 <= i < j < rows.len() implies text::text_le(
        #[trigger] sorted[j],
        #[trigger] sorted[i],
    ) by {
        assert(leq(sorted[i], sorted[j]));
    }
    assert forall|name: Seq<char>| #[trigger] sorted.contains(name) <==> is_tracked(rows, name) by {
        assert(sorted.contains(name) <==> sorted.to_multiset().count(name) > 0);
        assert(names(rows).contains(name) <==> names(rows).to_multiset().count(name) > 0);
        if names(rows).contains(name) {
            let i = choose|i: int| 0 <= i < rows.len() && names(rows)[i] == name;
            assert(rows[i].filename == name);
        }
        if is_tracked(rows, name) {
            let i = choose|i: int| 0 <= i < rows.len() && (#[trigger] rows[i]).filename == name;
            assert(names(rows)[i] == name);
        }
    }
}

/// The names that have a checksum are those that are tracked, and of a table
/// without a name twice each row gives its own.
pub proof fn checksums_of_rows(rows: Seq<Row>)
    ensures
        forall|name: Seq<char>| #[trigger]
            checksums(rows).contains_key(name) <==> is_tracked(rows, name),
        distinct(rows) ==> forall|i: int|
            0 <= i < rows.len() ==> checksums(rows)[(#[trigger] rows[i]).filename]
                == rows[i].checksum,
    decreases rows.len(),
{
    if rows.len() > 0 {
        let init = rows.drop_last();
        checksums_of_rows(init);
        assert(pairs(rows).drop_last() =~= pairs(init));
        assert(checksums(rows) == checksums(init).insert(
            rows.last().filename,
            rows.last().checksum,
        ));
        assert forall|name: Seq<char>| #[trigger]
            checksums(rows).contains_key(name) <==> is_tracked(rows, name) by {
            if is_tracked(init, name) {
                let i = choose|i: int| 0 <= i < init.len() && (#[trigger] init[i]).filename == name;
                assert(rows[i].filename == name);
            }
            if is_tracked(rows, name) {
                let i = choose|i: int| 0 <= i < rows.len() && (#[trigger] rows[i]).filename == name;
                if i < init.len() {
                    assert(init[i].filename == name);
                }
            }
            if rows.last().filename == name {
                assert(rows[rows.len() - 1].filename == name);
            }
        }
        if distinct(rows) {
            assert forall|i: int, j: int| 0 <= i < j < init.len() implies (
            #[trigger] init[i]).filename != (#[trigger] init[j]).filename by {
                assert(rows[i].filename != rows[j].filename);
            }
            assert forall|i: int| 0 <= i < rows.len() implies checksums(rows)[(
            #[trigger] rows[i]).filename] == rows[i].checksum by {
                if i < init.len() {
                    assert(init[i] == rows[i]);
                    assert(rows[i].filename != rows[rows.len() - 1].filename);
                }
            }
        }
    }
}

/// After a row of a new name was added, the names are those before and the new
/// one.
pub proof fn tracked_more(rows: Seq<Row>, row: Row)
    ensures
        forall|name: Seq<char>| #[trigger]
            is_tracked(rows.push(row), name) <==> is_tracked(rows, name) || name == row.filename,
        distinct(rows) && !is_tracked(rows, row.filename) ==> distinct(rows.push(row)),
{
    let more = rows.push(row);
    assert forall|name: Seq<char>| #[trigger]
        is_tracked(more, name) <==> is_tracked(rows, name) || name == row.filename by {
        if is_tracked(rows, name) {
            let i = choose|i: int| 0 <= i < rows.len() && (#[trigger] rows[i]).filename == name;
            assert(more[i].filename == name);
        }
        if name == row.filename {
            assert(more[rows.len() as int].filename == name);
        }
        if is_tracked(more, name) {
            let i = choose|i: int| 0 <= i < more.len() && (#[trigger] more[i]).filename == name;
            if i < rows.len() {
                assert(rows[i].filename == name);
            }
        }
    }
    if distinct(rows) && !is_tracked(rows, row.filename) {
        assert forall|i: int, j: int| 0 <= i < j < more.len() implies (
        #[trigger] more[i]).filename != (#[trigger] more[j]).filename by {
            assert(more[i] == rows[i]);
            if j < rows.len() {
                assert(more[j] == rows[j]);
            }
        }
    }
}

/// After the rows of a name were removed, the other names are left.
pub proof fn tracked_less(rows: Seq<Row>, name: Seq<char>)
    ensures
        forall|other: Seq<char>| #[trigger]
            is_tracked(without(rows, name), other) <==> is_tracked(rows, other) && other != name,
        distinct(rows) ==> distinct(without(rows, name)),
        without(rows, name).len() <= rows.len(),
    decreases rows.len(),
{
    if rows.len() > 0 {
        let init = rows.drop_last();
        tracked_less(init, name);
        assert(rows =~= init.push(rows.last()));
        tracked_more(init, rows.last());
        if rows.last().filename != name {
            tracked_more(without(init, name), rows.last());
        }
        if distinct(rows) {
            assert forall|i: int, j: int| 0 <= i < j < init.len() implies (
            #[trigger] init[i]).filename != (#[trigger] init[j]).filename by {
                assert(rows[i].filename != rows[j].filename);
            }
            if is_tracked(init, rows.last().filename) {
                let i = choose|i: int|
                    0 <= i < init.len() && (#[trigger] init[i]).filename == rows.last().filename;
                assert(rows[i].filename != rows[rows.len() - 1].filename);
            }
        }
    }
}

/// Rows of new and different names can be added to a table.
pub proof fn tracked_together(rows: Seq<Row>, more: Seq<Row>)
    requires
        distinct(rows),
        distinct(more),
        forall|i: int| 0 <= i < more.len() ==> !is_tracked(rows, (#[trigger] more[i]).filename),
    ensures
        distinct(rows + more),
        forall|name: Seq<char>| #[trigger]
            is_tracked(rows + more, name) <==> is_tracked(rows, name) || is_tracked(more, name),
{
    let all = rows + more;
    assert forall|i: int, j: int| 0 <= i < j < all.len() implies (#[trigger] all[i]).filename != (
    #[trigger] all[j]).filename by {
        if j < rows.len() {
            assert(rows[i].filename != rows[j].filename);
        } else if i < rows.len() {
            assert(!is_tracked(rows, more[j - rows.len()].filename));
            assert(rows[i] == all[i]);
        } else {
            assert(more[i - rows.len()].filename != more[j - rows.len()].filename);
        }
    }
    assert forall|name: Seq<char>| #[trigger]
        is_tracked(all, name) <==> is_tracked(rows, name) || is_tracked(more, name) by {
        if is_tracked(rows, name) {
            let i = choose|i: int| 0 <= i < rows.len() && (#[trigger] rows[i]).filename == name;
            assert(all[i].filename == name);
        }
        if is_tracked(more, name) {
            let i = choose|i: int| 0 <= i < more.len() && (#[trigger] more[i]).filename == name;
            assert(all[rows.len() + i].filename == name);
        }
        if is_tracked(all, name) {
            let i = choose|i: int| 0 <= i < all.len() && (#[trigger] all[i]).filename == name;
            if i < rows.len() {
                assert(rows[i].filename == name);
            } else {
                assert(more[i - rows.len()].filename == name);
            }
        }
    }
}

} // verus!
