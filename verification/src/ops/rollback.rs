//! Rolling migrations back.

use vstd::hash_map::StringHashMap;
use vstd::prelude::*;
use vstd::string::*;

use super::{
    latest_of, millis_between, prefix_of, Action, AuditEntry, Event, EventModel, Response, Step,
};
use crate::ops;
use crate::storage::{FileModel, MigrationFile};
use crate::text;

verus! {

/// What a roll-back waits for.
#[verifier::ext_equal]
pub enum RollbackPhase<T = String> {
    /// The names of the tracked migrations.
    Querying,
    /// The list of roll-back files.
    Listing,
    /// The content of the roll-back file.
    Reading,
    /// The transaction for the current migration.
    Beginning { sql: T, start: u128 },
    /// The roll-back script.
    Running { start: u128 },
    /// The end of the tracking of the current migration.
    Unrecording { start: u128 },
    /// The end of the transaction.
    Committing { start: u128 },
    /// The audit line of the current migration.
    Auditing,
    /// The undoing of the transaction of a script that failed.
    RollingBack { error: T },
    /// The audit line of an error.
    Failing { error: T },
    /// Nothing: the roll-back has ended.
    Ended,
}

/// A roll-back of the migrations of a project, down to a target that stays.
pub struct Rollback {
    project: String,
    target: Option<String>,
    names: Vec<String>,
    keys: StringHashMap<String>,
    index: usize,
    count: i32,
    phase: RollbackPhase,
}

/// What a [`Rollback`] holds: the project, the target, the tracked migrations
/// from the last one on, the key of the roll-back file of each name, how many
/// migrations have been rolled back, and what is waited for.
#[verifier::ext_equal]
pub struct RollbackModel {
    pub project: Seq<char>,
    pub target: Option<Seq<char>>,
    pub names: Seq<Seq<char>>,
    pub keys: Map<Seq<char>, Seq<char>>,
    pub index: int,
    pub count: int,
    pub phase: RollbackPhase<Seq<char>>,
}

/// Name and key of each file.
pub open spec fn name_and_key(files: Seq<FileModel>) -> Seq<(Seq<char>, Seq<char>)> {
    files.map_values(|f: FileModel| (f.filename, f.key))
}

/// The error of a migration that has no roll-back file.
pub open spec fn no_rollback_file(filename: Seq<char>) -> Seq<char> {
    "No rollback file for "@ + filename
}

/// What is reported at the end.
pub open spec fn rolled_back(project: Seq<char>, count: int) -> Response<Seq<char>> {
    Response { rolled_back: Some(count as i32), ..ops::plain_response("rollback"@, project) }
}

impl RollbackModel {
    /// The roll-back before anything is known.
    pub open spec fn start(project: Seq<char>, target: Option<Seq<char>>) -> RollbackModel {
        RollbackModel {
            project,
            target,
            names: Seq::empty(),
            keys: Map::empty(),
            index: 0,
            count: 0,
            phase: RollbackPhase::Querying,
        }
    }

    /// Whether the event is one that the roll-back waits for.
    pub open spec fn expects(self, event: EventModel) -> bool {
        match self.phase {
            RollbackPhase::Ended => false,
            RollbackPhase::Querying => match event {
                EventModel::Names(names) => names.len() <= i32::MAX,
                EventModel::Failed(_) => true,
                _ => false,
            },
            RollbackPhase::Listing => event is Files || event is Failed,
            RollbackPhase::Reading => event is Content || event is Failed,
            _ => event is Done || event is Failed,
        }
    }

    /// Waiting for something else.
    pub open spec fn waiting(self, phase: RollbackPhase<Seq<char>>) -> RollbackModel {
        RollbackModel { phase, ..self }
    }

    /// Whether a migration of this name stays: it is the target or before it.
    pub open spec fn stays(self, name: Seq<char>) -> bool {
        self.target matches Some(target) && text::text_le(name, target)
    }

    /// Going on with the migration at the index, or ending behind the last one
    /// or at the first one that stays.
    pub open spec fn proceed(self) -> (RollbackModel, Step<Seq<char>>) {
        let ended = self.waiting(RollbackPhase::Ended);
        let done = Step::Finish(rolled_back(self.project, self.count));
        if self.index >= self.names.len() {
            (ended, done)
        } else {
            let name = self.names[self.index];
            if self.stays(name) {
                (ended, done)
            } else if self.keys.contains_key(name) {
                (
                    self.waiting(RollbackPhase::Reading),
                    Step::Do(Action::ReadFile { key: self.keys[name] }),
                )
            } else {
                (ended, Step::Fail(no_rollback_file(name)))
            }
        }
    }

    /// Ending with an error.
    pub open spec fn fail(self, error: Seq<char>) -> (RollbackModel, Step<Seq<char>>) {
        (self.waiting(RollbackPhase::Ended), Step::Fail(error))
    }

    /// How the roll-back goes on after an event that it expects.
    pub open spec fn next(self, event: EventModel, now: u128) -> (RollbackModel, Step<Seq<char>>) {
        let filename = self.names[self.index];
        match self.phase {
            RollbackPhase::Querying => match event {
                EventModel::Names(names) => if names.len() == 0 {
                    (
                        self.waiting(RollbackPhase::Ended),
                        Step::Finish(rolled_back(self.project, 0)),
                    )
                } else {
                    (
                        RollbackModel { names, phase: RollbackPhase::Listing, ..self },
                        Step::Do(
                            Action::ListFiles {
                                prefix: ops::files_prefix(self.project, "rollback/"@),
                            },
                        ),
                    )
                },
                EventModel::Failed(error) => self.fail(error),
                _ => arbitrary(),
            },
            RollbackPhase::Listing => match event {
                EventModel::Files(files) => RollbackModel {
                    keys: ops::latest(name_and_key(files)),
                    ..self
                }.proceed(),
                EventModel::Failed(error) => self.fail(error),
                _ => arbitrary(),
            },
            RollbackPhase::Reading => match event {
                EventModel::Content(sql) => (
                    self.waiting(RollbackPhase::Beginning { sql, start: now }),
                    Step::Do(Action::Begin),
                ),
                EventModel::Failed(error) => self.fail(error),
                _ => arbitrary(),
            },
            RollbackPhase::Beginning { sql, start } => match event {
                EventModel::Failed(error) => self.fail(error),
                _ => (
                    self.waiting(RollbackPhase::Running { start }),
                    Step::Do(Action::RunScript { sql }),
                ),
            },
            RollbackPhase::Running { start } => match event {
                EventModel::Failed(error) => (
                    self.waiting(RollbackPhase::RollingBack { error }),
                    Step::Do(Action::Rollback),
                ),
                _ => (
                    self.waiting(RollbackPhase::Unrecording { start }),
                    Step::Do(Action::Unrecord { filename }),
                ),
            },
            RollbackPhase::Unrecording { start } => match event {
                EventModel::Failed(error) => self.fail(error),
                _ => (
                    self.waiting(RollbackPhase::Committing { start }),
                    Step::Do(Action::Commit),
                ),
            },
            RollbackPhase::Committing { start } => match event {
                EventModel::Failed(error) => self.fail(error),
                _ => (
                    RollbackModel { count: self.count + 1, phase: RollbackPhase::Auditing, ..self },
                    Step::Do(
                        Action::Audit {
                            entry: ops::success_entry(
                                "rollback"@,
                                self.project,
                                filename,
                                None,
                                ops::elapsed_ms(start, now) as i32,
                            ),
                        },
                    ),
                ),
            },
            RollbackPhase::Auditing => RollbackModel { index: self.index + 1, ..self }.proceed(),
            RollbackPhase::RollingBack { error } => (
                self.waiting(RollbackPhase::Failing { error }),
                Step::Do(
                    Action::Audit {
                        entry: ops::error_entry("rollback"@, self.project, filename, None, error),
                    },
                ),
            ),
            RollbackPhase::Failing { error } => self.fail(error),
            RollbackPhase::Ended => arbitrary(),
        }
    }

    /// What holds of every roll-back: no more migrations were rolled back than
    /// dealt with, and one is at hand where one is being dealt with.
    pub open spec fn valid(self) -> bool {
        &&& 0 <= self.index <= self.names.len() <= i32::MAX
        &&& 0 <= self.count
        &&& match self.phase {
            RollbackPhase::Querying | RollbackPhase::Listing => self.index == 0 && self.count == 0,
            RollbackPhase::Ended => true,
            RollbackPhase::Auditing => self.index < self.names.len() && self.count <= self.index
                + 1,
            _ => self.index < self.names.len() && self.count <= self.index,
        }
    }
}

spec fn phase_view(phase: RollbackPhase) -> RollbackPhase<Seq<char>> {
    match phase {
        RollbackPhase::Querying => RollbackPhase::Querying,
        RollbackPhase::Listing => RollbackPhase::Listing,
        RollbackPhase::Reading => RollbackPhase::Reading,
        RollbackPhase::Beginning { sql, start } => RollbackPhase::Beginning { sql: sql@, start },
        RollbackPhase::Running { start } => RollbackPhase::Running { start },
        RollbackPhase::Unrecording { start } => RollbackPhase::Unrecording { start },
        RollbackPhase::Committing { start } => RollbackPhase::Committing { start },
        RollbackPhase::Auditing => RollbackPhase::Auditing,
        RollbackPhase::RollingBack { error } => RollbackPhase::RollingBack { error: error@ },
        RollbackPhase::Failing { error } => RollbackPhase::Failing { error: error@ },
        RollbackPhase::Ended => RollbackPhase::Ended,
    }
}

impl DeepView for Rollback {
    type V = RollbackModel;

    closed spec fn deep_view(&self) -> RollbackModel {
        RollbackModel {
            project: self.project@,
            target: self.target.deep_view(),
            names: self.names.deep_view(),
            keys: ops::text_map(self.keys@),
            index: self.index as int,
            count: self.count as int,
            phase: phase_view(self.phase),
        }
    }
}

/// The key of the file of each name.
fn keys_by_name(files: &Vec<MigrationFile>) -> (m: StringHashMap<String>)
    ensures
        ops::text_map(m@) == ops::latest(name_and_key(files.deep_view())),
{
    let mut rows: Vec<(String, String)> = Vec::new();
    let mut i: usize = 0;
    let ghost all = name_and_key(files.deep_view());
    assert(rows.deep_view() =~= all.take(0));
    while i < files.len()
        invariant
            i <= files@.len(),
            all == name_and_key(files.deep_view()),
            rows.deep_view() == all.take(i as int),
        decreases files@.len() - i,
    {
        let ghost front = rows.deep_view();
        rows.push((files[i].filename.clone(), files[i].key.clone()));
        assert(files.deep_view()[i as int] == files@[i as int].deep_view());
        assert(rows.deep_view() =~= front.push(all[i as int]));
        assert(all.take(i + 1) =~= all.take(i as int).push(all[i as int]));
        i += 1;
    }
    assert(all.take(i as int) =~= all);
    latest_of(&rows)
}

/// A new roll-back for `project`, with the first thing to do.
pub fn rollback(project: &str, target: Option<String>) -> (r: (Rollback, Step))
    ensures
        r.0.deep_view() == RollbackModel::start(project@, target.deep_view()),
        r.1.deep_view() == Step::<Seq<char>>::Do(Action::QueryAppliedNames),
{
    let run = Rollback {
        project: project.to_string(),
        target,
        names: Vec::new(),
        keys: StringHashMap::new(),
        index: 0,
        count: 0,
        phase: RollbackPhase::Querying,
    };
    assert(run.deep_view().names =~= Seq::empty());
    assert(run.deep_view().keys =~= Map::empty());
    (run, Step::Do(Action::QueryAppliedNames))
}

impl Rollback {
    #[verifier::type_invariant]
    spec fn is_valid(&self) -> bool {
        self.deep_view().valid()
    }

    fn waiting(self, phase: RollbackPhase) -> (r: Rollback)
        requires
            self.deep_view().waiting(phase_view(phase)).valid(),
        ensures
            r.deep_view() == self.deep_view().waiting(phase_view(phase)),
    {
        Rollback {
            project: self.project,
            target: self.target,
            names: self.names,
            keys: self.keys,
            index: self.index,
            count: self.count,
            phase,
        }
    }

    fn finish(self) -> (r: (Rollback, Step))
        requires
            self.deep_view().valid(),
        ensures
            r.0.deep_view() == self.deep_view().waiting(RollbackPhase::Ended),
            r.1.deep_view() == Step::Finish(
                rolled_back(self.deep_view().project, self.deep_view().count),
            ),
    {
        let mut response = Response::plain("rollback", self.project.as_str());
        response.rolled_back = Some(self.count);
        (self.waiting(RollbackPhase::Ended), Step::Finish(response))
    }

    /// Going on with the migration at the index.
    fn proceed(self) -> (r: (Rollback, Step))
        requires
            self.deep_view().valid(),
            self.deep_view().phase is Ended,
            self.deep_view().count <= self.deep_view().index,
        ensures
            (r.0.deep_view(), r.1.deep_view()) == self.deep_view().proceed(),
    {
        if self.index >= self.names.len() {
            return self.finish();
        }
        let name = self.names[self.index].clone();
        let stays: bool = match &self.target {
            Some(target) => text::in_order(name.as_str(), target.as_str()),
            None => false,
        };
        if stays {
            return self.finish();
        }
        let found: Option<String> = match self.keys.get(name.as_str()) {
            Some(key) => Some(key.clone()),
            None => None,
        };
        match found {
            Some(key) => (
                self.waiting(RollbackPhase::Reading),
                Step::Do(Action::ReadFile { key }),
            ),
            None => self.fail(String::from_str("No rollback file for ").concat(name.as_str())),
        }
    }

    fn fail(self, error: String) -> (r: (Rollback, Step))
        requires
            self.deep_view().valid(),
        ensures
            (r.0.deep_view(), r.1.deep_view()) == self.deep_view().fail(error@),
    {
        (self.waiting(RollbackPhase::Ended), Step::Fail(error))
    }

    /// Goes on after what came of the last action, at the reading `now` of a
    /// clock that counts nanoseconds.
    pub fn next(self, event: Event, now: u128) -> (r: (Rollback, Step))
        requires
            self.deep_view().expects(event.deep_view()),
        ensures
            (r.0.deep_view(), r.1.deep_view()) == self.deep_view().next(event.deep_view(), now),
    {
        proof {
            use_type_invariant(&self);
        }
        let Rollback { project, target, names, keys, index, count, phase } = self;
        let run = Rollback {
            project,
            target,
            names,
            keys,
            index,
            count,
            phase: RollbackPhase::Ended,
        };
        match phase {
            RollbackPhase::Querying => match event {
                Event::Names(names) => {
                    if names.len() == 0 {
                        run.finish()
                    } else {
                        let prefix = prefix_of(run.project.as_str(), "rollback/");
                        let run = Rollback {
                            project: run.project,
                            target: run.target,
                            names,
                            keys: run.keys,
                            index,
                            count,
                            phase: RollbackPhase::Listing,
                        };
                        (run, Step::Do(Action::ListFiles { prefix }))
                    }
                },
                Event::Failed(error) => run.fail(error),
                _ => (run, Step::Fail(String::new())),
            },
            RollbackPhase::Listing => match event {
                Event::Files(files) => {
                    let run = Rollback {
                        project: run.project,
                        target: run.target,
                        names: run.names,
                        keys: keys_by_name(&files),
                        index,
                        count,
                        phase: RollbackPhase::Ended,
                    };
                    run.proceed()
                },
                Event::Failed(error) => run.fail(error),
                _ => (run, Step::Fail(String::new())),
            },
            RollbackPhase::Reading => match event {
                Event::Content(sql) => (
                    run.waiting(RollbackPhase::Beginning { sql, start: now }),
                    Step::Do(Action::Begin),
                ),
                Event::Failed(error) => run.fail(error),
                _ => (run, Step::Fail(String::new())),
            },
            RollbackPhase::Beginning { sql, start } => match event {
                Event::Failed(error) => run.fail(error),
                _ => (
                    run.waiting(RollbackPhase::Running { start }),
                    Step::Do(Action::RunScript { sql }),
                ),
            },
            RollbackPhase::Running { start } => match event {
                Event::Failed(error) => (
                    run.waiting(RollbackPhase::RollingBack { error }),
                    Step::Do(Action::Rollback),
                ),
                _ => {
                    let filename = run.names[index].clone();
                    (
                        run.waiting(RollbackPhase::Unrecording { start }),
                        Step::Do(Action::Unrecord { filename }),
                    )
                },
            },
            RollbackPhase::Unrecording { start } => match event {
                Event::Failed(error) => run.fail(error),
                _ => (
                    run.waiting(RollbackPhase::Committing { start }),
                    Step::Do(Action::Commit),
                ),
            },
            RollbackPhase::Committing { start } => match event {
                Event::Failed(error) => run.fail(error),
                _ => {
                    let entry = AuditEntry::success(
                        "rollback",
                        run.project.as_str(),
                        run.names[index].as_str(),
                        None,
                        millis_between(start, now) as i32,
                    );
                    let run = Rollback {
                        project: run.project,
                        target: run.target,
                        names: run.names,
                        keys: run.keys,
                        index,
                        count: count + 1,
                        phase: RollbackPhase::Auditing,
                    };
                    (run, Step::Do(Action::Audit { entry }))
                },
            },
            RollbackPhase::Auditing => {
                let run = Rollback {
                    project: run.project,
                    target: run.target,
                    names: run.names,
                    keys: run.keys,
                    index: index + 1,
                    count,
                    phase: RollbackPhase::Ended,
                };
                run.proceed()
            },
            RollbackPhase::RollingBack { error } => {
                let entry = AuditEntry::failure(
                    "rollback",
                    run.project.as_str(),
                    run.names[index].as_str(),
                    None,
                    error.as_str(),
                );
                (
                    run.waiting(RollbackPhase::Failing { error }),
                    Step::Do(Action::Audit { entry }),
                )
            },
            RollbackPhase::Failing { error } => run.fail(error),
            RollbackPhase::Ended => (run, Step::Fail(String::new())),
        }
    }
}

} // verus!
