//! Running the pending migrations of a project.

use vstd::hash_map::StringHashMap;
use vstd::prelude::*;
use vstd::string::*;

use super::{
    event_sum, latest_of, millis_between, prefix_of, Action, AuditEntry, Event, EventModel,
    Response, Step,
};
use crate::ops;
use crate::storage::{FileModel, MigrationFile};
use crate::text;

verus! {

/// What a run of migrations waits for.
#[verifier::ext_equal]
pub enum MigratePhase<T = String> {
    /// The tracking table.
    Tracking,
    /// The list of files.
    Listing,
    /// The tracked migrations.
    Querying,
    /// The content of the current file.
    Reading,
    /// The transaction for the current file.
    Beginning { sql: T, checksum: T, start: u128 },
    /// The script of the current file.
    Running { checksum: T, start: u128 },
    /// The tracking of the current file.
    Recording { checksum: T, duration_ms: i32 },
    /// The end of the transaction.
    Committing { checksum: T, duration_ms: i32 },
    /// The audit line of the current file.
    Auditing,
    /// The undoing of the transaction of a script that failed.
    RollingBack { checksum: T, error: T },
    /// The audit line of an error.
    Failing { error: T },
    /// Nothing: the run has ended.
    Ended,
}

/// A run of the pending migrations of a project.
pub struct Migrate {
    project: String,
    files: Vec<MigrationFile>,
    applied: StringHashMap<String>,
    index: usize,
    count: i32,
    phase: MigratePhase,
}

/// What a [`Migrate`] holds: the project, its files, name and checksum of the
/// tracked migrations, how many files have been dealt with and how many of
/// them were run, and what is waited for.
#[verifier::ext_equal]
pub struct MigrateModel {
    pub project: Seq<char>,
    pub files: Seq<FileModel>,
    pub applied: Map<Seq<char>, Seq<char>>,
    pub index: int,
    pub count: int,
    pub phase: MigratePhase<Seq<char>>,
}

/// The error of a file that is not what was run under its name.
pub open spec fn mismatch(filename: Seq<char>) -> Seq<char> {
    "Checksum mismatch for "@ + filename
}

/// What is reported when every file has been dealt with.
pub open spec fn migrated(project: Seq<char>, count: int) -> Response<Seq<char>> {
    Response { applied: Some(count as i32), ..ops::plain_response("migrate"@, project) }
}

impl MigrateModel {
    /// The run before anything is known.
    pub open spec fn start(project: Seq<char>) -> MigrateModel {
        MigrateModel {
            project,
            files: Seq::empty(),
            applied: Map::empty(),
            index: 0,
            count: 0,
            phase: MigratePhase::Tracking,
        }
    }

    /// Whether the event is one that the run waits for.
    pub open spec fn expects(self, event: EventModel) -> bool {
        match self.phase {
            MigratePhase::Ended => false,
            MigratePhase::Listing => match event {
                EventModel::Files(files) => files.len() <= i32::MAX,
                EventModel::Failed(_) => true,
                _ => false,
            },
            MigratePhase::Querying => event is Applied || event is Failed,
            MigratePhase::Reading => event is Content || event is Failed,
            _ => event is Done || event is Failed,
        }
    }

    /// Waiting for something else.
    pub open spec fn waiting(self, phase: MigratePhase<Seq<char>>) -> MigrateModel {
        MigrateModel { phase, ..self }
    }

    /// Going on with the file at the index, or ending behind the last one.
    pub open spec fn proceed(self) -> (MigrateModel, Step<Seq<char>>) {
        if self.index < self.files.len() {
            (
                self.waiting(MigratePhase::Reading),
                Step::Do(Action::ReadFile { key: self.files[self.index].key }),
            )
        } else {
            (
                self.waiting(MigratePhase::Ended),
                Step::Finish(migrated(self.project, self.count)),
            )
        }
    }

    /// Ending with an error.
    pub open spec fn fail(self, error: Seq<char>) -> (MigrateModel, Step<Seq<char>>) {
        (self.waiting(MigratePhase::Ended), Step::Fail(error))
    }

    /// Writing the audit line of an error before ending with it.
    pub open spec fn report(self, checksum: Seq<char>, error: Seq<char>) -> (
        MigrateModel,
        Step<Seq<char>>,
    ) {
        let filename = self.files[self.index].filename;
        (
            self.waiting(MigratePhase::Failing { error }),
            Step::Do(
                Action::Audit {
                    entry: ops::error_entry(
                        "migrate"@,
                        self.project,
                        filename,
                        Some(checksum),
                        error,
                    ),
                },
            ),
        )
    }

    /// What to do with the content of the current file and its checksum: a
    /// tracked file must be the one that was run and is passed over, any other is
    /// run.
    pub open spec fn decide(self, sql: Seq<char>, checksum: Seq<char>, now: u128) -> (
        MigrateModel,
        Step<Seq<char>>,
    ) {
        let filename = self.files[self.index].filename;
        if self.applied.contains_key(filename) {
            if self.applied[filename] == checksum {
                MigrateModel { index: self.index + 1, ..self }.proceed()
            } else {
                self.report(checksum, mismatch(filename))
            }
        } else {
            (
                self.waiting(MigratePhase::Beginning { sql, checksum, start: now }),
                Step::Do(Action::Begin),
            )
        }
    }

    /// How the run goes on after an event that it expects.
    pub open spec fn next(self, event: EventModel, now: u128) -> (MigrateModel, Step<Seq<char>>) {
        self.next_with(event, ops::sum_of(event), now)
    }

    /// How the run goes on after an event that it expects, with the checksum of
    /// the content that the event tells of.
    pub open spec fn next_with(self, event: EventModel, sum: Seq<char>, now: u128) -> (
        MigrateModel,
        Step<Seq<char>>,
    ) {
        let filename = self.files[self.index].filename;
        match self.phase {
            MigratePhase::Tracking => match event {
                EventModel::Failed(error) => self.fail(error),
                _ => (
                    self.waiting(MigratePhase::Listing),
                    Step::Do(Action::ListFiles { prefix: ops::files_prefix(self.project, ""@) }),
                ),
            },
            MigratePhase::Listing => match event {
                EventModel::Files(files) => (
                    MigrateModel { files, phase: MigratePhase::Querying, ..self },
                    Step::Do(Action::QueryApplied),
                ),
                EventModel::Failed(error) => self.fail(error),
                _ => arbitrary(),
            },
            MigratePhase::Querying => match event {
                EventModel::Applied(rows) => MigrateModel {
                    applied: ops::latest(rows),
                    ..self
                }.proceed(),
                EventModel::Failed(error) => self.fail(error),
                _ => arbitrary(),
            },
            MigratePhase::Reading => match event {
                EventModel::Content(sql) => self.decide(sql, sum, now),
                EventModel::Failed(error) => self.fail(error),
                _ => arbitrary(),
            },
            MigratePhase::Beginning { sql, checksum, start } => match event {
                EventModel::Failed(error) => self.fail(error),
                _ => (
                    self.waiting(MigratePhase::Running { checksum, start }),
                    Step::Do(Action::RunScript { sql }),
                ),
            },
            MigratePhase::Running { checksum, start } => match event {
                EventModel::Failed(error) => (
                    self.waiting(MigratePhase::RollingBack { checksum, error }),
                    Step::Do(Action::Rollback),
                ),
                _ => {
                    let duration_ms = ops::elapsed_ms(start, now) as i32;
                    (
                        self.waiting(MigratePhase::Recording { checksum, duration_ms }),
                        Step::Do(Action::Record { filename, checksum, duration_ms }),
                    )
                },
            },
            MigratePhase::Recording { checksum, duration_ms } => match event {
                EventModel::Failed(error) => self.fail(error),
                _ => (
                    self.waiting(MigratePhase::Committing { checksum, duration_ms }),
                    Step::Do(Action::Commit),
                ),
            },
            MigratePhase::Committing { checksum, duration_ms } => match event {
                EventModel::Failed(error) => self.fail(error),
                _ => (
                    MigrateModel { count: self.count + 1, phase: MigratePhase::Auditing, ..self },
                    Step::Do(
                        Action::Audit {
                            entry: ops::success_entry(
                                "migrate"@,
                                self.project,
                                filename,
                                Some(checksum),
                                duration_ms,
                            ),
                        },
                    ),
                ),
            },
            MigratePhase::Auditing => MigrateModel { index: self.index + 1, ..self }.proceed(),
            MigratePhase::RollingBack { checksum, error } => self.report(checksum, error),
            MigratePhase::Failing { error } => self.fail(error),
            MigratePhase::Ended => arbitrary(),
        }
    }

    /// What holds of every run: no more files were run than dealt with, no
    /// more were dealt with than there are, and a file is at hand where one is
    /// being dealt with.
    pub open spec fn valid(self) -> bool {
        &&& 0 <= self.index <= self.files.len() <= i32::MAX
        &&& 0 <= self.count
        &&& match self.phase {
            MigratePhase::Tracking | MigratePhase::Listing | MigratePhase::Querying => self.index
                == 0 && self.count == 0,
            MigratePhase::Ended => true,
            MigratePhase::Auditing => self.index < self.files.len() && self.count <= self.index + 1,
            _ => self.index < self.files.len() && self.count <= self.index,
        }
    }
}

spec fn phase_view(phase: MigratePhase) -> MigratePhase<Seq<char>> {
    match phase {
        MigratePhase::Tracking => MigratePhase::Tracking,
        MigratePhase::Listing => MigratePhase::Listing,
        MigratePhase::Querying => MigratePhase::Querying,
        MigratePhase::Reading => MigratePhase::Reading,
        MigratePhase::Beginning { sql, checksum, start } => MigratePhase::Beginning {
            sql: sql@,
            checksum: checksum@,
            start,
        },
        MigratePhase::Running { checksum, start } => MigratePhase::Running {
            checksum: checksum@,
            start,
        },
        MigratePhase::Recording { checksum, duration_ms } => MigratePhase::Recording {
            checksum: checksum@,
            duration_ms,
        },
        MigratePhase::Committing { checksum, duration_ms } => MigratePhase::Committing {
            checksum: checksum@,
            duration_ms,
        },
        MigratePhase::Auditing => MigratePhase::Auditing,
        MigratePhase::RollingBack { checksum, error } => MigratePhase::RollingBack {
            checksum: checksum@,
            error: error@,
        },
        MigratePhase::Failing { error } => MigratePhase::Failing { error: error@ },
        MigratePhase::Ended => MigratePhase::Ended,
    }
}

impl DeepView for Migrate {
    type V = MigrateModel;

    closed spec fn deep_view(&self) -> MigrateModel {
        MigrateModel {
            project: self.project@,
            files: self.files.deep_view(),
            applied: ops::text_map(self.applied@),
            index: self.index as int,
            count: self.count as int,
            phase: phase_view(self.phase),
        }
    }
}

/// A new run for `project`, with the first thing to do.
pub fn migrate(project: &str) -> (r: (Migrate, Step))
    ensures
        r.0.deep_view() == MigrateModel::start(project@),
        r.1.deep_view() == Step::<Seq<char>>::Do(Action::InitTracking),
{
    let run = Migrate {
        project: project.to_string(),
        files: Vec::new(),
        applied: StringHashMap::new(),
        index: 0,
        count: 0,
        phase: MigratePhase::Tracking,
    };
    assert(run.deep_view().files =~= Seq::empty());
    assert(run.deep_view().applied =~= Map::empty());
    (run, Step::Do(Action::InitTracking))
}

impl Migrate {
    #[verifier::type_invariant]
    spec fn is_valid(&self) -> bool {
        self.deep_view().valid()
    }

    fn waiting(self, phase: MigratePhase) -> (r: Migrate)
        requires
            self.deep_view().waiting(phase_view(phase)).valid(),
        ensures
            r.deep_view() == self.deep_view().waiting(phase_view(phase)),
    {
        Migrate {
            project: self.project,
            files: self.files,
            applied: self.applied,
            index: self.index,
            count: self.count,
            phase,
        }
    }

    /// Going on with the file at `index`.
    fn proceed_at(self, index: usize) -> (r: (Migrate, Step))
        requires
            self.count <= index <= self.files@.len() <= i32::MAX,
            0 <= self.count,
        ensures
            (r.0.deep_view(), r.1.deep_view()) == (MigrateModel {
                index: index as int,
                ..self.deep_view()
            }).proceed(),
    {
        if index < self.files.len() {
            let key = self.files[index].key.clone();
            let run = Migrate {
                project: self.project,
                files: self.files,
                applied: self.applied,
                index,
                count: self.count,
                phase: MigratePhase::Reading,
            };
            (run, Step::Do(Action::ReadFile { key }))
        } else {
            let mut response = Response::plain("migrate", self.project.as_str());
            response.applied = Some(self.count);
            let run = Migrate {
                project: self.project,
                files: self.files,
                applied: self.applied,
                index,
                count: self.count,
                phase: MigratePhase::Ended,
            };
            (run, Step::Finish(response))
        }
    }

    fn fail(self, error: String) -> (r: (Migrate, Step))
        requires
            self.deep_view().valid(),
        ensures
            (r.0.deep_view(), r.1.deep_view()) == self.deep_view().fail(error@),
    {
        (self.waiting(MigratePhase::Ended), Step::Fail(error))
    }

    fn report(self, checksum: String, error: String) -> (r: (Migrate, Step))
        requires
            self.deep_view().valid(),
            self.deep_view().index < self.deep_view().files.len(),
            self.deep_view().count <= self.deep_view().index,
        ensures
            (r.0.deep_view(), r.1.deep_view()) == self.deep_view().report(checksum@, error@),
    {
        let entry = AuditEntry::failure(
            "migrate",
            self.project.as_str(),
            self.files[self.index].filename.as_str(),
            Some(checksum),
            error.as_str(),
        );
        (self.waiting(MigratePhase::Failing { error }), Step::Do(Action::Audit { entry }))
    }

    /// What to do with the content of the current file and its checksum.
    fn decide(self, sql: String, h: String, now: u128) -> (r: (Migrate, Step))
        requires
            self.deep_view().valid(),
            self.deep_view().phase is Reading,
        ensures
            (r.0.deep_view(), r.1.deep_view()) == self.deep_view().decide(sql@, h@, now),
    {
        let filename = self.files[self.index].filename.clone();
        let found: Option<bool> = match self.applied.get(filename.as_str()) {
            Some(existing) => Some(text::same(existing.as_str(), h.as_str())),
            None => None,
        };
        match found {
            Some(true) => {
                let next: usize = self.index + 1;
                self.proceed_at(next)
            },
            Some(false) => {
                let error = String::from_str("Checksum mismatch for ").concat(filename.as_str());
                self.report(h, error)
            },
            None => (
                self.waiting(MigratePhase::Beginning { sql, checksum: h, start: now }),
                Step::Do(Action::Begin),
            ),
        }
    }

    /// Goes on after what came of the last action, at the reading `now` of a
    /// clock that counts nanoseconds.
    pub fn next(self, event: Event, now: u128) -> (r: (Migrate, Step))
        requires
            self.deep_view().expects(event.deep_view()),
        ensures
            (r.0.deep_view(), r.1.deep_view()) == self.deep_view().next(event.deep_view(), now),
    {
        let sum = event_sum(&event);
        self.next_with(event, sum, now)
    }

    /// Goes on after what came of the last action, with the checksum of the
    /// content that it brought, at the reading `now` of a clock that counts
    /// nanoseconds.
    pub fn next_with(self, event: Event, sum: String, now: u128) -> (r: (Migrate, Step))
        requires
            self.deep_view().expects(event.deep_view()),
        ensures
            (r.0.deep_view(), r.1.deep_view()) == self.deep_view().next_with(
                event.deep_view(),
                sum@,
                now,
            ),
    {
        proof {
            use_type_invariant(&self);
        }
        let Migrate { project, files, applied, index, count, phase } = self;
        let run = Migrate {
            project,
            files,
            applied,
            index,
            count,
            phase: MigratePhase::Ended,
        };
        match phase {
            MigratePhase::Tracking => match event {
                Event::Failed(error) => run.fail(error),
                _ => {
                    let prefix = prefix_of(run.project.as_str(), "");
                    (run.waiting(MigratePhase::Listing), Step::Do(Action::ListFiles { prefix }))
                },
            },
            MigratePhase::Listing => match event {
                Event::Files(files) => {
                    let run = Migrate {
                        project: run.project,
                        files,
                        applied: run.applied,
                        index,
                        count,
                        phase: MigratePhase::Querying,
                    };
                    (run, Step::Do(Action::QueryApplied))
                },
                Event::Failed(error) => run.fail(error),
                _ => (run, Step::Fail(String::new())),
            },
            MigratePhase::Querying => match event {
                Event::Applied(rows) => {
                    let run = Migrate {
                        project: run.project,
                        files: run.files,
                        applied: latest_of(&rows),
                        index,
                        count,
                        phase: MigratePhase::Ended,
                    };
                    run.proceed_at(index)
                },
                Event::Failed(error) => run.fail(error),
                _ => (run, Step::Fail(String::new())),
            },
            MigratePhase::Reading => match event {
                Event::Content(sql) => run.waiting(MigratePhase::Reading).decide(sql, sum, now),
                Event::Failed(error) => run.fail(error),
                _ => (run, Step::Fail(String::new())),
            },
            MigratePhase::Beginning { sql, checksum, start } => match event {
                Event::Failed(error) => run.fail(error),
                _ => (
                    run.waiting(MigratePhase::Running { checksum, start }),
                    Step::Do(Action::RunScript { sql }),
                ),
            },
            MigratePhase::Running { checksum, start } => match event {
                Event::Failed(error) => (
                    run.waiting(MigratePhase::RollingBack { checksum, error }),
                    Step::Do(Action::Rollback),
                ),
                _ => {
                    let duration_ms: i32 = millis_between(start, now) as i32;
                    let action = Action::Record {
                        filename: run.files[index].filename.clone(),
                        checksum: checksum.clone(),
                        duration_ms,
                    };
                    (
                        run.waiting(MigratePhase::Recording { checksum, duration_ms }),
                        Step::Do(action),
                    )
                },
            },
            MigratePhase::Recording { checksum, duration_ms } => match event {
                Event::Failed(error) => run.fail(error),
                _ => (
                    run.waiting(MigratePhase::Committing { checksum, duration_ms }),
                    Step::Do(Action::Commit),
                ),
            },
            MigratePhase::Committing { checksum, duration_ms } => match event {
                Event::Failed(error) => run.fail(error),
                _ => {
                    let entry = AuditEntry::success(
                        "migrate",
                        run.project.as_str(),
                        run.files[index].filename.as_str(),
                        Some(checksum),
                        duration_ms,
                    );
                    let run = Migrate {
                        project: run.project,
                        files: run.files,
                        applied: run.applied,
                        index,
                        count: count + 1,
                        phase: MigratePhase::Auditing,
                    };
                    (run, Step::Do(Action::Audit { entry }))
                },
            },
            MigratePhase::Auditing => run.proceed_at(index + 1),
            MigratePhase::RollingBack { checksum, error } => run.report(checksum, error),
            MigratePhase::Failing { error } => run.fail(error),
            MigratePhase::Ended => (run, Step::Fail(String::new())),
        }
    }
}

} // verus!
