//! Restoring the database of a project from a dump.

use vstd::prelude::*;

use super::dump;
use super::{
    app_role, event_sum, millis_between, prefix_of, reader_role, Action, AuditEntry, Event,
    EventModel, Indent, Response, Step,
};
use crate::ops;
use crate::storage::{FileModel, MigrationFile};

verus! {

/// What a restoring waits for.
#[derive(Clone, Copy, PartialEq, Eq, Structural)]
pub enum RestorePhase {
    /// The connection to the maintenance database.
    Connecting,
    /// The end of the sessions on the database.
    Terminating,
    /// The end of the database.
    Dropping,
    /// The new database.
    Creating,
    /// The connection to the new database.
    Opening,
    /// The content of the dump.
    Loading,
    /// The run of the dump.
    Running { start: u128 },
    /// The search path.
    SettingPath,
    /// The grants to the application's role.
    GrantingSchema,
    /// The grants to the reader's role.
    GrantingReader,
    /// The tracking table.
    Tracking,
    /// The list of migrations.
    Listing,
    /// Whether the current migration is tracked.
    Querying,
    /// The content of the current migration.
    Reading,
    /// The tracking of the current migration.
    Recording,
    /// The audit line.
    Auditing,
    /// Nothing: it has ended.
    Ended,
}

/// The restoring of the database of a project.
pub struct Restore {
    project: String,
    db: String,
    target: String,
    comment: String,
    duration_ms: u64,
    files: Vec<MigrationFile>,
    index: usize,
    baselined: i32,
    phase: RestorePhase,
}

/// What a [`Restore`] holds: the project, its database, the key of the dump,
/// why its migrations are not run, how long the dump ran, the migrations, how
/// many of them have been dealt with and how many were newly tracked, and what
/// is waited for.
#[verifier::ext_equal]
pub struct RestoreModel {
    pub project: Seq<char>,
    pub db: Seq<char>,
    pub target: Seq<char>,
    pub comment: Seq<char>,
    pub duration_ms: u64,
    pub files: Seq<FileModel>,
    pub index: int,
    pub baselined: int,
    pub phase: RestorePhase,
}

/// What is reported at the end.
pub open spec fn restored(
    project: Seq<char>,
    target: Seq<char>,
    duration_ms: u64,
    baselined: int,
) -> Response<Seq<char>> {
    Response {
        key: Some(target),
        duration_ms: Some(duration_ms),
        baselined: Some(baselined as i32),
        ..ops::plain_response("restore"@, project)
    }
}

/// The audit line of a database that was restored.
pub open spec fn restore_entry(
    project: Seq<char>,
    target: Seq<char>,
    duration_ms: u64,
    comment: Seq<char>,
) -> AuditEntry<Seq<char>> {
    AuditEntry {
        comment: Some(comment),
        ..ops::success_entry("restore"@, project, target, None, duration_ms as i32)
    }
}

impl RestoreModel {
    /// The restoring before anything is done.
    pub open spec fn start(
        project: Seq<char>,
        db: Seq<char>,
        target: Seq<char>,
        comment: Seq<char>,
    ) -> RestoreModel {
        RestoreModel {
            project,
            db,
            target,
            comment,
            duration_ms: 0,
            files: Seq::empty(),
            index: 0,
            baselined: 0,
            phase: RestorePhase::Connecting,
        }
    }

    /// Whether the event is one that is waited for.
    pub open spec fn expects(self, event: EventModel) -> bool {
        match self.phase {
            RestorePhase::Ended => false,
            RestorePhase::Listing => match event {
                EventModel::Files(files) => files.len() <= i32::MAX,
                EventModel::Failed(_) => true,
                _ => false,
            },
            RestorePhase::Querying => event is Found || event is Failed,
            RestorePhase::Loading | RestorePhase::Reading => event is Content || event is Failed,
            _ => event is Done || event is Failed,
        }
    }

    /// Waiting for something else.
    pub open spec fn waiting(self, phase: RestorePhase) -> RestoreModel {
        RestoreModel { phase, ..self }
    }

    /// Going on with the migration at the index, or with the audit line behind
    /// the last one.
    pub open spec fn proceed(self) -> (RestoreModel, Step<Seq<char>>) {
        if self.index < self.files.len() {
            (
                self.waiting(RestorePhase::Querying),
                Step::Do(Action::QueryRecorded { filename: self.files[self.index].filename }),
            )
        } else {
            (
                self.waiting(RestorePhase::Auditing),
                Step::Do(
                    Action::Audit {
                        entry: restore_entry(
                            self.project,
                            self.target,
                            self.duration_ms,
                            self.comment,
                        ),
                    },
                ),
            )
        }
    }

    /// How it goes on after an event that is expected and no failure, with the
    /// checksum of the content that the event tells of.
    pub open spec fn advance(self, event: EventModel, sum: Seq<char>, now: u128) -> (
        RestoreModel,
        Step<Seq<char>>,
    ) {
        let role = ops::app_role_of(self.project);
        let reader = ops::reader_role_of(self.project);
        match self.phase {
            RestorePhase::Connecting => (
                self.waiting(RestorePhase::Terminating),
                Step::Do(Action::TerminateBackends { db: self.db }),
            ),
            RestorePhase::Terminating => (
                self.waiting(RestorePhase::Dropping),
                Step::Do(Action::DropDatabase { db: self.db }),
            ),
            RestorePhase::Dropping => (
                self.waiting(RestorePhase::Creating),
                Step::Do(Action::CreateDatabase { db: self.db }),
            ),
            RestorePhase::Creating => (
                self.waiting(RestorePhase::Opening),
                Step::Do(Action::ConnectProject { db: self.db }),
            ),
            RestorePhase::Opening => (
                self.waiting(RestorePhase::Loading),
                Step::Do(Action::ReadFile { key: self.target }),
            ),
            RestorePhase::Loading => (
                self.waiting(RestorePhase::Running { start: now }),
                Step::Do(Action::RunScript { sql: dump::cleaned(event->Content_0) }),
            ),
            RestorePhase::Running { start } => (
                RestoreModel {
                    duration_ms: ops::elapsed_ms(start, now) as u64,
                    phase: RestorePhase::SettingPath,
                    ..self
                },
                Step::Do(Action::SetSearchPath),
            ),
            RestorePhase::SettingPath => (
                self.waiting(RestorePhase::GrantingSchema),
                Step::Do(Action::GrantSchema { role, indent: Indent::Wide }),
            ),
            RestorePhase::GrantingSchema => (
                self.waiting(RestorePhase::GrantingReader),
                Step::Do(Action::GrantReader { role, reader, membership: true }),
            ),
            RestorePhase::GrantingReader => (
                self.waiting(RestorePhase::Tracking),
                Step::Do(Action::InitTracking),
            ),
            RestorePhase::Tracking => (
                self.waiting(RestorePhase::Listing),
                Step::Do(Action::ListFiles { prefix: ops::files_prefix(self.project, ""@) }),
            ),
            RestorePhase::Listing => RestoreModel { files: event->Files_0, ..self }.proceed(),
            RestorePhase::Querying => if event->Found_0 {
                RestoreModel { index: self.index + 1, ..self }.proceed()
            } else {
                (
                    self.waiting(RestorePhase::Reading),
                    Step::Do(Action::ReadFile { key: self.files[self.index].key }),
                )
            },
            RestorePhase::Reading => (
                self.waiting(RestorePhase::Recording),
                Step::Do(
                    Action::RecordNoop {
                        filename: self.files[self.index].filename,
                        checksum: sum,
                        comment: self.comment,
                    },
                ),
            ),
            RestorePhase::Recording => RestoreModel {
                index: self.index + 1,
                baselined: self.baselined + 1,
                ..self
            }.proceed(),
            RestorePhase::Auditing | RestorePhase::Ended => arbitrary(),
        }
    }

    /// How it goes on after an event that is expected. Every failure ends it,
    /// but for that of the audit line.
    pub open spec fn next(self, event: EventModel, now: u128) -> (RestoreModel, Step<Seq<char>>) {
        self.next_with(event, ops::sum_of(event), now)
    }

    /// How it goes on after an event that is expected, with the checksum of the
    /// content that the event tells of.
    pub open spec fn next_with(self, event: EventModel, sum: Seq<char>, now: u128) -> (
        RestoreModel,
        Step<Seq<char>>,
    ) {
        if self.phase is Auditing {
            (
                self.waiting(RestorePhase::Ended),
                Step::Finish(
                    restored(self.project, self.target, self.duration_ms, self.baselined),
                ),
            )
        } else if event is Failed {
            (self.waiting(RestorePhase::Ended), Step::Fail(event->Failed_0))
        } else {
            self.advance(event, sum, now)
        }
    }

    /// What holds of every restoring: no more migrations were newly tracked
    /// than dealt with, and one is at hand where one is being dealt with.
    pub open spec fn valid(self) -> bool {
        &&& 0 <= self.index <= self.files.len() <= i32::MAX
        &&& 0 <= self.baselined <= self.index
        &&& match self.phase {
            RestorePhase::Querying | RestorePhase::Reading | RestorePhase::Recording => self.index
                < self.files.len(),
            RestorePhase::Auditing | RestorePhase::Ended => true,
            _ => self.index == 0,
        }
    }
}

impl DeepView for Restore {
    type V = RestoreModel;

    closed spec fn deep_view(&self) -> RestoreModel {
        RestoreModel {
            project: self.project@,
            db: self.db@,
            target: self.target@,
            comment: self.comment@,
            duration_ms: self.duration_ms,
            files: self.files.deep_view(),
            index: self.index as int,
            baselined: self.baselined as int,
            phase: self.phase,
        }
    }
}

/// A new restoring, with the first thing to do.
pub fn restore(project: &str, db: &str, target: &str, comment: &str) -> (r: (Restore, Step))
    ensures
        r.0.deep_view() == RestoreModel::start(project@, db@, target@, comment@),
        r.1.deep_view() == Step::<Seq<char>>::Do(Action::ConnectAdmin),
{
    let run = Restore {
        project: project.to_string(),
        db: db.to_string(),
        target: target.to_string(),
        comment: comment.to_string(),
        duration_ms: 0,
        files: Vec::new(),
        index: 0,
        baselined: 0,
        phase: RestorePhase::Connecting,
    };
    assert(run.deep_view().files =~= Seq::empty());
    (run, Step::Do(Action::ConnectAdmin))
}

impl Restore {
    #[verifier::type_invariant]
    spec fn is_valid(&self) -> bool {
        self.deep_view().valid()
    }

    fn waiting(self, phase: RestorePhase) -> (r: Restore)
        requires
            self.deep_view().waiting(phase).valid(),
        ensures
            r.deep_view() == self.deep_view().waiting(phase),
    {
        Restore {
            project: self.project,
            db: self.db,
            target: self.target,
            comment: self.comment,
            duration_ms: self.duration_ms,
            files: self.files,
            index: self.index,
            baselined: self.baselined,
            phase,
        }
    }

    /// Going on with `files` at `index`, with `baselined` newly tracked so far.
    fn proceed(self, files: Vec<MigrationFile>, index: usize, baselined: i32) -> (r: (
        Restore,
        Step,
    ))
        requires
            files@.len() <= i32::MAX,
            0 <= baselined <= index <= files@.len(),
        ensures
            (r.0.deep_view(), r.1.deep_view()) == (RestoreModel {
                files: files.deep_view(),
                index: index as int,
                baselined: baselined as int,
                ..self.deep_view()
            }).proceed(),
    {
        let run = Restore {
            project: self.project,
            db: self.db,
            target: self.target,
            comment: self.comment,
            duration_ms: self.duration_ms,
            files,
            index,
            baselined,
            phase: RestorePhase::Ended,
        };
        if index < run.files.len() {
            assert(run.files.deep_view()[index as int] == run.files@[index as int].deep_view());
            let filename = run.files[index].filename.clone();
            (run.waiting(RestorePhase::Querying), Step::Do(Action::QueryRecorded { filename }))
        } else {
            let mut entry = AuditEntry::success(
                "restore",
                run.project.as_str(),
                run.target.as_str(),
                None,
                run.duration_ms as i32,
            );
            entry.comment = Some(run.comment.clone());
            (run.waiting(RestorePhase::Auditing), Step::Do(Action::Audit { entry }))
        }
    }

    /// Goes on after an event that is no failure.
    fn advance(self, event: Event, sum: String, now: u128) -> (r: (Restore, Step))
        requires
            self.deep_view().valid(),
            self.deep_view().expects(event.deep_view()),
            !(event is Failed),
            !(self.deep_view().phase is Auditing),
        ensures
            (r.0.deep_view(), r.1.deep_view()) == self.deep_view().advance(
                event.deep_view(),
                sum@,
                now,
            ),
    {
        let db = self.db.clone();
        match self.phase {
            RestorePhase::Connecting => (
                self.waiting(RestorePhase::Terminating),
                Step::Do(Action::TerminateBackends { db }),
            ),
            RestorePhase::Terminating => (
                self.waiting(RestorePhase::Dropping),
                Step::Do(Action::DropDatabase { db }),
            ),
            RestorePhase::Dropping => (
                self.waiting(RestorePhase::Creating),
                Step::Do(Action::CreateDatabase { db }),
            ),
            RestorePhase::Creating => (
                self.waiting(RestorePhase::Opening),
                Step::Do(Action::ConnectProject { db }),
            ),
            RestorePhase::Opening => {
                let key = self.target.clone();
                (self.waiting(RestorePhase::Loading), Step::Do(Action::ReadFile { key }))
            },
            RestorePhase::Loading => match event {
                Event::Content(raw) => {
                    let sql = dump::clean(raw.as_str());
                    (
                        self.waiting(RestorePhase::Running { start: now }),
                        Step::Do(Action::RunScript { sql }),
                    )
                },
                _ => (self, Step::Fail(String::new())),
            },
            RestorePhase::Running { start } => {
                let run = Restore {
                    project: self.project,
                    db: self.db,
                    target: self.target,
                    comment: self.comment,
                    duration_ms: millis_between(start, now) as u64,
                    files: self.files,
                    index: self.index,
                    baselined: self.baselined,
                    phase: RestorePhase::SettingPath,
                };
                (run, Step::Do(Action::SetSearchPath))
            },
            RestorePhase::SettingPath => {
                let role = app_role(self.project.as_str());
                (
                    self.waiting(RestorePhase::GrantingSchema),
                    Step::Do(Action::GrantSchema { role, indent: Indent::Wide }),
                )
            },
            RestorePhase::GrantingSchema => {
                let role = app_role(self.project.as_str());
                let reader = reader_role(self.project.as_str());
                (
                    self.waiting(RestorePhase::GrantingReader),
                    Step::Do(Action::GrantReader { role, reader, membership: true }),
                )
            },
            RestorePhase::GrantingReader => (
                self.waiting(RestorePhase::Tracking),
                Step::Do(Action::InitTracking),
            ),
            RestorePhase::Tracking => {
                let prefix = prefix_of(self.project.as_str(), "");
                (self.waiting(RestorePhase::Listing), Step::Do(Action::ListFiles { prefix }))
            },
            _ => self.baseline(event, sum),
        }
    }

    /// Goes on with the migrations after an event that is no failure.
    fn baseline(self, event: Event, sum: String) -> (r: (Restore, Step))
        requires
            self.deep_view().valid(),
            self.deep_view().expects(event.deep_view()),
            !(event is Failed),
            self.deep_view().phase is Listing || self.deep_view().phase is Querying
                || self.deep_view().phase is Reading || self.deep_view().phase is Recording,
        ensures
            (r.0.deep_view(), r.1.deep_view()) == self.deep_view().advance(
                event.deep_view(),
                sum@,
                0,
            ),
    {
        let Restore {
            project,
            db,
            target,
            comment,
            duration_ms,
            files,
            index,
            baselined,
            phase,
        } = self;
        let run = Restore {
            project,
            db,
            target,
            comment,
            duration_ms,
            files: Vec::new(),
            index: 0,
            baselined: 0,
            phase: RestorePhase::Ended,
        };
        match event {
            Event::Files(listed) => run.proceed(listed, index, baselined),
            Event::Found(there) => {
                if there {
                    run.proceed(files, index + 1, baselined)
                } else {
                    assert(files.deep_view()[index as int] == files@[index as int].deep_view());
                    let key = files[index].key.clone();
                    let run = Restore {
                        project: run.project,
                        db: run.db,
                        target: run.target,
                        comment: run.comment,
                        duration_ms,
                        files,
                        index,
                        baselined,
                        phase: RestorePhase::Reading,
                    };
                    (run, Step::Do(Action::ReadFile { key }))
                }
            },
            Event::Content(_) => {
                assert(files.deep_view()[index as int] == files@[index as int].deep_view());
                let record = Action::RecordNoop {
                    filename: files[index].filename.clone(),
                    checksum: sum,
                    comment: run.comment.clone(),
                };
                let run = Restore {
                    project: run.project,
                    db: run.db,
                    target: run.target,
                    comment: run.comment,
                    duration_ms,
                    files,
                    index,
                    baselined,
                    phase: RestorePhase::Recording,
                };
                (run, Step::Do(record))
            },
            _ => run.proceed(files, index + 1, baselined + 1),
        }
    }

    /// Goes on after what came of the last action, at the reading `now` of a
    /// clock that counts nanoseconds.
    pub fn next(self, event: Event, now: u128) -> (r: (Restore, Step))
        requires
            self.deep_view().expects(event.deep_view()),
        ensures
            (r.0.deep_view(), r.1.deep_view()) == self.deep_view().next(event.deep_view(), now),
    {
        let sum = event_sum(&event);
        self.next_with(event, sum, now)
    }

    /// Goes on after what came of the last action, with the checksum of the
    /// content that it brought, at the reading `now` of a clock that counts
    /// nanoseconds.
    pub fn next_with(self, event: Event, sum: String, now: u128) -> (r: (Restore, Step))
        requires
            self.deep_view().expects(event.deep_view()),
        ensures
            (r.0.deep_view(), r.1.deep_view()) == self.deep_view().next_with(
                event.deep_view(),
                sum@,
                now,
            ),
    {
        proof {
            use_type_invariant(&self);
        }
        if self.phase == RestorePhase::Auditing {
            let mut response = Response::plain("restore", self.project.as_str());
            response.key = Some(self.target.clone());
            response.duration_ms = Some(self.duration_ms);
            response.baselined = Some(self.baselined);
            return (self.waiting(RestorePhase::Ended), Step::Finish(response));
        }
        match event {
            Event::Failed(error) => (self.waiting(RestorePhase::Ended), Step::Fail(error)),
            _ => self.advance(event, sum, now),
        }
    }
}

} // verus!
