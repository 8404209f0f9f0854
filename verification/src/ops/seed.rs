//! Running the seed files of a project.

use vstd::prelude::*;

use super::{
    event_sum, millis_between, prefix_of, Action, AuditEntry, Event, EventModel, Response, Step,
};
use crate::ops;
use crate::storage::{FileModel, MigrationFile};

verus! {

/// What a run of seed files waits for.
#[verifier::ext_equal]
pub enum SeedPhase<T = String> {
    /// The list of files.
    Listing,
    /// The content of the current file.
    Reading,
    /// The script of the current file.
    Running { checksum: T, start: u128 },
    /// The note that the current file was run.
    Logging { checksum: T, duration_ms: i32 },
    /// The audit line of the current file.
    Auditing,
    /// The audit line of an error.
    Failing { error: T },
    /// Nothing: the run has ended.
    Ended,
}

/// A run of the seed files of a project.
pub struct Seed {
    project: String,
    files: Vec<MigrationFile>,
    index: usize,
    phase: SeedPhase,
}

/// What a [`Seed`] holds: the project, its seed files, how many of them have
/// been run, and what is waited for.
#[verifier::ext_equal]
pub struct SeedModel {
    pub project: Seq<char>,
    pub files: Seq<FileModel>,
    pub index: int,
    pub phase: SeedPhase<Seq<char>>,
}

/// What is reported when every file has been run.
pub open spec fn seeded(project: Seq<char>, count: int) -> Response<Seq<char>> {
    Response { applied: Some(count as i32), ..ops::plain_response("seed"@, project) }
}

impl SeedModel {
    /// The run before anything is known.
    pub open spec fn start(project: Seq<char>) -> SeedModel {
        SeedModel { project, files: Seq::empty(), index: 0, phase: SeedPhase::Listing }
    }

    /// Whether the event is one that the run waits for.
    pub open spec fn expects(self, event: EventModel) -> bool {
        match self.phase {
            SeedPhase::Ended => false,
            SeedPhase::Listing => match event {
                EventModel::Files(files) => files.len() <= i32::MAX,
                EventModel::Failed(_) => true,
                _ => false,
            },
            SeedPhase::Reading => event is Content || event is Failed,
            _ => event is Done || event is Failed,
        }
    }

    /// Waiting for something else.
    pub open spec fn waiting(self, phase: SeedPhase<Seq<char>>) -> SeedModel {
        SeedModel { phase, ..self }
    }

    /// Going on with the file at the index, or ending behind the last one.
    pub open spec fn proceed(self) -> (SeedModel, Step<Seq<char>>) {
        if self.index < self.files.len() {
            (
                self.waiting(SeedPhase::Reading),
                Step::Do(Action::ReadFile { key: self.files[self.index].key }),
            )
        } else {
            (self.waiting(SeedPhase::Ended), Step::Finish(seeded(self.project, self.index)))
        }
    }

    /// Ending with an error.
    pub open spec fn fail(self, error: Seq<char>) -> (SeedModel, Step<Seq<char>>) {
        (self.waiting(SeedPhase::Ended), Step::Fail(error))
    }

    /// How the run goes on after an event that it expects.
    pub open spec fn next(self, event: EventModel, now: u128) -> (SeedModel, Step<Seq<char>>) {
        self.next_with(event, ops::sum_of(event), now)
    }

    /// How the run goes on after an event that it expects, with the checksum of
    /// the content that the event tells of.
    pub open spec fn next_with(self, event: EventModel, sum: Seq<char>, now: u128) -> (
        SeedModel,
        Step<Seq<char>>,
    ) {
        let filename = self.files[self.index].filename;
        match self.phase {
            SeedPhase::Listing => match event {
                EventModel::Files(files) => SeedModel { files, ..self }.proceed(),
                EventModel::Failed(error) => self.fail(error),
                _ => arbitrary(),
            },
            SeedPhase::Reading => match event {
                EventModel::Content(sql) => (
                    self.waiting(SeedPhase::Running { checksum: sum, start: now }),
                    Step::Do(Action::RunScript { sql }),
                ),
                EventModel::Failed(error) => self.fail(error),
                _ => arbitrary(),
            },
            SeedPhase::Running { checksum, start } => match event {
                EventModel::Failed(error) => (
                    self.waiting(SeedPhase::Failing { error }),
                    Step::Do(
                        Action::Audit {
                            entry: ops::error_entry(
                                "seed"@,
                                self.project,
                                filename,
                                Some(checksum),
                                error,
                            ),
                        },
                    ),
                ),
                _ => (
                    self.waiting(
                        SeedPhase::Logging {
                            checksum,
                            duration_ms: ops::elapsed_ms(start, now) as i32,
                        },
                    ),
                    Step::Do(Action::LogSeed { project: self.project, filename, checksum }),
                ),
            },
            SeedPhase::Logging { checksum, duration_ms } => (
                self.waiting(SeedPhase::Auditing),
                Step::Do(
                    Action::Audit {
                        entry: ops::success_entry(
                            "seed"@,
                            self.project,
                            filename,
                            Some(checksum),
                            duration_ms,
                        ),
                    },
                ),
            ),
            SeedPhase::Auditing => SeedModel { index: self.index + 1, ..self }.proceed(),
            SeedPhase::Failing { error } => self.fail(error),
            SeedPhase::Ended => arbitrary(),
        }
    }

    /// What holds of every run: a file is at hand where one is being dealt
    /// with.
    pub open spec fn valid(self) -> bool {
        &&& 0 <= self.index <= self.files.len() <= i32::MAX
        &&& match self.phase {
            SeedPhase::Listing => self.index == 0,
            SeedPhase::Ended => true,
            _ => self.index < self.files.len(),
        }
    }
}

spec fn phase_view(phase: SeedPhase) -> SeedPhase<Seq<char>> {
    match phase {
        SeedPhase::Listing => SeedPhase::Listing,
        SeedPhase::Reading => SeedPhase::Reading,
        SeedPhase::Running { checksum, start } => SeedPhase::Running { checksum: checksum@, start },
        SeedPhase::Logging { checksum, duration_ms } => SeedPhase::Logging {
            checksum: checksum@,
            duration_ms,
        },
        SeedPhase::Auditing => SeedPhase::Auditing,
        SeedPhase::Failing { error } => SeedPhase::Failing { error: error@ },
        SeedPhase::Ended => SeedPhase::Ended,
    }
}

impl DeepView for Seed {
    type V = SeedModel;

    closed spec fn deep_view(&self) -> SeedModel {
        SeedModel {
            project: self.project@,
            files: self.files.deep_view(),
            index: self.index as int,
            phase: phase_view(self.phase),
        }
    }
}

/// A new run for `project`, with the first thing to do.
pub fn seed(project: &str) -> (r: (Seed, Step))
    ensures
        r.0.deep_view() == SeedModel::start(project@),
        r.1.deep_view() == Step::Do(
            Action::ListFiles { prefix: ops::files_prefix(project@, "seed/"@) },
        ),
{
    let run = Seed {
        project: project.to_string(),
        files: Vec::new(),
        index: 0,
        phase: SeedPhase::Listing,
    };
    assert(run.deep_view().files =~= Seq::empty());
    (run, Step::Do(Action::ListFiles { prefix: prefix_of(project, "seed/") }))
}

impl Seed {
    #[verifier::type_invariant]
    spec fn is_valid(&self) -> bool {
        self.deep_view().valid()
    }

    fn waiting(self, phase: SeedPhase) -> (r: Seed)
        requires
            self.deep_view().waiting(phase_view(phase)).valid(),
        ensures
            r.deep_view() == self.deep_view().waiting(phase_view(phase)),
    {
        Seed { project: self.project, files: self.files, index: self.index, phase }
    }

    /// Going on with the file at the index.
    fn proceed(self) -> (r: (Seed, Step))
        requires
            self.deep_view().valid(),
            self.deep_view().phase is Ended,
        ensures
            (r.0.deep_view(), r.1.deep_view()) == self.deep_view().proceed(),
    {
        if self.index < self.files.len() {
            assert(self.files.deep_view()[self.index as int]
                == self.files@[self.index as int].deep_view());
            let key = self.files[self.index].key.clone();
            (self.waiting(SeedPhase::Reading), Step::Do(Action::ReadFile { key }))
        } else {
            let mut response = Response::plain("seed", self.project.as_str());
            response.applied = Some(self.index as i32);
            (self, Step::Finish(response))
        }
    }

    fn fail(self, error: String) -> (r: (Seed, Step))
        requires
            self.deep_view().valid(),
        ensures
            (r.0.deep_view(), r.1.deep_view()) == self.deep_view().fail(error@),
    {
        (self.waiting(SeedPhase::Ended), Step::Fail(error))
    }

    /// Goes on after what came of the last action, at the reading `now` of a
    /// clock that counts nanoseconds.
    pub fn next(self, event: Event, now: u128) -> (r: (Seed, Step))
        requires
            self.deep_view().expects(event.deep_view()),
        ensures
            (r.0.deep_view(), r.1.deep_view()) == self.deep_view().next(event.deep_view(), now),
    {
        let sum = event_sum(&event);
        self.next_with(event, sum, now)
    }

    /// Goes on after what came of the last action, with the checksum of the
    /// content that it brought, at the reading `now` of a clock that counts
    /// nanoseconds.
    pub fn next_with(self, event: Event, sum: String, now: u128) -> (r: (Seed, Step))
        requires
            self.deep_view().expects(event.deep_view()),
        ensures
            (r.0.deep_view(), r.1.deep_view()) == self.deep_view().next_with(
                event.deep_view(),
                sum@,
                now,
            ),
    {
        proof {
            use_type_invariant(&self);
        }
        let Seed { project, files, index, phase } = self;
        let run = Seed { project, files, index, phase: SeedPhase::Ended };
        assert(!(phase is Listing) ==> run.files.deep_view()[index as int]
            == run.files@[index as int].deep_view());
        match phase {
            SeedPhase::Listing => match event {
                Event::Files(files) => {
                    let run = Seed {
                        project: run.project,
                        files,
                        index,
                        phase: SeedPhase::Ended,
                    };
                    run.proceed()
                },
                Event::Failed(error) => run.fail(error),
                _ => (run, Step::Fail(String::new())),
            },
            SeedPhase::Reading => match event {
                Event::Content(sql) => (
                    run.waiting(SeedPhase::Running { checksum: sum, start: now }),
                    Step::Do(Action::RunScript { sql }),
                ),
                Event::Failed(error) => run.fail(error),
                _ => (run, Step::Fail(String::new())),
            },
            SeedPhase::Running { checksum, start } => match event {
                Event::Failed(error) => {
                    let entry = AuditEntry::failure(
                        "seed",
                        run.project.as_str(),
                        run.files[index].filename.as_str(),
                        Some(checksum),
                        error.as_str(),
                    );
                    (
                        run.waiting(SeedPhase::Failing { error }),
                        Step::Do(Action::Audit { entry }),
                    )
                },
                _ => {
                    let duration_ms: i32 = millis_between(start, now) as i32;
                    let log = Action::LogSeed {
                        project: run.project.clone(),
                        filename: run.files[index].filename.clone(),
                        checksum: checksum.clone(),
                    };
                    (run.waiting(SeedPhase::Logging { checksum, duration_ms }), Step::Do(log))
                },
            },
            SeedPhase::Logging { checksum, duration_ms } => {
                let entry = AuditEntry::success(
                    "seed",
                    run.project.as_str(),
                    run.files[index].filename.as_str(),
                    Some(checksum),
                    duration_ms,
                );
                (run.waiting(SeedPhase::Auditing), Step::Do(Action::Audit { entry }))
            },
            SeedPhase::Auditing => {
                let run = Seed {
                    project: run.project,
                    files: run.files,
                    index: index + 1,
                    phase: SeedPhase::Ended,
                };
                run.proceed()
            },
            SeedPhase::Failing { error } => run.fail(error),
            SeedPhase::Ended => (run, Step::Fail(String::new())),
        }
    }
}

} // verus!
