//! Tracking a migration without running it.

use vstd::prelude::*;
use vstd::string::*;

use super::{event_sum, prefix_of, Action, AuditEntry, Event, EventModel, Response, Step};
use crate::ops;
use crate::storage::{FileModel, MigrationFile};
use crate::text;

verus! {

/// Where the files are kept, as messages name it.
#[derive(Clone, Copy, PartialEq, Eq, Structural)]
pub enum FileSource {
    /// A store of any kind.
    Store,
    /// An S3 bucket.
    S3,
}

/// What a recording waits for.
#[verifier::ext_equal]
pub enum NoopPhase<T = String> {
    /// The tracking table.
    Tracking,
    /// Whether the migration is tracked.
    Querying,
    /// The list of files.
    Listing,
    /// The content of the file.
    Reading,
    /// The tracking of the file.
    Recording { checksum: T },
    /// The audit line.
    Auditing,
    /// Nothing: the recording has ended.
    Ended,
}

/// The recording of a migration that is not to be run.
pub struct Noop {
    project: String,
    target: String,
    comment: String,
    source: FileSource,
    phase: NoopPhase,
}

/// What a [`Noop`] holds: the project, the migration, why it is not run, where
/// the files are kept, and what is waited for.
#[verifier::ext_equal]
pub struct NoopModel {
    pub project: Seq<char>,
    pub target: Seq<char>,
    pub comment: Seq<char>,
    pub source: FileSource,
    pub phase: NoopPhase<Seq<char>>,
}

/// The error of a migration that has no file.
pub open spec fn no_migration_file(
    source: FileSource,
    project: Seq<char>,
    target: Seq<char>,
) -> Seq<char> {
    (match source {
        FileSource::Store => "Migration file not found: migrations/"@,
        FileSource::S3 => "Migration file not found in S3: migrations/"@,
    }) + project + "/"@ + target
}

/// What is reported of a migration that is tracked already.
pub open spec fn already_recorded(project: Seq<char>, target: Seq<char>) -> Response<Seq<char>> {
    Response {
        file: Some(target),
        status: Some("already_recorded"@),
        ..ops::plain_response("noop"@, project)
    }
}

/// What is reported of a migration that was recorded.
pub open spec fn recorded(
    project: Seq<char>,
    target: Seq<char>,
    comment: Seq<char>,
) -> Response<Seq<char>> {
    Response {
        file: Some(target),
        comment: Some(comment),
        ..ops::plain_response("noop"@, project)
    }
}

/// The audit line of a migration that was recorded.
pub open spec fn noop_entry(
    project: Seq<char>,
    target: Seq<char>,
    checksum: Seq<char>,
    comment: Seq<char>,
) -> AuditEntry<Seq<char>> {
    AuditEntry {
        comment: Some(comment),
        ..ops::success_entry("noop"@, project, target, Some(checksum), 0)
    }
}

/// Where the first file of this name stands among the files, from `from` on;
/// the number of files where there is none.
pub open spec fn find_file(files: Seq<FileModel>, name: Seq<char>, from: int) -> int
    decreases files.len() - from,
{
    if from >= files.len() {
        files.len() as int
    } else if files[from].filename == name {
        from
    } else {
        find_file(files, name, from + 1)
    }
}

impl NoopModel {
    /// The recording before anything is known.
    pub open spec fn start(
        project: Seq<char>,
        target: Seq<char>,
        comment: Seq<char>,
        source: FileSource,
    ) -> NoopModel {
        NoopModel { project, target, comment, source, phase: NoopPhase::Tracking }
    }

    /// Whether the event is one that the recording waits for.
    pub open spec fn expects(self, event: EventModel) -> bool {
        match self.phase {
            NoopPhase::Ended => false,
            NoopPhase::Querying => event is Found || event is Failed,
            NoopPhase::Listing => event is Files || event is Failed,
            NoopPhase::Reading => event is Content || event is Failed,
            _ => event is Done || event is Failed,
        }
    }

    /// Waiting for something else.
    pub open spec fn waiting(self, phase: NoopPhase<Seq<char>>) -> NoopModel {
        NoopModel { phase, ..self }
    }

    /// Ending with an error.
    pub open spec fn fail(self, error: Seq<char>) -> (NoopModel, Step<Seq<char>>) {
        (self.waiting(NoopPhase::Ended), Step::Fail(error))
    }

    /// How the recording goes on after an event that it expects.
    pub open spec fn next(self, event: EventModel) -> (NoopModel, Step<Seq<char>>) {
        self.next_with(event, ops::sum_of(event))
    }

    /// How the recording goes on after an event that it expects, with the
    /// checksum of the content that the event tells of.
    pub open spec fn next_with(self, event: EventModel, sum: Seq<char>) -> (
        NoopModel,
        Step<Seq<char>>,
    ) {
        match self.phase {
            NoopPhase::Tracking => match event {
                EventModel::Failed(error) => self.fail(error),
                _ => (
                    self.waiting(NoopPhase::Querying),
                    Step::Do(Action::QueryRecorded { filename: self.target }),
                ),
            },
            NoopPhase::Querying => match event {
                EventModel::Found(there) => if there {
                    (
                        self.waiting(NoopPhase::Ended),
                        Step::Finish(already_recorded(self.project, self.target)),
                    )
                } else {
                    (
                        self.waiting(NoopPhase::Listing),
                        Step::Do(
                            Action::ListFiles { prefix: ops::files_prefix(self.project, ""@) },
                        ),
                    )
                },
                EventModel::Failed(error) => self.fail(error),
                _ => arbitrary(),
            },
            NoopPhase::Listing => match event {
                EventModel::Files(files) => {
                    let at = find_file(files, self.target, 0);
                    if at < files.len() {
                        (
                            self.waiting(NoopPhase::Reading),
                            Step::Do(Action::ReadFile { key: files[at].key }),
                        )
                    } else {
                        self.fail(no_migration_file(self.source, self.project, self.target))
                    }
                },
                EventModel::Failed(error) => self.fail(error),
                _ => arbitrary(),
            },
            NoopPhase::Reading => match event {
                EventModel::Content(_) => (
                    self.waiting(NoopPhase::Recording { checksum: sum }),
                    Step::Do(
                        Action::RecordNoop {
                            filename: self.target,
                            checksum: sum,
                            comment: self.comment,
                        },
                    ),
                ),
                EventModel::Failed(error) => self.fail(error),
                _ => arbitrary(),
            },
            NoopPhase::Recording { checksum } => match event {
                EventModel::Failed(error) => self.fail(error),
                _ => (
                    self.waiting(NoopPhase::Auditing),
                    Step::Do(
                        Action::Audit {
                            entry: noop_entry(self.project, self.target, checksum, self.comment),
                        },
                    ),
                ),
            },
            NoopPhase::Auditing => (
                self.waiting(NoopPhase::Ended),
                Step::Finish(recorded(self.project, self.target, self.comment)),
            ),
            NoopPhase::Ended => arbitrary(),
        }
    }
}

spec fn phase_view(phase: NoopPhase) -> NoopPhase<Seq<char>> {
    match phase {
        NoopPhase::Tracking => NoopPhase::Tracking,
        NoopPhase::Querying => NoopPhase::Querying,
        NoopPhase::Listing => NoopPhase::Listing,
        NoopPhase::Reading => NoopPhase::Reading,
        NoopPhase::Recording { checksum } => NoopPhase::Recording { checksum: checksum@ },
        NoopPhase::Auditing => NoopPhase::Auditing,
        NoopPhase::Ended => NoopPhase::Ended,
    }
}

impl DeepView for Noop {
    type V = NoopModel;

    closed spec fn deep_view(&self) -> NoopModel {
        NoopModel {
            project: self.project@,
            target: self.target@,
            comment: self.comment@,
            source: self.source,
            phase: phase_view(self.phase),
        }
    }
}

/// The key of the first file of this name.
fn key_of(files: &Vec<MigrationFile>, name: &str) -> (r: Option<String>)
    ensures
        ({
            let at = find_file(files.deep_view(), name@, 0);
            match r {
                Some(key) => at < files@.len() && key@ == files.deep_view()[at].key,
                None => at >= files@.len(),
            }
        }),
{
    let mut i: usize = 0;
    while i < files.len()
        invariant
            i <= files@.len(),
            find_file(files.deep_view(), name@, 0) == find_file(
                files.deep_view(),
                name@,
                i as int,
            ),
        decreases files@.len() - i,
    {
        assert(files.deep_view()[i as int] == files@[i as int].deep_view());
        if text::same(files[i].filename.as_str(), name) {
            return Some(files[i].key.clone());
        }
        i += 1;
    }
    None
}

/// A new recording, with the first thing to do.
pub fn noop(project: &str, target: &str, comment: &str, source: FileSource) -> (r: (
    Noop,
    Step,
))
    ensures
        r.0.deep_view() == NoopModel::start(project@, target@, comment@, source),
        r.1.deep_view() == Step::<Seq<char>>::Do(Action::InitTracking),
{
    (
        Noop {
            project: project.to_string(),
            target: target.to_string(),
            comment: comment.to_string(),
            source,
            phase: NoopPhase::Tracking,
        },
        Step::Do(Action::InitTracking),
    )
}

impl Noop {
    fn waiting(self, phase: NoopPhase) -> (r: Noop)
        ensures
            r.deep_view() == self.deep_view().waiting(phase_view(phase)),
    {
        Noop {
            project: self.project,
            target: self.target,
            comment: self.comment,
            source: self.source,
            phase,
        }
    }

    fn fail(self, error: String) -> (r: (Noop, Step))
        ensures
            (r.0.deep_view(), r.1.deep_view()) == self.deep_view().fail(error@),
    {
        (self.waiting(NoopPhase::Ended), Step::Fail(error))
    }

    /// The error of a migration that has no file.
    fn missing(&self) -> (r: String)
        ensures
            r@ == no_migration_file(
                self.deep_view().source,
                self.deep_view().project,
                self.deep_view().target,
            ),
    {
        let head = match self.source {
            FileSource::Store => "Migration file not found: migrations/",
            FileSource::S3 => "Migration file not found in S3: migrations/",
        };
        String::from_str(head).concat(self.project.as_str()).concat("/").concat(
            self.target.as_str(),
        )
    }

    /// Goes on after what came of the last action.
    pub fn next(self, event: Event) -> (r: (Noop, Step))
        requires
            self.deep_view().expects(event.deep_view()),
        ensures
            (r.0.deep_view(), r.1.deep_view()) == self.deep_view().next(event.deep_view()),
    {
        let sum = event_sum(&event);
        self.next_with(event, sum)
    }

    /// Goes on after what came of the last action, with the checksum of the
    /// content that it brought.
    pub fn next_with(self, event: Event, sum: String) -> (r: (Noop, Step))
        requires
            self.deep_view().expects(event.deep_view()),
        ensures
            (r.0.deep_view(), r.1.deep_view()) == self.deep_view().next_with(
                event.deep_view(),
                sum@,
            ),
    {
        let Noop { project, target, comment, source, phase } = self;
        let run = Noop { project, target, comment, source, phase: NoopPhase::Ended };
        match phase {
            NoopPhase::Tracking => match event {
                Event::Failed(error) => run.fail(error),
                _ => {
                    let filename = run.target.clone();
                    (
                        run.waiting(NoopPhase::Querying),
                        Step::Do(Action::QueryRecorded { filename }),
                    )
                },
            },
            NoopPhase::Querying => match event {
                Event::Found(there) => {
                    if there {
                        let mut response = Response::plain("noop", run.project.as_str());
                        response.file = Some(run.target.clone());
                        response.status = Some("already_recorded".to_string());
                        (run, Step::Finish(response))
                    } else {
                        let prefix = prefix_of(run.project.as_str(), "");
                        (run.waiting(NoopPhase::Listing), Step::Do(Action::ListFiles { prefix }))
                    }
                },
                Event::Failed(error) => run.fail(error),
                _ => (run, Step::Fail(String::new())),
            },
            NoopPhase::Listing => match event {
                Event::Files(files) => match key_of(&files, run.target.as_str()) {
                    Some(key) => (
                        run.waiting(NoopPhase::Reading),
                        Step::Do(Action::ReadFile { key }),
                    ),
                    None => {
                        let error = run.missing();
                        run.fail(error)
                    },
                },
                Event::Failed(error) => run.fail(error),
                _ => (run, Step::Fail(String::new())),
            },
            NoopPhase::Reading => match event {
                Event::Content(_) => {
                    let record = Action::RecordNoop {
                        filename: run.target.clone(),
                        checksum: sum.clone(),
                        comment: run.comment.clone(),
                    };
                    (run.waiting(NoopPhase::Recording { checksum: sum }), Step::Do(record))
                },
                Event::Failed(error) => run.fail(error),
                _ => (run, Step::Fail(String::new())),
            },
            NoopPhase::Recording { checksum } => match event {
                Event::Failed(error) => run.fail(error),
                _ => {
                    let mut entry = AuditEntry::success(
                        "noop",
                        run.project.as_str(),
                        run.target.as_str(),
                        Some(checksum),
                        0,
                    );
                    entry.comment = Some(run.comment.clone());
                    (run.waiting(NoopPhase::Auditing), Step::Do(Action::Audit { entry }))
                },
            },
            NoopPhase::Auditing => {
                let mut response = Response::plain("noop", run.project.as_str());
                response.file = Some(run.target.clone());
                response.comment = Some(run.comment.clone());
                (run, Step::Finish(response))
            },
            NoopPhase::Ended => (run, Step::Fail(String::new())),
        }
    }
}

} // verus!
