//! Dropping the database of a project.

use vstd::prelude::*;

use super::{Action, AuditEntry, Event, EventModel, Response, Step};
use crate::ops;

verus! {

/// What a dropping waits for.
#[derive(Clone, Copy, PartialEq, Eq, Structural)]
pub enum DropPhase {
    /// The connection to the maintenance database.
    Connecting,
    /// The end of the sessions on the database.
    Terminating,
    /// The end of the database.
    Dropping,
    /// The audit line.
    Auditing,
    /// Nothing: it has ended.
    Ended,
}

/// The dropping of the database of a project.
pub struct DropDb {
    project: String,
    db: String,
    phase: DropPhase,
}

/// What a [`DropDb`] holds: the project, its database, and what is waited for.
#[verifier::ext_equal]
pub struct DropModel {
    pub project: Seq<char>,
    pub db: Seq<char>,
    pub phase: DropPhase,
}

/// What is reported at the end.
pub open spec fn dropped(project: Seq<char>, db: Seq<char>) -> Response<Seq<char>> {
    Response { db: Some(db), ..ops::plain_response("drop"@, project) }
}

/// The audit line of a database that was dropped.
pub open spec fn drop_entry(project: Seq<char>) -> AuditEntry<Seq<char>> {
    AuditEntry {
        project,
        operation: "drop"@,
        filename: None,
        checksum: None,
        status: "success"@,
        error_message: None,
        duration_ms: None,
        comment: None,
    }
}

impl DropModel {
    /// The dropping before anything is done.
    pub open spec fn start(project: Seq<char>, db: Seq<char>) -> DropModel {
        DropModel { project, db, phase: DropPhase::Connecting }
    }

    /// Whether the event is one that is waited for.
    pub open spec fn expects(self, event: EventModel) -> bool {
        !(self.phase is Ended) && (event is Done || event is Failed)
    }

    /// Waiting for something else.
    pub open spec fn waiting(self, phase: DropPhase) -> DropModel {
        DropModel { phase, ..self }
    }

    /// How it goes on after an event that is expected. Whether the audit line
    /// could be written does not matter.
    pub open spec fn next(self, event: EventModel) -> (DropModel, Step<Seq<char>>) {
        if self.phase is Auditing {
            (
                self.waiting(DropPhase::Ended),
                Step::Finish(dropped(self.project, self.db)),
            )
        } else if event is Failed {
            (self.waiting(DropPhase::Ended), Step::Fail(event->Failed_0))
        } else {
            match self.phase {
                DropPhase::Connecting => (
                    self.waiting(DropPhase::Terminating),
                    Step::Do(Action::TerminateBackends { db: self.db }),
                ),
                DropPhase::Terminating => (
                    self.waiting(DropPhase::Dropping),
                    Step::Do(Action::DropDatabase { db: self.db }),
                ),
                DropPhase::Dropping => (
                    self.waiting(DropPhase::Auditing),
                    Step::Do(Action::Audit { entry: drop_entry(self.project) }),
                ),
                _ => arbitrary(),
            }
        }
    }
}

impl DeepView for DropDb {
    type V = DropModel;

    closed spec fn deep_view(&self) -> DropModel {
        DropModel { project: self.project@, db: self.db@, phase: self.phase }
    }
}

/// A new dropping, with the first thing to do.
pub fn drop_db(project: &str, db: &str) -> (r: (DropDb, Step))
    ensures
        r.0.deep_view() == DropModel::start(project@, db@),
        r.1.deep_view() == Step::<Seq<char>>::Do(Action::ConnectAdmin),
{
    (
        DropDb {
            project: project.to_string(),
            db: db.to_string(),
            phase: DropPhase::Connecting,
        },
        Step::Do(Action::ConnectAdmin),
    )
}

impl DropDb {
    fn waiting(self, phase: DropPhase) -> (r: DropDb)
        ensures
            r.deep_view() == self.deep_view().waiting(phase),
    {
        DropDb { project: self.project, db: self.db, phase }
    }

    /// Goes on after what came of the last action.
    pub fn next(self, event: Event) -> (r: (DropDb, Step))
        requires
            self.deep_view().expects(event.deep_view()),
        ensures
            (r.0.deep_view(), r.1.deep_view()) == self.deep_view().next(event.deep_view()),
    {
        if self.phase == DropPhase::Auditing {
            let mut response = Response::plain("drop", self.project.as_str());
            response.db = Some(self.db.clone());
            return (self.waiting(DropPhase::Ended), Step::Finish(response));
        }
        match event {
            Event::Failed(error) => (self.waiting(DropPhase::Ended), Step::Fail(error)),
            _ => {
                let db = self.db.clone();
                match self.phase {
                    DropPhase::Connecting => (
                        self.waiting(DropPhase::Terminating),
                        Step::Do(Action::TerminateBackends { db }),
                    ),
                    DropPhase::Terminating => (
                        self.waiting(DropPhase::Dropping),
                        Step::Do(Action::DropDatabase { db }),
                    ),
                    DropPhase::Dropping => {
                        let entry = AuditEntry {
                            project: self.project.clone(),
                            operation: "drop".to_string(),
                            filename: None,
                            checksum: None,
                            status: "success".to_string(),
                            error_message: None,
                            duration_ms: None,
                            comment: None,
                        };
                        (self.waiting(DropPhase::Auditing), Step::Do(Action::Audit { entry }))
                    },
                    _ => (self, Step::Fail(String::new())),
                }
            },
        }
    }
}

} // verus!
