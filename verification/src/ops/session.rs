//! An operation from its preparation to the end.
//!
//! A session provides what its operation needs, takes the lock of the project,
//! runs the operation, gives the lock back whatever came of it, and ends as the
//! operation ended.

use vstd::prelude::*;

use super::drop_db::{drop_db, DropDb, DropModel};
use super::migrate::{migrate, Migrate, MigrateModel};
use super::noop::{noop, FileSource, Noop, NoopModel};
use super::provision::{provide, Provision, ProvisionModel, ProvisionStep};
use super::restore::{restore, Restore, RestoreModel};
use super::rollback::{rollback, Rollback, RollbackModel};
use super::seed::{seed, Seed, SeedModel};
use super::sql;
use super::{Action, Event, EventModel, Indent, Step};
use crate::lock;
use crate::ops;
use crate::password;

verus! {

/// An operation under way.
pub enum Operation {
    Migrate(Migrate),
    Rollback(Rollback),
    Seed(Seed),
    Drop(DropDb),
    Noop(Noop),
    Restore(Restore),
}

/// What an [`Operation`] holds.
#[verifier::ext_equal]
pub enum OperationModel {
    Migrate(MigrateModel),
    Rollback(RollbackModel),
    Seed(SeedModel),
    Drop(DropModel),
    Noop(NoopModel),
    Restore(RestoreModel),
}

impl OperationModel {
    /// Whether the event is one that the operation waits for.
    pub open spec fn expects(self, event: EventModel) -> bool {
        match self {
            OperationModel::Migrate(m) => m.expects(event),
            OperationModel::Rollback(m) => m.expects(event),
            OperationModel::Seed(m) => m.expects(event),
            OperationModel::Drop(m) => m.expects(event),
            OperationModel::Noop(m) => m.expects(event),
            OperationModel::Restore(m) => m.expects(event),
        }
    }

    /// How the operation goes on after an event that it expects.
    pub open spec fn next(self, event: EventModel, now: u128) -> (
        OperationModel,
        Step<Seq<char>>,
    ) {
        match self {
            OperationModel::Migrate(m) => {
                let (m, step) = m.next(event, now);
                (OperationModel::Migrate(m), step)
            },
            OperationModel::Rollback(m) => {
                let (m, step) = m.next(event, now);
                (OperationModel::Rollback(m), step)
            },
            OperationModel::Seed(m) => {
                let (m, step) = m.next(event, now);
                (OperationModel::Seed(m), step)
            },
            OperationModel::Drop(m) => {
                let (m, step) = m.next(event);
                (OperationModel::Drop(m), step)
            },
            OperationModel::Noop(m) => {
                let (m, step) = m.next(event);
                (OperationModel::Noop(m), step)
            },
            OperationModel::Restore(m) => {
                let (m, step) = m.next(event, now);
                (OperationModel::Restore(m), step)
            },
        }
    }

    /// Whether the operation needs the database, roles and credentials of the
    /// project.
    pub open spec fn needs_database(self) -> bool {
        self is Migrate || self is Noop || self is Restore
    }

    /// Whether the operation works as the project's application.
    pub open spec fn needs_app(self) -> bool {
        !(self is Drop || self is Restore)
    }
}

impl DeepView for Operation {
    type V = OperationModel;

    open spec fn deep_view(&self) -> OperationModel {
        match *self {
            Operation::Migrate(m) => OperationModel::Migrate(m.deep_view()),
            Operation::Rollback(m) => OperationModel::Rollback(m.deep_view()),
            Operation::Seed(m) => OperationModel::Seed(m.deep_view()),
            Operation::Drop(m) => OperationModel::Drop(m.deep_view()),
            Operation::Noop(m) => OperationModel::Noop(m.deep_view()),
            Operation::Restore(m) => OperationModel::Restore(m.deep_view()),
        }
    }
}

impl Operation {
    /// Goes on after what came of the last action, at the reading `now` of a
    /// clock that counts nanoseconds.
    pub fn next(self, event: Event, now: u128) -> (r: (Operation, Step))
        requires
            self.deep_view().expects(event.deep_view()),
        ensures
            (r.0.deep_view(), r.1.deep_view()) == self.deep_view().next(event.deep_view(), now),
    {
        match self {
            Operation::Migrate(m) => {
                let (m, step) = m.next(event, now);
                (Operation::Migrate(m), step)
            },
            Operation::Rollback(m) => {
                let (m, step) = m.next(event, now);
                (Operation::Rollback(m), step)
            },
            Operation::Seed(m) => {
                let (m, step) = m.next(event, now);
                (Operation::Seed(m), step)
            },
            Operation::Drop(m) => {
                let (m, step) = m.next(event);
                (Operation::Drop(m), step)
            },
            Operation::Noop(m) => {
                let (m, step) = m.next(event);
                (Operation::Noop(m), step)
            },
            Operation::Restore(m) => {
                let (m, step) = m.next(event, now);
                (Operation::Restore(m), step)
            },
        }
    }

    fn needs_database(&self) -> (r: bool)
        ensures
            r == self.deep_view().needs_database(),
    {
        match self {
            Operation::Migrate(_) | Operation::Noop(_) | Operation::Restore(_) => true,
            _ => false,
        }
    }

    fn needs_app(&self) -> (r: bool)
        ensures
            r == self.deep_view().needs_app(),
    {
        match self {
            Operation::Drop(_) | Operation::Restore(_) => false,
            _ => true,
        }
    }
}

/// What is asked of a project's database.
pub enum Request {
    Migrate,
    Rollback { down_to: Option<String> },
    Seed,
    Drop,
    Noop { target: String, comment: String },
    Restore { target: String, comment: String },
}

/// What a session waits for.
pub enum SessionPhase {
    /// The list of seed files, which says whether there is anything to do.
    Listing,
    /// The project's database.
    Providing(Provision),
    /// The connection to the maintenance database.
    Connecting,
    /// Whether the service's database exists.
    SeekingOps,
    /// The service's database.
    CreatingOps,
    /// The connection to the service's database.
    OpeningOps,
    /// The service's tables.
    PreparingOps,
    /// The connection as the project's application.
    OpeningApp,
    /// The lock of the project.
    Locking,
    /// The operation.
    Running,
    /// The end of the lock.
    Releasing { outcome: Step },
    /// Nothing: the session has ended.
    Ended,
}

/// What a [`SessionPhase`] says.
#[verifier::ext_equal]
pub enum PhaseModel {
    Listing,
    Providing(ProvisionModel),
    Connecting,
    SeekingOps,
    CreatingOps,
    OpeningOps,
    PreparingOps,
    OpeningApp,
    Locking,
    Running,
    Releasing { outcome: Step<Seq<char>> },
    Ended,
}

/// An operation from its preparation to the end.
pub struct Session {
    project: String,
    db: String,
    id: i64,
    operation: Operation,
    first: Option<Action>,
    phase: SessionPhase,
}

/// What a [`Session`] holds: the project, its database, the number of its lock,
/// the operation, the first action of the operation under the lock where that is
/// still to be done, and what is waited for.
#[verifier::ext_equal]
pub struct SessionModel {
    pub project: Seq<char>,
    pub db: Seq<char>,
    pub id: i64,
    pub operation: OperationModel,
    pub first: Option<Action<Seq<char>>>,
    pub phase: PhaseModel,
}

/// The operation that is asked for, and its first action.
pub open spec fn requested(project: Seq<char>, db: Seq<char>, request: Request) -> (
    OperationModel,
    Action<Seq<char>>,
) {
    match request {
        Request::Migrate => (
            OperationModel::Migrate(MigrateModel::start(project)),
            Action::InitTracking,
        ),
        Request::Rollback { down_to } => (
            OperationModel::Rollback(RollbackModel::start(project, down_to.deep_view())),
            Action::QueryAppliedNames,
        ),
        Request::Seed => (
            OperationModel::Seed(SeedModel::start(project)),
            Action::ListFiles { prefix: ops::files_prefix(project, "seed/"@) },
        ),
        Request::Drop => (
            OperationModel::Drop(DropModel::start(project, db)),
            Action::ConnectAdmin,
        ),
        Request::Noop { target, comment } => (
            OperationModel::Noop(NoopModel::start(project, target@, comment@, FileSource::S3)),
            Action::InitTracking,
        ),
        Request::Restore { target, comment } => (
            OperationModel::Restore(RestoreModel::start(project, db, target@, comment@)),
            Action::ConnectAdmin,
        ),
    }
}

impl SessionModel {
    /// The session that is asked for, with the first thing to do.
    pub open spec fn start(project: Seq<char>, db: Seq<char>, request: Request) -> (
        SessionModel,
        Step<Seq<char>>,
    ) {
        let (operation, first) = requested(project, db, request);
        let session = SessionModel {
            project,
            db,
            id: lock::magnitude(lock::project_hash_spec(project)) as i64,
            operation,
            first: Some(first),
            phase: PhaseModel::Listing,
        };
        if operation is Seed {
            (SessionModel { first: None, ..session }, Step::Do(first))
        } else if operation.needs_database() {
            session.do_next(
                PhaseModel::Providing(ProvisionModel::start(project, db, Indent::Narrow)),
                Action::ConnectAdmin,
            )
        } else {
            session.do_next(PhaseModel::Connecting, Action::ConnectAdmin)
        }
    }

    /// Whether the event is one that the session waits for.
    pub open spec fn expects(self, event: EventModel) -> bool {
        match self.phase {
            PhaseModel::Ended => false,
            PhaseModel::Listing | PhaseModel::Running => self.operation.expects(event),
            PhaseModel::Providing(provision) => provision.expects(event),
            PhaseModel::SeekingOps => event is Found || event is Failed,
            _ => event is Done || event is Failed,
        }
    }

    /// Whether a role is to be created after the event.
    pub open spec fn wants_password(self, event: EventModel) -> bool {
        self.phase matches PhaseModel::Providing(provision) && provision.wants_password(event)
    }

    /// Performing an action and waiting for it.
    pub open spec fn do_next(self, phase: PhaseModel, action: Action<Seq<char>>) -> (
        SessionModel,
        Step<Seq<char>>,
    ) {
        (SessionModel { phase, ..self }, Step::Do(action))
    }

    /// Ending with an error.
    pub open spec fn fail(self, error: Seq<char>) -> (SessionModel, Step<Seq<char>>) {
        (SessionModel { phase: PhaseModel::Ended, ..self }, Step::Fail(error))
    }

    /// Going on with the list of seed files: with none the session is over.
    pub open spec fn listed(self, event: EventModel, now: u128) -> (
        SessionModel,
        Step<Seq<char>>,
    ) {
        let (operation, step) = self.operation.next(event, now);
        match step {
            Step::Do(first) => SessionModel {
                operation,
                first: Some(first),
                ..self
            }.do_next(
                PhaseModel::Connecting,
                Action::ConnectAdmin,
            ),
            _ => (SessionModel { operation, phase: PhaseModel::Ended, ..self }, step),
        }
    }

    /// Going on with the provision of the database.
    pub open spec fn provided(
        self,
        provision: ProvisionModel,
        event: EventModel,
        password: Seq<char>,
    ) -> (SessionModel, Step<Seq<char>>) {
        let (provision, step) = provision.next(event, password);
        match step {
            ProvisionStep::Do(action) => self.do_next(PhaseModel::Providing(provision), action),
            ProvisionStep::Ready => self.do_next(PhaseModel::Connecting, Action::ConnectAdmin),
            ProvisionStep::Fail(error) => self.fail(error),
        }
    }

    /// Going on with the operation: when it is over the lock is given back.
    pub open spec fn ran(self, event: EventModel, now: u128) -> (SessionModel, Step<Seq<char>>) {
        let (operation, step) = self.operation.next(event, now);
        let session = SessionModel { operation, ..self };
        match step {
            Step::Do(action) => session.do_next(PhaseModel::Running, action),
            _ => session.do_next(
                PhaseModel::Releasing { outcome: step },
                Action::ReleaseLock { id: self.id },
            ),
        }
    }

    /// How the session goes on after an event that it expects, with the
    /// password of a role that is to be created.
    pub open spec fn next(self, event: EventModel, now: u128, password: Seq<char>) -> (
        SessionModel,
        Step<Seq<char>>,
    ) {
        match self.phase {
            PhaseModel::Listing => self.listed(event, now),
            PhaseModel::Providing(provision) => self.provided(provision, event, password),
            PhaseModel::Running => self.ran(event, now),
            PhaseModel::Releasing { outcome } => (
                SessionModel { phase: PhaseModel::Ended, ..self },
                outcome,
            ),
            PhaseModel::Ended => arbitrary(),
            _ => if event is Failed {
                self.fail(event->Failed_0)
            } else {
                self.prepared(event)
            },
        }
    }

    /// Going on with the preparation after an event that is no failure.
    pub open spec fn prepared(self, event: EventModel) -> (SessionModel, Step<Seq<char>>) {
        match self.phase {
            PhaseModel::Connecting => self.do_next(
                PhaseModel::SeekingOps,
                Action::QueryDatabase { db: sql::OPS_DB@ },
            ),
            PhaseModel::SeekingOps => if event->Found_0 {
                self.do_next(PhaseModel::OpeningOps, Action::ConnectOps)
            } else {
                self.do_next(
                    PhaseModel::CreatingOps,
                    Action::CreateDatabase { db: sql::OPS_DB@ },
                )
            },
            PhaseModel::CreatingOps => self.do_next(PhaseModel::OpeningOps, Action::ConnectOps),
            PhaseModel::OpeningOps => self.do_next(PhaseModel::PreparingOps, Action::InitOps),
            PhaseModel::PreparingOps => if self.operation.needs_app() {
                self.do_next(
                    PhaseModel::OpeningApp,
                    Action::ConnectApp { project: self.project, db: self.db },
                )
            } else {
                self.do_next(PhaseModel::Locking, Action::AcquireLock { id: self.id })
            },
            PhaseModel::OpeningApp => self.do_next(
                PhaseModel::Locking,
                Action::AcquireLock { id: self.id },
            ),
            PhaseModel::Locking => match self.first {
                Some(first) => SessionModel { first: None, ..self }.do_next(
                    PhaseModel::Running,
                    first,
                ),
                None => arbitrary(),
            },
            _ => arbitrary(),
        }
    }

    /// What holds of every session: the first action of the operation is at
    /// hand until the lock is taken.
    pub open spec fn valid(self) -> bool {
        match self.phase {
            PhaseModel::Listing
            | PhaseModel::Running
            | PhaseModel::Releasing { .. }
            | PhaseModel::Ended => true,
            _ => self.first is Some,
        }
    }
}

/// What an optional action says.
spec fn first_view(first: Option<Action>) -> Option<Action<Seq<char>>> {
    match first {
        Some(action) => Some(action.deep_view()),
        None => None,
    }
}

spec fn phase_view(phase: SessionPhase) -> PhaseModel {
    match phase {
        SessionPhase::Listing => PhaseModel::Listing,
        SessionPhase::Providing(provision) => PhaseModel::Providing(provision.deep_view()),
        SessionPhase::Connecting => PhaseModel::Connecting,
        SessionPhase::SeekingOps => PhaseModel::SeekingOps,
        SessionPhase::CreatingOps => PhaseModel::CreatingOps,
        SessionPhase::OpeningOps => PhaseModel::OpeningOps,
        SessionPhase::PreparingOps => PhaseModel::PreparingOps,
        SessionPhase::OpeningApp => PhaseModel::OpeningApp,
        SessionPhase::Locking => PhaseModel::Locking,
        SessionPhase::Running => PhaseModel::Running,
        SessionPhase::Releasing { outcome } => PhaseModel::Releasing {
            outcome: outcome.deep_view(),
        },
        SessionPhase::Ended => PhaseModel::Ended,
    }
}

impl DeepView for Session {
    type V = SessionModel;

    closed spec fn deep_view(&self) -> SessionModel {
        SessionModel {
            project: self.project@,
            db: self.db@,
            id: self.id,
            operation: self.operation.deep_view(),
            first: first_view(self.first),
            phase: phase_view(self.phase),
        }
    }
}

/// The operation that is asked for, and its first action.
fn begin(project: &str, db: &str, request: Request) -> (r: (Operation, Action))
    ensures
        (r.0.deep_view(), r.1.deep_view()) == requested(project@, db@, request),
{
    let (operation, step) = match request {
        Request::Migrate => {
            let (m, step) = migrate(project);
            (Operation::Migrate(m), step)
        },
        Request::Rollback { down_to } => {
            let (m, step) = rollback(project, down_to);
            (Operation::Rollback(m), step)
        },
        Request::Seed => {
            let (m, step) = seed(project);
            (Operation::Seed(m), step)
        },
        Request::Drop => {
            let (m, step) = drop_db(project, db);
            (Operation::Drop(m), step)
        },
        Request::Noop { target, comment } => {
            let (m, step) = noop(
                project,
                target.as_str(),
                comment.as_str(),
                FileSource::S3,
            );
            (Operation::Noop(m), step)
        },
        Request::Restore { target, comment } => {
            let (m, step) = restore(project, db, target.as_str(), comment.as_str());
            (Operation::Restore(m), step)
        },
    };
    let action = match step {
        Step::Do(action) => action,
        _ => Action::ConnectAdmin,
    };
    (operation, action)
}

impl Session {
    #[verifier::type_invariant]
    spec fn is_valid(&self) -> bool {
        self.deep_view().valid()
    }

    /// The session that is asked for, with the first thing to do.
    pub fn start(project: &str, db: &str, request: Request) -> (r: (Session, Step))
        requires
            lock::project_hash_spec(project@) != i64::MIN,
        ensures
            (r.0.deep_view(), r.1.deep_view()) == SessionModel::start(project@, db@, request),
    {
        let id = lock::lock_id(project);
        let (operation, action) = begin(project, db, request);
        let session = Session {
            project: project.to_string(),
            db: db.to_string(),
            id,
            operation,
            first: None,
            phase: SessionPhase::Listing,
        };
        let seeds: bool = match session.operation {
            Operation::Seed(_) => true,
            _ => false,
        };
        if seeds {
            return (session, Step::Do(action));
        }
        let phase = if session.operation.needs_database() {
            let (provision, _) = provide(project, db, Indent::Narrow);
            SessionPhase::Providing(provision)
        } else {
            SessionPhase::Connecting
        };
        let session = Session {
            project: session.project,
            db: session.db,
            id,
            operation: session.operation,
            first: Some(action),
            phase,
        };
        (session, Step::Do(Action::ConnectAdmin))
    }

    fn do_next(self, phase: SessionPhase, action: Action) -> (r: (Session, Step))
        requires
            (SessionModel { phase: phase_view(phase), ..self.deep_view() }).valid(),
        ensures
            (r.0.deep_view(), r.1.deep_view()) == self.deep_view().do_next(
                phase_view(phase),
                action.deep_view(),
            ),
    {
        (
            Session {
                project: self.project,
                db: self.db,
                id: self.id,
                operation: self.operation,
                first: self.first,
                phase,
            },
            Step::Do(action),
        )
    }

    /// Goes on with the list of seed files.
    fn listed(self, event: Event, now: u128) -> (r: (Session, Step))
        requires
            self.deep_view().operation.expects(event.deep_view()),
        ensures
            (r.0.deep_view(), r.1.deep_view()) == self.deep_view().listed(event.deep_view(), now),
    {
        let Session { project, db, id, operation, first, phase } = self;
        let (operation, step) = operation.next(event, now);
        match step {
            Step::Do(action) => (
                Session {
                    project,
                    db,
                    id,
                    operation,
                    first: Some(action),
                    phase: SessionPhase::Connecting,
                },
                Step::Do(Action::ConnectAdmin),
            ),
            _ => (
                Session { project, db, id, operation, first, phase: SessionPhase::Ended },
                step,
            ),
        }
    }

    /// Goes on with the operation.
    fn ran(self, event: Event, now: u128) -> (r: (Session, Step))
        requires
            self.deep_view().operation.expects(event.deep_view()),
        ensures
            (r.0.deep_view(), r.1.deep_view()) == self.deep_view().ran(event.deep_view(), now),
    {
        let Session { project, db, id, operation, first, phase } = self;
        let (operation, step) = operation.next(event, now);
        let session = Session {
            project,
            db,
            id,
            operation,
            first,
            phase: SessionPhase::Ended,
        };
        match step {
            Step::Do(action) => session.do_next(SessionPhase::Running, action),
            _ => session.do_next(
                SessionPhase::Releasing { outcome: step },
                Action::ReleaseLock { id },
            ),
        }
    }

    /// Goes on after what came of the last action, at the reading `now` of a
    /// clock that counts nanoseconds, with the password of a role that is to be
    /// created.
    pub fn next_with(self, event: Event, now: u128, password: String) -> (r: (Session, Step))
        requires
            self.deep_view().expects(event.deep_view()),
        ensures
            (r.0.deep_view(), r.1.deep_view()) == self.deep_view().next(
                event.deep_view(),
                now,
                password@,
            ),
    {
        proof {
            use_type_invariant(&self);
        }
        let Session { project, db, id, operation, first, phase } = self;
        let session = Session {
            project,
            db,
            id,
            operation,
            first,
            phase: SessionPhase::Ended,
        };
        match phase {
            SessionPhase::Listing => session.listed(event, now),
            SessionPhase::Providing(provision) => {
                let (provision, step) = provision.next(event, password);
                match step {
                    ProvisionStep::Do(action) => session.do_next(
                        SessionPhase::Providing(provision),
                        action,
                    ),
                    ProvisionStep::Ready => session.do_next(
                        SessionPhase::Connecting,
                        Action::ConnectAdmin,
                    ),
                    ProvisionStep::Fail(error) => (session, Step::Fail(error)),
                }
            },
            SessionPhase::Running => session.ran(event, now),
            SessionPhase::Releasing { outcome } => (session, outcome),
            SessionPhase::Ended => (session, Step::Fail(String::new())),
            _ => match event {
                Event::Failed(error) => (session, Step::Fail(error)),
                _ => session.prepared(phase, event),
            },
        }
    }

    /// Goes on with the preparation after an event that is no failure.
    fn prepared(self, phase: SessionPhase, event: Event) -> (r: (Session, Step))
        requires
            (SessionModel { phase: phase_view(phase), ..self.deep_view() }).valid(),
            phase is Connecting || phase is SeekingOps || phase is CreatingOps || phase
                is OpeningOps || phase is PreparingOps || phase is OpeningApp || phase is Locking,
            phase is SeekingOps ==> event is Found,
        ensures
            (r.0.deep_view(), r.1.deep_view()) == (SessionModel {
                phase: phase_view(phase),
                ..self.deep_view()
            }).prepared(event.deep_view()),
    {
        let lock = Action::AcquireLock { id: self.id };
        match phase {
            SessionPhase::Connecting => self.do_next(
                SessionPhase::SeekingOps,
                Action::QueryDatabase { db: sql::OPS_DB.to_string() },
            ),
            SessionPhase::SeekingOps => {
                let found: bool = match event {
                    Event::Found(there) => there,
                    _ => false,
                };
                if found {
                    self.do_next(SessionPhase::OpeningOps, Action::ConnectOps)
                } else {
                    self.do_next(
                        SessionPhase::CreatingOps,
                        Action::CreateDatabase { db: sql::OPS_DB.to_string() },
                    )
                }
            },
            SessionPhase::CreatingOps => self.do_next(
                SessionPhase::OpeningOps,
                Action::ConnectOps,
            ),
            SessionPhase::OpeningOps => self.do_next(SessionPhase::PreparingOps, Action::InitOps),
            SessionPhase::PreparingOps => {
                if self.operation.needs_app() {
                    let project = self.project.clone();
                    let db = self.db.clone();
                    self.do_next(SessionPhase::OpeningApp, Action::ConnectApp { project, db })
                } else {
                    self.do_next(SessionPhase::Locking, lock)
                }
            },
            SessionPhase::OpeningApp => self.do_next(SessionPhase::Locking, lock),
            _ => {
                let Session { project, db, id, operation, first, phase } = self;
                let session = Session {
                    project,
                    db,
                    id,
                    operation,
                    first: None,
                    phase: SessionPhase::Running,
                };
                match first {
                    Some(action) => (session, Step::Do(action)),
                    None => (session, Step::Fail(String::new())),
                }
            },
        }
    }

    /// Whether a role is to be created after the event.
    fn wants_password(&self, event: &Event) -> (r: bool)
        ensures
            r == self.deep_view().wants_password(event.deep_view()),
    {
        match &self.phase {
            SessionPhase::Providing(provision) => provision.wants_password(event),
            _ => false,
        }
    }

    /// Goes on after what came of the last action, at the reading `now` of a
    /// clock that counts nanoseconds. A role that is to be created gets a new
    /// password.
    pub fn next(self, event: Event, now: u128) -> (r: (Session, Step))
        requires
            self.deep_view().expects(event.deep_view()),
        ensures
            exists|word: Seq<char>|
                (self.deep_view().wants_password(event.deep_view()) ==> password::is_password(
                    word,
                )) && (r.0.deep_view(), r.1.deep_view()) == #[trigger] self.deep_view().next(
                    event.deep_view(),
                    now,
                    word,
                ),
    {
        let word = if self.wants_password(&event) {
            password::generate_password()
        } else {
            String::new()
        };
        self.next_with(event, now, word)
    }
}

} // verus!
