//! Providing the database of a project with its roles and credentials.

use vstd::prelude::*;
use vstd::string::*;

use super::{app_role, reader_role, Action, Event, EventModel, Indent};
use crate::ops;

verus! {

/// What a provision waits for. The password is that of the role that is being
/// created.
#[verifier::ext_equal]
pub enum ProvisionPhase<T = String> {
    /// The connection to the maintenance database.
    Connecting,
    /// Whether the database exists.
    SeekingDatabase,
    /// The new database.
    CreatingDatabase,
    /// Whether the application's role exists.
    SeekingApp,
    /// The application's role.
    CreatingApp { password: T },
    /// The name of the application's role, published.
    NamingApp { password: T },
    /// The password of the application's role, published.
    SecuringApp,
    /// The name of the database, published.
    PlacingApp,
    /// Whether the reader's role exists.
    SeekingReader,
    /// The reader's role.
    CreatingReader { password: T },
    /// The name of the reader's role, published.
    NamingReader { password: T },
    /// The password of the reader's role, published.
    SecuringReader,
    /// The grants on the database.
    GrantingDatabase,
    /// The administrator's membership in the application's role.
    GrantingMembership,
    /// The connection to the database.
    Opening,
    /// The grants to the application's role.
    GrantingSchema,
    /// The grants to the reader's role.
    GrantingReader,
    /// Nothing: it has ended.
    Ended,
}

/// How a provision goes on.
#[verifier::ext_equal]
pub enum ProvisionStep<T = String> {
    /// Perform the action and say what came of it.
    Do(Action<T>),
    /// Everything is provided.
    Ready,
    /// The provision failed, with a message.
    Fail(T),
}

/// The provision of the database of a project.
pub struct Provision {
    project: String,
    db: String,
    indent: Indent,
    phase: ProvisionPhase,
}

/// What a [`Provision`] holds: the project, its database, how the grants on the
/// database are indented, and what is waited for.
#[verifier::ext_equal]
pub struct ProvisionModel {
    pub project: Seq<char>,
    pub db: Seq<char>,
    pub indent: Indent,
    pub phase: ProvisionPhase<Seq<char>>,
}

/// Where a credential of a project's application is published.
pub open spec fn app_param(project: Seq<char>, leaf: Seq<char>) -> Seq<char> {
    "/platform/db/"@ + project + "/"@ + leaf
}

/// Where a credential of a project's reader is published.
pub open spec fn reader_param(project: Seq<char>, leaf: Seq<char>) -> Seq<char> {
    "/platform/db/"@ + project + "/reader/"@ + leaf
}

/// Where a credential of a project's application is published.
pub fn app_param_name(project: &str, leaf: &str) -> (r: String)
    ensures
        r@ == app_param(project@, leaf@),
{
    String::from_str("/platform/db/").concat(project).concat("/").concat(leaf)
}

/// Where a credential of a project's reader is published.
pub fn reader_param_name(project: &str, leaf: &str) -> (r: String)
    ensures
        r@ == reader_param(project@, leaf@),
{
    String::from_str("/platform/db/").concat(project).concat("/reader/").concat(leaf)
}

impl ProvisionModel {
    /// The provision before anything is done.
    pub open spec fn start(project: Seq<char>, db: Seq<char>, indent: Indent) -> ProvisionModel {
        ProvisionModel { project, db, indent, phase: ProvisionPhase::Connecting }
    }

    /// Whether the event is one that is waited for.
    pub open spec fn expects(self, event: EventModel) -> bool {
        match self.phase {
            ProvisionPhase::Ended => false,
            ProvisionPhase::SeekingDatabase
            | ProvisionPhase::SeekingApp
            | ProvisionPhase::SeekingReader => event is Found || event is Failed,
            _ => event is Done || event is Failed,
        }
    }

    /// Whether a role is to be created after the event.
    pub open spec fn wants_password(self, event: EventModel) -> bool {
        event == EventModel::Found(false) && (self.phase is SeekingApp
            || self.phase is SeekingReader)
    }

    /// Performing an action and waiting for it.
    pub open spec fn then_do(
        self,
        phase: ProvisionPhase<Seq<char>>,
        action: Action<Seq<char>>,
    ) -> (ProvisionModel, ProvisionStep<Seq<char>>) {
        (ProvisionModel { phase, ..self }, ProvisionStep::Do(action))
    }

    /// How it goes on after an event that is expected and no failure, with the
    /// password of a role that is to be created.
    pub open spec fn advance(self, event: EventModel, password: Seq<char>) -> (
        ProvisionModel,
        ProvisionStep<Seq<char>>,
    ) {
        let role = ops::app_role_of(self.project);
        let reader = ops::reader_role_of(self.project);
        let db = self.db;
        let seek_app = self.then_do(ProvisionPhase::SeekingApp, Action::QueryRole { role });
        let seek_reader = self.then_do(
            ProvisionPhase::SeekingReader,
            Action::QueryRole { role: reader },
        );
        let grant = self.then_do(
            ProvisionPhase::GrantingDatabase,
            Action::GrantDatabase { db, role, reader, indent: self.indent },
        );
        match self.phase {
            ProvisionPhase::Connecting => self.then_do(
                ProvisionPhase::SeekingDatabase,
                Action::QueryDatabase { db },
            ),
            ProvisionPhase::SeekingDatabase => if event->Found_0 {
                seek_app
            } else {
                self.then_do(ProvisionPhase::CreatingDatabase, Action::CreateDatabase { db })
            },
            ProvisionPhase::CreatingDatabase => seek_app,
            ProvisionPhase::SeekingApp => if event->Found_0 {
                seek_reader
            } else {
                self.then_do(
                    ProvisionPhase::CreatingApp { password },
                    Action::CreateRole { role, password },
                )
            },
            ProvisionPhase::CreatingApp { password } => self.then_do(
                ProvisionPhase::NamingApp { password },
                Action::PutParam { name: app_param(self.project, "username"@), value: role },
            ),
            ProvisionPhase::NamingApp { password } => self.then_do(
                ProvisionPhase::SecuringApp,
                Action::PutSecret { name: app_param(self.project, "password"@), value: password },
            ),
            ProvisionPhase::SecuringApp => self.then_do(
                ProvisionPhase::PlacingApp,
                Action::PutParam { name: app_param(self.project, "database"@), value: db },
            ),
            ProvisionPhase::PlacingApp => seek_reader,
            ProvisionPhase::SeekingReader => if event->Found_0 {
                grant
            } else {
                self.then_do(
                    ProvisionPhase::CreatingReader { password },
                    Action::CreateRole { role: reader, password },
                )
            },
            ProvisionPhase::CreatingReader { password } => self.then_do(
                ProvisionPhase::NamingReader { password },
                Action::PutParam { name: reader_param(self.project, "username"@), value: reader },
            ),
            ProvisionPhase::NamingReader { password } => self.then_do(
                ProvisionPhase::SecuringReader,
                Action::PutSecret {
                    name: reader_param(self.project, "password"@),
                    value: password,
                },
            ),
            ProvisionPhase::SecuringReader => grant,
            ProvisionPhase::GrantingDatabase => self.then_do(
                ProvisionPhase::GrantingMembership,
                Action::GrantMembership { role },
            ),
            ProvisionPhase::GrantingMembership => self.then_do(
                ProvisionPhase::Opening,
                Action::ConnectProject { db },
            ),
            ProvisionPhase::Opening => self.then_do(
                ProvisionPhase::GrantingSchema,
                Action::GrantSchema { role, indent: Indent::Narrow },
            ),
            ProvisionPhase::GrantingSchema => self.then_do(
                ProvisionPhase::GrantingReader,
                Action::GrantReader { role, reader, membership: false },
            ),
            ProvisionPhase::GrantingReader => (
                ProvisionModel { phase: ProvisionPhase::Ended, ..self },
                ProvisionStep::Ready,
            ),
            ProvisionPhase::Ended => arbitrary(),
        }
    }

    /// How it goes on after an event that is expected, with the password of a
    /// role that is to be created. Every failure ends it.
    pub open spec fn next(self, event: EventModel, password: Seq<char>) -> (
        ProvisionModel,
        ProvisionStep<Seq<char>>,
    ) {
        if event is Failed {
            (
                ProvisionModel { phase: ProvisionPhase::Ended, ..self },
                ProvisionStep::Fail(event->Failed_0),
            )
        } else {
            self.advance(event, password)
        }
    }
}

spec fn phase_view(phase: ProvisionPhase) -> ProvisionPhase<Seq<char>> {
    match phase {
        ProvisionPhase::Connecting => ProvisionPhase::Connecting,
        ProvisionPhase::SeekingDatabase => ProvisionPhase::SeekingDatabase,
        ProvisionPhase::CreatingDatabase => ProvisionPhase::CreatingDatabase,
        ProvisionPhase::SeekingApp => ProvisionPhase::SeekingApp,
        ProvisionPhase::CreatingApp { password } => ProvisionPhase::CreatingApp {
            password: password@,
        },
        ProvisionPhase::NamingApp { password } => ProvisionPhase::NamingApp {
            password: password@,
        },
        ProvisionPhase::SecuringApp => ProvisionPhase::SecuringApp,
        ProvisionPhase::PlacingApp => ProvisionPhase::PlacingApp,
        ProvisionPhase::SeekingReader => ProvisionPhase::SeekingReader,
        ProvisionPhase::CreatingReader { password } => ProvisionPhase::CreatingReader {
            password: password@,
        },
        ProvisionPhase::NamingReader { password } => ProvisionPhase::NamingReader {
            password: password@,
        },
        ProvisionPhase::SecuringReader => ProvisionPhase::SecuringReader,
        ProvisionPhase::GrantingDatabase => ProvisionPhase::GrantingDatabase,
        ProvisionPhase::GrantingMembership => ProvisionPhase::GrantingMembership,
        ProvisionPhase::Opening => ProvisionPhase::Opening,
        ProvisionPhase::GrantingSchema => ProvisionPhase::GrantingSchema,
        ProvisionPhase::GrantingReader => ProvisionPhase::GrantingReader,
        ProvisionPhase::Ended => ProvisionPhase::Ended,
    }
}

impl DeepView for ProvisionStep {
    type V = ProvisionStep<Seq<char>>;

    open spec fn deep_view(&self) -> ProvisionStep<Seq<char>> {
        match *self {
            ProvisionStep::Do(action) => ProvisionStep::Do(action.deep_view()),
            ProvisionStep::Ready => ProvisionStep::Ready,
            ProvisionStep::Fail(message) => ProvisionStep::Fail(message@),
        }
    }
}

impl DeepView for Provision {
    type V = ProvisionModel;

    closed spec fn deep_view(&self) -> ProvisionModel {
        ProvisionModel {
            project: self.project@,
            db: self.db@,
            indent: self.indent,
            phase: phase_view(self.phase),
        }
    }
}

/// A new provision, with the first thing to do.
pub fn ensure_database(project: &str, db: &str) -> (r: (Provision, ProvisionStep))
    ensures
        r.0.deep_view() == ProvisionModel::start(project@, db@, Indent::Wide),
        r.1.deep_view() == ProvisionStep::<Seq<char>>::Do(Action::ConnectAdmin),
{
    provide(project, db, Indent::Wide)
}

/// A new provision, with the first thing to do and the indentation of the grants
/// on the database.
pub fn provide(project: &str, db: &str, indent: Indent) -> (r: (Provision, ProvisionStep))
    ensures
        r.0.deep_view() == ProvisionModel::start(project@, db@, indent),
        r.1.deep_view() == ProvisionStep::<Seq<char>>::Do(Action::ConnectAdmin),
{
    (
        Provision {
            project: project.to_string(),
            db: db.to_string(),
            indent,
            phase: ProvisionPhase::Connecting,
        },
        ProvisionStep::Do(Action::ConnectAdmin),
    )
}

impl Provision {
    fn then_do(self, phase: ProvisionPhase, action: Action) -> (r: (Provision, ProvisionStep))
        ensures
            (r.0.deep_view(), r.1.deep_view()) == self.deep_view().then_do(
                phase_view(phase),
                action.deep_view(),
            ),
    {
        (
            Provision { project: self.project, db: self.db, indent: self.indent, phase },
            ProvisionStep::Do(action),
        )
    }

    /// Whether a role is to be created after the event.
    pub fn wants_password(&self, event: &Event) -> (r: bool)
        ensures
            r == self.deep_view().wants_password(event.deep_view()),
    {
        match event {
            Event::Found(there) => !*there && match self.phase {
                ProvisionPhase::SeekingApp | ProvisionPhase::SeekingReader => true,
                _ => false,
            },
            _ => false,
        }
    }

    /// Goes on after what came of the last action, with the password of a role
    /// that is to be created.
    pub fn next(self, event: Event, password: String) -> (r: (Provision, ProvisionStep))
        requires
            self.deep_view().expects(event.deep_view()),
        ensures
            (r.0.deep_view(), r.1.deep_view()) == self.deep_view().next(
                event.deep_view(),
                password@,
            ),
    {
        let Provision { project, db, indent, phase } = self;
        let run = Provision { project, db, indent, phase: ProvisionPhase::Ended };
        let found: bool = match event {
            Event::Failed(error) => {
                return (run, ProvisionStep::Fail(error));
            },
            Event::Found(there) => there,
            _ => false,
        };
        let role = app_role(run.project.as_str());
        let reader = reader_role(run.project.as_str());
        let db = run.db.clone();
        match phase {
            ProvisionPhase::Connecting => run.then_do(
                ProvisionPhase::SeekingDatabase,
                Action::QueryDatabase { db },
            ),
            ProvisionPhase::SeekingDatabase => {
                if found {
                    run.then_do(ProvisionPhase::SeekingApp, Action::QueryRole { role })
                } else {
                    run.then_do(ProvisionPhase::CreatingDatabase, Action::CreateDatabase { db })
                }
            },
            ProvisionPhase::CreatingDatabase => run.then_do(
                ProvisionPhase::SeekingApp,
                Action::QueryRole { role },
            ),
            ProvisionPhase::SeekingApp => {
                if found {
                    run.then_do(ProvisionPhase::SeekingReader, Action::QueryRole { role: reader })
                } else {
                    run.then_do(
                        ProvisionPhase::CreatingApp { password: password.clone() },
                        Action::CreateRole { role, password },
                    )
                }
            },
            ProvisionPhase::CreatingApp { password } => {
                let name = app_param_name(run.project.as_str(), "username");
                run.then_do(
                    ProvisionPhase::NamingApp { password },
                    Action::PutParam { name, value: role },
                )
            },
            ProvisionPhase::NamingApp { password } => {
                let name = app_param_name(run.project.as_str(), "password");
                run.then_do(
                    ProvisionPhase::SecuringApp,
                    Action::PutSecret { name, value: password },
                )
            },
            ProvisionPhase::SecuringApp => {
                let name = app_param_name(run.project.as_str(), "database");
                run.then_do(ProvisionPhase::PlacingApp, Action::PutParam { name, value: db })
            },
            ProvisionPhase::PlacingApp => run.then_do(
                ProvisionPhase::SeekingReader,
                Action::QueryRole { role: reader },
            ),
            ProvisionPhase::SeekingReader => {
                if found {
                    run.then_do(
                        ProvisionPhase::GrantingDatabase,
                        Action::GrantDatabase { db, role, reader, indent },
                    )
                } else {
                    run.then_do(
                        ProvisionPhase::CreatingReader { password: password.clone() },
                        Action::CreateRole { role: reader, password },
                    )
                }
            },
            ProvisionPhase::CreatingReader { password } => {
                let name = reader_param_name(run.project.as_str(), "username");
                run.then_do(
                    ProvisionPhase::NamingReader { password },
                    Action::PutParam { name, value: reader },
                )
            },
            ProvisionPhase::NamingReader { password } => {
                let name = reader_param_name(run.project.as_str(), "password");
                run.then_do(
                    ProvisionPhase::SecuringReader,
                    Action::PutSecret { name, value: password },
                )
            },
            ProvisionPhase::SecuringReader => run.then_do(
                ProvisionPhase::GrantingDatabase,
                Action::GrantDatabase { db, role, reader, indent },
            ),
            ProvisionPhase::GrantingDatabase => run.then_do(
                ProvisionPhase::GrantingMembership,
                Action::GrantMembership { role },
            ),
            ProvisionPhase::GrantingMembership => run.then_do(
                ProvisionPhase::Opening,
                Action::ConnectProject { db },
            ),
            ProvisionPhase::Opening => run.then_do(
                ProvisionPhase::GrantingSchema,
                Action::GrantSchema { role, indent: Indent::Narrow },
            ),
            ProvisionPhase::GrantingSchema => run.then_do(
                ProvisionPhase::GrantingReader,
                Action::GrantReader { role, reader, membership: false },
            ),
            ProvisionPhase::GrantingReader => (run, ProvisionStep::Ready),
            ProvisionPhase::Ended => (run, ProvisionStep::Fail(String::new())),
        }
    }
}

} // verus!
