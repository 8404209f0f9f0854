//! Providing a project's database on the TrueNAS server.

use vstd::prelude::*;
use vstd::string::*;

use crate::ops;
use crate::ops::connect;
use crate::ops::connect::Endpoint;
use crate::ops::sql::Connection;
use crate::ops::{Action, Indent};
use crate::password;
use crate::text;
use crate::text_map::TextMap;

verus! {

/// Where the name of the server's administrator is published.
pub const ADMIN_USER: &'static str = "/platform/truenas/pg-admin-user";

/// Where the password of the server's administrator is published.
pub const ADMIN_PASSWORD: &'static str = "/platform/truenas/pg-admin-password";

/// What is reported of a database that is ready.
#[verifier::ext_equal]
pub struct Response<T = String> {
    pub project: T,
    pub db_name: T,
    pub created: bool,
}

impl DeepView for Response {
    type V = Response<Seq<char>>;

    open spec fn deep_view(&self) -> Response<Seq<char>> {
        Response { project: self.project@, db_name: self.db_name@, created: self.created }
    }
}

// ---------------------------------------------------------------------------
// Which projects are registered
// ---------------------------------------------------------------------------

/// What the debug format shows of a list of texts.
pub uninterp spec fn debug_list(names: Seq<Seq<char>>) -> Seq<char>;

/// The `{:?}` format of std on a `Vec` of strings: what it shows depends on the
/// texts alone.
#[verifier::external_body]
fn show_list(names: &Vec<String>) -> (r: String)
    ensures
        r@ == debug_list(text::texts(names@)),
{
    format!("{:?}", names)
}

/// The error of a project that is not registered, given what the debug format
/// shows of those that are.
pub open spec fn not_registered(project: Seq<char>, shown: Seq<char>) -> Seq<char> {
    "Project \""@ + project + "\" not registered. Registered: "@ + shown
}

/// The error of a project that is not registered, given what the debug format
/// shows of those that are.
pub fn not_registered_message(project: &str, shown: &str) -> (r: String)
    ensures
        r@ == not_registered(project@, shown@),
{
    String::from_str("Project \"").concat(project).concat(
        "\" not registered. Registered: ",
    ).concat(shown)
}

/// Whether `names` are the registered projects, each once, in any order.
pub open spec fn are_registered(
    names: Seq<Seq<char>>,
    projects: Map<Seq<char>, Seq<char>>,
) -> bool {
    &&& names.no_duplicates()
    &&& forall|name: Seq<char>| #[trigger] names.contains(name) <==> projects.contains_key(name)
}

/// The database of a project. `projects` holds that of each registered project;
/// the error shows their names.
pub fn lookup(project: &str, projects: &TextMap) -> (r: Result<String, String>)
    ensures
        r is Ok <==> projects@.contains_key(project@),
        r matches Ok(db) ==> db@ == projects@[project@],
        r matches Err(message) ==> exists|names: Seq<Seq<char>>|
            are_registered(names, projects@) && message@ == not_registered(
                project@,
                #[trigger] debug_list(names),
            ),
{
    match projects.get(project) {
        Some(db) => Ok(db),
        None => {
            let names = projects.keys();
            let shown = show_list(&names);
            assert(are_registered(text::texts(names@), projects@));
            Err(not_registered_message(project, shown.as_str()))
        },
    }
}

// ---------------------------------------------------------------------------
// The provision
// ---------------------------------------------------------------------------

/// Something to be done outside.
#[verifier::ext_equal]
pub enum ManageAction<T = String> {
    /// Read a parameter: `Value`.
    Read { name: T },
    /// Open one of the connections: `Done`.
    Connect { connection: Connection, with: T },
    /// Perform an action on the server or publish a credential: `Done`, or
    /// `Found` of a query.
    Perform(Action<T>),
}

/// What came of an action.
#[verifier::ext_equal]
pub enum ManageEvent<T = String> {
    /// It was done.
    Done,
    /// It failed, with a message.
    Failed(T),
    /// Whether what was looked for is there.
    Found(bool),
    /// What was read, if it has a value.
    Value(Option<T>),
}

/// How a provision goes on.
#[verifier::ext_equal]
pub enum ManageStep<T = String, R = Response> {
    /// Perform the action and say what came of it.
    Do(ManageAction<T>),
    /// The database is ready.
    Finish(R),
    /// The provision failed, with a message.
    Fail(T),
}

/// What a [`ManageStep`] says.
pub type StepModel = ManageStep<Seq<char>, Response<Seq<char>>>;

/// What a provision waits for.
#[verifier::ext_equal]
pub enum ManagePhase<T = String> {
    /// The administrator's name; before that of the project's database where
    /// the roles are there.
    ReadingUser { opening: bool },
    /// The administrator's password.
    ReadingPassword { opening: bool, user: T },
    /// The connection to the maintenance database, or to the project's.
    Connecting { opening: bool },
    /// Whether the database exists.
    SeekingDatabase,
    /// The new database.
    CreatingDatabase,
    /// Whether the role exists.
    SeekingRole,
    /// The new role.
    CreatingRole { password: T },
    /// The name of the role, published.
    Naming { password: T },
    /// The password of the role, published.
    Securing,
    /// The name of the database, published.
    Placing,
    /// The grants on the database.
    Granting,
    /// The grants on the schema.
    GrantingSchema,
    /// Nothing: it has ended.
    Ended,
}

/// The provision of a project's database.
pub struct Manage {
    project: String,
    db: String,
    host: String,
    port: Option<String>,
    created: bool,
    phase: ManagePhase,
}

/// What a [`Manage`] holds: the project, its database, the server, whether
/// anything was created, and what is waited for.
#[verifier::ext_equal]
pub struct ManageModel {
    pub project: Seq<char>,
    pub db: Seq<char>,
    pub host: Seq<char>,
    pub port: Seq<char>,
    pub created: bool,
    pub phase: ManagePhase<Seq<char>>,
}

/// Where a credential of a project's application is published.
pub open spec fn param(project: Seq<char>, leaf: Seq<char>) -> Seq<char> {
    "/platform/truenas-db/"@ + project + "/"@ + leaf
}

/// Which administrator's credential could not be read.
pub open spec fn unread(what: Seq<char>, error: Seq<char>) -> Seq<char> {
    "Failed to read admin "@ + what + " from SSM: "@ + error
}

/// Which parameter has no value.
pub open spec fn no_value(name: Seq<char>) -> Seq<char> {
    "SSM param "@ + name + " has no value"@
}

impl ManageModel {
    /// The provision before anything is done.
    pub open spec fn start(
        project: Seq<char>,
        db: Seq<char>,
        host: Seq<char>,
        port: Seq<char>,
    ) -> ManageModel {
        ManageModel {
            project,
            db,
            host,
            port,
            created: false,
            phase: ManagePhase::ReadingUser { opening: false },
        }
    }

    /// Whether the event is one that is waited for.
    pub open spec fn expects(self, event: ManageEvent<Seq<char>>) -> bool {
        match self.phase {
            ManagePhase::Ended => false,
            ManagePhase::ReadingUser { .. } | ManagePhase::ReadingPassword { .. } => event is Value
                || event is Failed,
            ManagePhase::SeekingDatabase | ManagePhase::SeekingRole => event is Found || event
                is Failed,
            _ => event is Done || event is Failed,
        }
    }

    /// Whether the role is to be created after the event.
    pub open spec fn wants_password(self, event: ManageEvent<Seq<char>>) -> bool {
        self.phase is SeekingRole && event == ManageEvent::<Seq<char>>::Found(false)
    }

    /// Whether the maintenance database has not been reached yet.
    pub open spec fn unconnected(self) -> bool {
        match self.phase {
            ManagePhase::ReadingUser { opening }
            | ManagePhase::ReadingPassword { opening, .. }
            | ManagePhase::Connecting { opening } => !opening,
            _ => false,
        }
    }

    /// Ending with an error: the message says how far it came.
    pub open spec fn fail(self, error: Seq<char>) -> (ManageModel, StepModel) {
        (
            ManageModel { phase: ManagePhase::Ended, ..self },
            ManageStep::Fail(
                if self.unconnected() {
                    "Failed to connect to TrueNAS Postgres: "@ + error
                } else {
                    "ensure_database failed for "@ + self.project + ": "@ + error
                },
            ),
        )
    }

    /// Performing an action and waiting for it.
    pub open spec fn do_next(
        self,
        phase: ManagePhase<Seq<char>>,
        action: ManageAction<Seq<char>>,
    ) -> (ManageModel, StepModel) {
        (ManageModel { phase, ..self }, ManageStep::Do(action))
    }

    /// What the failure of the current action is reported as.
    pub open spec fn explained(self, error: Seq<char>) -> Seq<char> {
        let role = ops::app_role_of(self.project);
        match self.phase {
            ManagePhase::ReadingUser { .. } => unread("user"@, error),
            ManagePhase::ReadingPassword { .. } => unread("password"@, error),
            ManagePhase::Connecting { opening } => if opening {
                "Failed to connect to database "@ + self.db + ": "@ + error
            } else {
                error
            },
            ManagePhase::SeekingDatabase => "Failed to query pg_database: "@ + error,
            ManagePhase::CreatingDatabase => "Failed to CREATE DATABASE "@ + self.db + ": "@
                + error,
            ManagePhase::SeekingRole => "Failed to query pg_roles: "@ + error,
            ManagePhase::CreatingRole { .. } => "Failed to CREATE ROLE "@ + role + ": "@ + error,
            ManagePhase::Granting => "Failed to GRANT on database "@ + self.db + ": "@ + error,
            ManagePhase::GrantingSchema => "Failed to set schema grants for "@ + role + " on "@
                + self.db + ": "@ + error,
            _ => error,
        }
    }

    /// How it goes on after an event that is expected and no failure, with the
    /// password of a role that is to be created.
    pub open spec fn advance(self, event: ManageEvent<Seq<char>>, password: Seq<char>) -> (
        ManageModel,
        StepModel,
    ) {
        let role = ops::app_role_of(self.project);
        let db = self.db;
        let seek_role = ManageAction::Perform(Action::QueryRole { role });
        let grant = ManageAction::Perform(Action::GrantAll { db, role });
        match self.phase {
            ManagePhase::ReadingUser { opening } => match event->Value_0 {
                Some(user) => self.do_next(
                    ManagePhase::ReadingPassword { opening, user },
                    ManageAction::Read { name: ADMIN_PASSWORD@ },
                ),
                None => self.fail(no_value(ADMIN_USER@)),
            },
            ManagePhase::ReadingPassword { opening, user } => match event->Value_0 {
                Some(word) => {
                    let to = if opening {
                        db
                    } else {
                        connect::ADMIN_DB@
                    };
                    self.do_next(
                        ManagePhase::Connecting { opening },
                        ManageAction::Connect {
                            connection: if opening {
                                Connection::Project
                            } else {
                                Connection::Admin
                            },
                            with: connect::connection_of(self.host, self.port, user, word, to),
                        },
                    )
                },
                None => self.fail(no_value(ADMIN_PASSWORD@)),
            },
            ManagePhase::Connecting { opening } => if opening {
                self.do_next(
                    ManagePhase::GrantingSchema,
                    ManageAction::Perform(Action::GrantSchema { role, indent: Indent::Narrow }),
                )
            } else {
                self.do_next(
                    ManagePhase::SeekingDatabase,
                    ManageAction::Perform(Action::QueryDatabase { db }),
                )
            },
            ManagePhase::SeekingDatabase => if event->Found_0 {
                self.do_next(ManagePhase::SeekingRole, seek_role)
            } else {
                self.do_next(
                    ManagePhase::CreatingDatabase,
                    ManageAction::Perform(Action::CreateDatabase { db }),
                )
            },
            ManagePhase::CreatingDatabase => ManageModel { created: true, ..self }.do_next(
                ManagePhase::SeekingRole,
                seek_role,
            ),
            ManagePhase::SeekingRole => if event->Found_0 {
                self.do_next(ManagePhase::Granting, grant)
            } else {
                self.do_next(
                    ManagePhase::CreatingRole { password },
                    ManageAction::Perform(Action::CreateRole { role, password }),
                )
            },
            ManagePhase::CreatingRole { password } => self.do_next(
                ManagePhase::Naming { password },
                ManageAction::Perform(
                    Action::PutParam { name: param(self.project, "username"@), value: role },
                ),
            ),
            ManagePhase::Naming { password } => self.do_next(
                ManagePhase::Securing,
                ManageAction::Perform(
                    Action::PutSecret { name: param(self.project, "password"@), value: password },
                ),
            ),
            ManagePhase::Securing => self.do_next(
                ManagePhase::Placing,
                ManageAction::Perform(
                    Action::PutParam { name: param(self.project, "database"@), value: db },
                ),
            ),
            ManagePhase::Placing => ManageModel { created: true, ..self }.do_next(
                ManagePhase::Granting,
                grant,
            ),
            ManagePhase::Granting => self.do_next(
                ManagePhase::ReadingUser { opening: true },
                ManageAction::Read { name: ADMIN_USER@ },
            ),
            ManagePhase::GrantingSchema => (
                ManageModel { phase: ManagePhase::Ended, ..self },
                ManageStep::Finish(
                    Response { project: self.project, db_name: db, created: self.created },
                ),
            ),
            ManagePhase::Ended => arbitrary(),
        }
    }

    /// How it goes on after an event that is expected, with the password of a
    /// role that is to be created. Every failure ends it.
    pub open spec fn next(self, event: ManageEvent<Seq<char>>, password: Seq<char>) -> (
        ManageModel,
        StepModel,
    ) {
        match event {
            ManageEvent::Failed(error) => self.fail(self.explained(error)),
            _ => self.advance(event, password),
        }
    }
}

impl DeepView for ManageAction {
    type V = ManageAction<Seq<char>>;

    open spec fn deep_view(&self) -> ManageAction<Seq<char>> {
        match *self {
            ManageAction::Read { name } => ManageAction::Read { name: name@ },
            ManageAction::Connect { connection, with } => ManageAction::Connect {
                connection,
                with: with@,
            },
            ManageAction::Perform(action) => ManageAction::Perform(action.deep_view()),
        }
    }
}

impl DeepView for ManageEvent {
    type V = ManageEvent<Seq<char>>;

    open spec fn deep_view(&self) -> ManageEvent<Seq<char>> {
        match *self {
            ManageEvent::Done => ManageEvent::Done,
            ManageEvent::Failed(message) => ManageEvent::Failed(message@),
            ManageEvent::Found(there) => ManageEvent::Found(there),
            ManageEvent::Value(value) => ManageEvent::Value(value.deep_view()),
        }
    }
}

impl DeepView for ManageStep {
    type V = StepModel;

    open spec fn deep_view(&self) -> StepModel {
        match *self {
            ManageStep::Do(action) => ManageStep::Do(action.deep_view()),
            ManageStep::Finish(response) => ManageStep::Finish(response.deep_view()),
            ManageStep::Fail(message) => ManageStep::Fail(message@),
        }
    }
}

spec fn phase_view(phase: ManagePhase) -> ManagePhase<Seq<char>> {
    match phase {
        ManagePhase::ReadingUser { opening } => ManagePhase::ReadingUser { opening },
        ManagePhase::ReadingPassword { opening, user } => ManagePhase::ReadingPassword {
            opening,
            user: user@,
        },
        ManagePhase::Connecting { opening } => ManagePhase::Connecting { opening },
        ManagePhase::SeekingDatabase => ManagePhase::SeekingDatabase,
        ManagePhase::CreatingDatabase => ManagePhase::CreatingDatabase,
        ManagePhase::SeekingRole => ManagePhase::SeekingRole,
        ManagePhase::CreatingRole { password } => ManagePhase::CreatingRole {
            password: password@,
        },
        ManagePhase::Naming { password } => ManagePhase::Naming { password: password@ },
        ManagePhase::Securing => ManagePhase::Securing,
        ManagePhase::Placing => ManagePhase::Placing,
        ManagePhase::Granting => ManagePhase::Granting,
        ManagePhase::GrantingSchema => ManagePhase::GrantingSchema,
        ManagePhase::Ended => ManagePhase::Ended,
    }
}

impl DeepView for Manage {
    type V = ManageModel;

    closed spec fn deep_view(&self) -> ManageModel {
        ManageModel {
            project: self.project@,
            db: self.db@,
            host: self.host@,
            port: connect::port_of(self.port),
            created: self.created,
            phase: phase_view(self.phase),
        }
    }
}

fn param_name(project: &str, leaf: &str) -> (r: String)
    ensures
        r@ == param(project@, leaf@),
{
    String::from_str("/platform/truenas-db/").concat(project).concat("/").concat(leaf)
}

/// A new provision, with the first thing to do. Without a port the default one
/// is used.
pub fn ensure_database(project: &str, db: &str, host: &str, port: Option<String>) -> (r: (
    Manage,
    ManageStep,
))
    ensures
        r.0.deep_view() == ManageModel::start(project@, db@, host@, connect::port_of(port)),
        r.1.deep_view() == StepModel::Do(ManageAction::Read { name: ADMIN_USER@ }),
{
    (
        Manage {
            project: project.to_string(),
            db: db.to_string(),
            host: host.to_string(),
            port,
            created: false,
            phase: ManagePhase::ReadingUser { opening: false },
        },
        ManageStep::Do(ManageAction::Read { name: ADMIN_USER.to_string() }),
    )
}

impl Manage {
    fn do_next(self, phase: ManagePhase, action: ManageAction) -> (r: (Manage, ManageStep))
        ensures
            (r.0.deep_view(), r.1.deep_view()) == self.deep_view().do_next(
                phase_view(phase),
                action.deep_view(),
            ),
    {
        (
            Manage {
                project: self.project,
                db: self.db,
                host: self.host,
                port: self.port,
                created: self.created,
                phase,
            },
            ManageStep::Do(action),
        )
    }

    fn having_created(self) -> (r: Manage)
        ensures
            r.deep_view() == (ManageModel { created: true, ..self.deep_view() }),
    {
        Manage {
            project: self.project,
            db: self.db,
            host: self.host,
            port: self.port,
            created: true,
            phase: self.phase,
        }
    }

    fn fail(self, error: String) -> (r: (Manage, ManageStep))
        ensures
            (r.0.deep_view(), r.1.deep_view()) == self.deep_view().fail(error@),
    {
        let unconnected: bool = match &self.phase {
            ManagePhase::ReadingUser { opening } => !*opening,
            ManagePhase::ReadingPassword { opening, .. } => !*opening,
            ManagePhase::Connecting { opening } => !*opening,
            _ => false,
        };
        let message = if unconnected {
            String::from_str("Failed to connect to TrueNAS Postgres: ").concat(error.as_str())
        } else {
            String::from_str("ensure_database failed for ").concat(self.project.as_str()).concat(
                ": ",
            ).concat(error.as_str())
        };
        (
            Manage {
                project: self.project,
                db: self.db,
                host: self.host,
                port: self.port,
                created: self.created,
                phase: ManagePhase::Ended,
            },
            ManageStep::Fail(message),
        )
    }

    /// What the failure of the current action is reported as.
    fn explained(&self, error: String) -> (r: String)
        ensures
            r@ == self.deep_view().explained(error@),
    {
        let role = ops::app_role(self.project.as_str());
        let db = self.db.as_str();
        match &self.phase {
            ManagePhase::ReadingUser { .. } => String::from_str("Failed to read admin ").concat(
                "user",
            ).concat(" from SSM: ").concat(error.as_str()),
            ManagePhase::ReadingPassword { .. } => String::from_str(
                "Failed to read admin ",
            ).concat("password").concat(" from SSM: ").concat(error.as_str()),
            ManagePhase::Connecting { opening } => {
                if *opening {
                    String::from_str("Failed to connect to database ").concat(db).concat(
                        ": ",
                    ).concat(error.as_str())
                } else {
                    error
                }
            },
            ManagePhase::SeekingDatabase => String::from_str(
                "Failed to query pg_database: ",
            ).concat(error.as_str()),
            ManagePhase::CreatingDatabase => String::from_str("Failed to CREATE DATABASE ").concat(
                db,
            ).concat(": ").concat(error.as_str()),
            ManagePhase::SeekingRole => String::from_str("Failed to query pg_roles: ").concat(
                error.as_str(),
            ),
            ManagePhase::CreatingRole { .. } => String::from_str("Failed to CREATE ROLE ").concat(
                role.as_str(),
            ).concat(": ").concat(error.as_str()),
            ManagePhase::Granting => String::from_str("Failed to GRANT on database ").concat(
                db,
            ).concat(": ").concat(error.as_str()),
            ManagePhase::GrantingSchema => String::from_str(
                "Failed to set schema grants for ",
            ).concat(role.as_str()).concat(" on ").concat(db).concat(": ").concat(error.as_str()),
            _ => error,
        }
    }

    /// Goes on with the administrator's password.
    fn connect(self, opening: bool, user: String, password: String) -> (r: (Manage, ManageStep))
        ensures
            (r.0.deep_view(), r.1.deep_view()) == self.deep_view().do_next(
                ManagePhase::Connecting { opening },
                ManageAction::Connect {
                    connection: if opening {
                        Connection::Project
                    } else {
                        Connection::Admin
                    },
                    with: connect::connection_of(
                        self.deep_view().host,
                        self.deep_view().port,
                        user@,
                        password@,
                        if opening {
                            self.deep_view().db
                        } else {
                            connect::ADMIN_DB@
                        },
                    ),
                },
            ),
    {
        let db = if opening {
            self.db.clone()
        } else {
            connect::ADMIN_DB.to_string()
        };
        let connection = if opening {
            Connection::Project
        } else {
            Connection::Admin
        };
        let port = match &self.port {
            Some(port) => Some(port.clone()),
            None => None,
        };
        let to = Endpoint { host: self.host.clone(), port, user, password, db };
        let with = connect::connection_string(&to);
        self.do_next(
            ManagePhase::Connecting { opening },
            ManageAction::Connect { connection, with },
        )
    }

    /// Goes on after what came of the last action, with the password of a role
    /// that is to be created.
    pub fn next_with(self, event: ManageEvent, word: String) -> (r: (Manage, ManageStep))
        requires
            self.deep_view().expects(event.deep_view()),
        ensures
            (r.0.deep_view(), r.1.deep_view()) == self.deep_view().next(event.deep_view(), word@),
    {
        let mut found: bool = false;
        let mut value: Option<String> = None;
        match event {
            ManageEvent::Failed(error) => {
                let error = self.explained(error);
                return self.fail(error);
            },
            ManageEvent::Found(there) => {
                found = there;
            },
            ManageEvent::Value(read) => {
                value = read;
            },
            ManageEvent::Done => {},
        }
        let role = ops::app_role(self.project.as_str());
        let db = self.db.clone();
        let Manage { project, db: kept, host, port, created, phase } = self;
        let run = Manage {
            project,
            db: kept,
            host,
            port,
            created,
            phase: ManagePhase::ReadingUser {
                opening: match &phase {
                    ManagePhase::ReadingUser { opening } => *opening,
                    ManagePhase::ReadingPassword { opening, .. } => *opening,
                    _ => true,
                },
            },
        };
        match phase {
            ManagePhase::ReadingUser { opening } => match value {
                Some(user) => run.do_next(
                    ManagePhase::ReadingPassword { opening, user },
                    ManageAction::Read { name: ADMIN_PASSWORD.to_string() },
                ),
                None => run.fail(
                    String::from_str("SSM param ").concat(ADMIN_USER).concat(" has no value"),
                ),
            },
            ManagePhase::ReadingPassword { opening, user } => match value {
                Some(password) => run.connect(opening, user, password),
                None => run.fail(
                    String::from_str("SSM param ").concat(ADMIN_PASSWORD).concat(" has no value"),
                ),
            },
            ManagePhase::Connecting { opening } => {
                if opening {
                    run.do_next(
                        ManagePhase::GrantingSchema,
                        ManageAction::Perform(Action::GrantSchema { role, indent: Indent::Narrow }),
                    )
                } else {
                    run.do_next(
                        ManagePhase::SeekingDatabase,
                        ManageAction::Perform(Action::QueryDatabase { db }),
                    )
                }
            },
            ManagePhase::SeekingDatabase => {
                if found {
                    run.do_next(
                        ManagePhase::SeekingRole,
                        ManageAction::Perform(Action::QueryRole { role }),
                    )
                } else {
                    run.do_next(
                        ManagePhase::CreatingDatabase,
                        ManageAction::Perform(Action::CreateDatabase { db }),
                    )
                }
            },
            ManagePhase::CreatingDatabase => run.having_created().do_next(
                ManagePhase::SeekingRole,
                ManageAction::Perform(Action::QueryRole { role }),
            ),
            ManagePhase::SeekingRole => {
                if found {
                    run.do_next(
                        ManagePhase::Granting,
                        ManageAction::Perform(Action::GrantAll { db, role }),
                    )
                } else {
                    run.do_next(
                        ManagePhase::CreatingRole { password: word.clone() },
                        ManageAction::Perform(Action::CreateRole { role, password: word }),
                    )
                }
            },
            ManagePhase::CreatingRole { password } => {
                let name = param_name(run.project.as_str(), "username");
                run.do_next(
                    ManagePhase::Naming { password },
                    ManageAction::Perform(Action::PutParam { name, value: role }),
                )
            },
            ManagePhase::Naming { password } => {
                let name = param_name(run.project.as_str(), "password");
                run.do_next(
                    ManagePhase::Securing,
                    ManageAction::Perform(Action::PutSecret { name, value: password }),
                )
            },
            ManagePhase::Securing => {
                let name = param_name(run.project.as_str(), "database");
                run.do_next(
                    ManagePhase::Placing,
                    ManageAction::Perform(Action::PutParam { name, value: db }),
                )
            },
            ManagePhase::Placing => run.having_created().do_next(
                ManagePhase::Granting,
                ManageAction::Perform(Action::GrantAll { db, role }),
            ),
            ManagePhase::Granting => run.do_next(
                ManagePhase::ReadingUser { opening: true },
                ManageAction::Read { name: ADMIN_USER.to_string() },
            ),
            ManagePhase::GrantingSchema => {
                let response = Response { project: run.project.clone(), db_name: db, created };
                (
                    Manage {
                        project: run.project,
                        db: run.db,
                        host: run.host,
                        port: run.port,
                        created,
                        phase: ManagePhase::Ended,
                    },
                    ManageStep::Finish(response),
                )
            },
            ManagePhase::Ended => (run, ManageStep::Fail(String::new())),
        }
    }

    /// Goes on after what came of the last action. A role that is to be created
    /// gets a new password.
    pub fn next(self, event: ManageEvent) -> (r: (Manage, ManageStep))
        requires
            self.deep_view().expects(event.deep_view()),
        ensures
            exists|word: Seq<char>|
                (self.deep_view().wants_password(event.deep_view()) ==> password::is_password(
                    word,
                )) && (r.0.deep_view(), r.1.deep_view()) == #[trigger] self.deep_view().next(
                    event.deep_view(),
                    word,
                ),
    {
        let wanted: bool = match (&self.phase, &event) {
            (ManagePhase::SeekingRole, ManageEvent::Found(there)) => !*there,
            _ => false,
        };
        let word = if wanted {
            password::generate_password()
        } else {
            String::new()
        };
        self.next_with(event, word)
    }
}

// ---------------------------------------------------------------------------
// Laws
// ---------------------------------------------------------------------------

/// A server that does all that it is asked for: the databases and roles that
/// exist, the values of the parameters, and the password that each role gets if
/// it has to be created.
pub struct Server {
    pub databases: Set<Seq<char>>,
    pub roles: Set<Seq<char>>,
    pub params: Map<Seq<char>, Seq<char>>,
    pub passwords: spec_fn(Seq<char>) -> Seq<char>,
}

impl Server {
    /// What comes of an action.
    pub open spec fn answer(self, action: ManageAction<Seq<char>>) -> ManageEvent<Seq<char>> {
        match action {
            ManageAction::Read { name } => ManageEvent::Value(
                if self.params.contains_key(name) {
                    Some(self.params[name])
                } else {
                    None
                },
            ),
            ManageAction::Perform(Action::QueryDatabase { db }) => ManageEvent::Found(
                self.databases.contains(db),
            ),
            ManageAction::Perform(Action::QueryRole { role }) => ManageEvent::Found(
                self.roles.contains(role),
            ),
            _ => ManageEvent::Done,
        }
    }

    /// The password for the role that an action asks about.
    pub open spec fn password_for(self, action: ManageAction<Seq<char>>) -> Seq<char> {
        match action {
            ManageAction::Perform(Action::QueryRole { role }) => (self.passwords)(role),
            _ => Seq::empty(),
        }
    }
}

/// The actions of a provision that change something, at most `fuel` actions in
/// all, and how it ends.
pub open spec fn changes(server: Server, m: ManageModel, step: StepModel, fuel: nat) -> (
    Seq<Action<Seq<char>>>,
    StepModel,
)
    decreases fuel,
{
    match step {
        ManageStep::Do(action) => if fuel > 0 {
            let event = server.answer(action);
            if m.expects(event) {
                let (next, step) = m.next(event, server.password_for(action));
                let (more, end) = changes(server, next, step, (fuel - 1) as nat);
                match action {
                    ManageAction::Perform(change) => if event is Done {
                        (seq![change] + more, end)
                    } else {
                        (more, end)
                    },
                    _ => (more, end),
                }
            } else {
                arbitrary()
            }
        } else {
            (Seq::empty(), step)
        },
        _ => (Seq::empty(), step),
    }
}

/// The changes of a provision: what is missing is created, the credentials of a
/// new role are published, and the grants are always made.
pub open spec fn all_changes(server: Server, project: Seq<char>, db: Seq<char>) -> Seq<
    Action<Seq<char>>,
> {
    let role = ops::app_role_of(project);
    let password = (server.passwords)(role);
    (if server.databases.contains(db) {
        Seq::empty()
    } else {
        seq![Action::CreateDatabase { db }]
    }) + (if server.roles.contains(role) {
        Seq::empty()
    } else {
        seq![
            Action::CreateRole { role, password },
            Action::PutParam { name: param(project, "username"@), value: role },
            Action::PutSecret { name: param(project, "password"@), value: password },
            Action::PutParam { name: param(project, "database"@), value: db },
        ]
    }) + seq![Action::GrantAll { db, role }, Action::GrantSchema { role, indent: Indent::Narrow }]
}

proof fn grants(server: Server, m: ManageModel, fuel: nat)
    requires
        fuel >= 5,
        m.phase is Granting,
        server.params.contains_key(ADMIN_USER@),
        server.params.contains_key(ADMIN_PASSWORD@),
    ensures
        ({
            let role = ops::app_role_of(m.project);
            let db = m.db;
            let step = StepModel::Do(ManageAction::Perform(Action::GrantAll { db, role }));
            changes(server, m, step, fuel) == (
                seq![
                    Action::GrantAll { db, role },
                    Action::GrantSchema { role, indent: Indent::Narrow },
                ],
                StepModel::Finish(Response { project: m.project, db_name: db, created: m.created }),
            )
        }),
{
    reveal_with_fuel(changes, 6);
    let role = ops::app_role_of(m.project);
    let db = m.db;
    let step = StepModel::Do(ManageAction::Perform(Action::GrantAll { db, role }));
    assert(changes(server, m, step, fuel).0 =~= seq![
        Action::GrantAll { db, role },
        Action::GrantSchema { role, indent: Indent::Narrow },
    ]);
}

proof fn role_changes(server: Server, m: ManageModel, fuel: nat)
    requires
        fuel >= 10,
        m.phase is SeekingRole,
        server.params.contains_key(ADMIN_USER@),
        server.params.contains_key(ADMIN_PASSWORD@),
    ensures
        ({
            let role = ops::app_role_of(m.project);
            let db = m.db;
            let password = (server.passwords)(role);
            let step = StepModel::Do(ManageAction::Perform(Action::QueryRole { role }));
            changes(server, m, step, fuel) == (
                (if server.roles.contains(role) {
                    Seq::empty()
                } else {
                    seq![
                        Action::CreateRole { role, password },
                        Action::PutParam { name: param(m.project, "username"@), value: role },
                        Action::PutSecret { name: param(m.project, "password"@), value: password },
                        Action::PutParam { name: param(m.project, "database"@), value: db },
                    ]
                }) + seq![
                    Action::GrantAll { db, role },
                    Action::GrantSchema { role, indent: Indent::Narrow },
                ],
                StepModel::Finish(
                    Response {
                        project: m.project,
                        db_name: db,
                        created: m.created || !server.roles.contains(role),
                    },
                ),
            )
        }),
{
    reveal_with_fuel(changes, 6);
    let role = ops::app_role_of(m.project);
    let db = m.db;
    let password = (server.passwords)(role);
    let step = StepModel::Do(ManageAction::Perform(Action::QueryRole { role }));
    let asked = changes(server, m, step, fuel).0;
    let granting = ManageModel { phase: ManagePhase::Granting, ..m };
    let tail = seq![
        Action::GrantAll { db, role },
        Action::GrantSchema { role, indent: Indent::Narrow },
    ];
    if server.roles.contains(role) {
        grants(server, granting, (fuel - 1) as nat);
        assert(asked =~= Seq::empty() + tail);
    } else {
        grants(server, ManageModel { created: true, ..granting }, (fuel - 5) as nat);
        assert(asked =~= seq![
            Action::CreateRole { role, password },
            Action::PutParam { name: param(m.project, "username"@), value: role },
            Action::PutSecret { name: param(m.project, "password"@), value: password },
            Action::PutParam { name: param(m.project, "database"@), value: db },
        ] + tail);
    }
}

/// A provision makes exactly these changes and ends well: what exists is left
/// alone, the password that is published is the one the role was created with,
/// and it reports that something was created where the database or the role was
/// missing.
pub proof fn provision_creates_what_is_missing(
    server: Server,
    project: Seq<char>,
    db: Seq<char>,
    host: Seq<char>,
    port: Seq<char>,
    fuel: nat,
)
    requires
        fuel >= 15,
        server.params.contains_key(ADMIN_USER@),
        server.params.contains_key(ADMIN_PASSWORD@),
    ensures
        changes(
            server,
            ManageModel::start(project, db, host, port),
            ManageStep::Do(ManageAction::Read { name: ADMIN_USER@ }),
            fuel,
        ) == (
            all_changes(server, project, db),
            StepModel::Finish(
                Response {
                    project,
                    db_name: db,
                    created: !(server.databases.contains(db) && server.roles.contains(
                        ops::app_role_of(project),
                    )),
                },
            ),
        ),
{
    reveal_with_fuel(changes, 6);
    let m = ManageModel::start(project, db, host, port);
    let seeking = ManageModel { phase: ManagePhase::SeekingRole, ..m };
    let asked = changes(
        server,
        m,
        ManageStep::Do(ManageAction::Read { name: ADMIN_USER@ }),
        fuel,
    ).0;
    if server.databases.contains(db) {
        role_changes(server, seeking, (fuel - 4) as nat);
    } else {
        role_changes(server, ManageModel { created: true, ..seeking }, (fuel - 5) as nat);
    }
    assert(asked =~= all_changes(server, project, db));
}

} // verus!
