//! What is done for a project's database on the TrueNAS server, step by step.

use vstd::prelude::*;

use crate::ops::sql::Connection;
use crate::ops::{Action, Indent};
use crate::truenas;
use crate::truenas::{
    ManageAction, ManageEvent, ManageModel, ManagePhase, ManageStep, Response, StepModel,
    ADMIN_PASSWORD, ADMIN_USER,
};

verus! {

/// Where the credentials stand: those of the administrator, and those that are
/// published for a project's application.
pub proof fn credentials_have_their_places(project: Seq<char>, leaf: Seq<char>)
    ensures
        ADMIN_USER@ == "/platform/truenas/pg-admin-user"@,
        ADMIN_PASSWORD@ == "/platform/truenas/pg-admin-password"@,
        truenas::param(project, leaf) == "/platform/truenas-db/"@ + project + "/"@ + leaf,
{
}

/// The error of a project that is not registered names it, and shows every
/// registered project once.
pub proof fn registered_projects_are_shown(
    project: Seq<char>,
    names: Seq<Seq<char>>,
    projects: Map<Seq<char>, Seq<char>>,
    shown: Seq<char>,
)
    ensures
        truenas::are_registered(names, projects) <==> names.no_duplicates() && (forall|
            name: Seq<char>,
        | #[trigger]
            names.contains(name) <==> projects.contains_key(name)),
        truenas::not_registered(project, shown) == "Project \""@ + project
            + "\" not registered. Registered: "@ + shown,
{
}

/// A provision begins with the reading of the administrator's name, and nothing
/// has been created yet.
pub proof fn provisions_begin(project: Seq<char>, db: Seq<char>, host: Seq<char>, port: Seq<char>)
    ensures
        ({
            let m = ManageModel::start(project, db, host, port);
            &&& m.project == project
            &&& m.db == db
            &&& m.host == host
            &&& m.port == port
            &&& !m.created
            &&& m.phase == (ManagePhase::<Seq<char>>::ReadingUser { opening: false })
        }),
{
}

/// The server is reached as the administrator, whose name and password are read
/// one after the other: first its maintenance database, where the project's is
/// looked for, and in the end the project's, where the schema is granted to the
/// role of its application.
pub proof fn databases_are_reached(
    m: ManageModel,
    opening: bool,
    user: Seq<char>,
    word: Seq<char>,
    password: Seq<char>,
)
    requires
        m.phase == (ManagePhase::<Seq<char>>::ReadingUser { opening }),
    ensures
        ({
            let r1 = m.next(ManageEvent::Value(Some(user)), password);
            let r2 = r1.0.next(ManageEvent::Value(Some(word)), password);
            let r3 = r2.0.next(ManageEvent::Done, password);
            &&& r1.1 == StepModel::Do(
                ManageAction::Read { name: "/platform/truenas/pg-admin-password"@ },
            )
            &&& r2.1 == StepModel::Do(
                ManageAction::Connect {
                    connection: if opening {
                        Connection::Project
                    } else {
                        Connection::Admin
                    },
                    with: "host="@ + m.host + " port="@ + m.port + " user="@ + user + " password="@
                        + word + " dbname="@ + (if opening {
                        m.db
                    } else {
                        "postgres"@
                    }),
                },
            )
            &&& r3.1 == StepModel::Do(
                ManageAction::Perform(
                    if opening {
                        Action::GrantSchema { role: m.project + "_app"@, indent: Indent::Narrow }
                    } else {
                        Action::QueryDatabase { db: m.db }
                    },
                ),
            )
            &&& r3.0 == (ManageModel {
                phase: if opening {
                    ManagePhase::GrantingSchema
                } else {
                    ManagePhase::SeekingDatabase
                },
                ..m
            })
        }),
{
}

/// A database that is there is left as it is; one that is missing is created.
/// Then the role of the project's application is looked for. A role that is there
/// gets the rights on the database; one that is missing is created first, and its
/// name, its password and the name of the database are published, each in its
/// own place.
pub proof fn what_is_missing_is_created(m: ManageModel, password: Seq<char>, other: Seq<char>)
    requires
        m.phase is SeekingDatabase,
    ensures
        ({
            let role = m.project + "_app"@;
            let there = m.next(ManageEvent::Found(true), other);
            let missing = m.next(ManageEvent::Found(false), other);
            let created = missing.0.next(ManageEvent::Done, other);
            let seeking = ManageModel { phase: ManagePhase::SeekingRole, ..m };
            let known = seeking.next(ManageEvent::Found(true), other);
            let r1 = seeking.next(ManageEvent::Found(false), password);
            let r2 = r1.0.next(ManageEvent::Done, other);
            let r3 = r2.0.next(ManageEvent::Done, other);
            let r4 = r3.0.next(ManageEvent::Done, other);
            let r5 = r4.0.next(ManageEvent::Done, other);
            let perform = |action: Action<Seq<char>>| StepModel::Do(ManageAction::Perform(action));
            let under = "/platform/truenas-db/"@ + m.project + "/"@;
            &&& there.1 == perform(Action::QueryRole { role })
            &&& there.0 == seeking
            &&& missing.1 == perform(Action::CreateDatabase { db: m.db })
            &&& created.1 == perform(Action::QueryRole { role })
            &&& created.0 == (ManageModel { created: true, ..seeking })
            &&& known.1 == perform(Action::GrantAll { db: m.db, role })
            &&& known.0 == (ManageModel { phase: ManagePhase::Granting, ..m })
            &&& seeking.wants_password(ManageEvent::Found(false))
            &&& !seeking.wants_password(ManageEvent::Found(true))
            &&& !m.wants_password(ManageEvent::Found(false))
            &&& r1.1 == perform(Action::CreateRole { role, password })
            &&& r2.1 == perform(Action::PutParam { name: under + "username"@, value: role })
            &&& r3.1 == perform(Action::PutSecret { name: under + "password"@, value: password })
            &&& r4.1 == perform(Action::PutParam { name: under + "database"@, value: m.db })
            &&& r5.1 == perform(Action::GrantAll { db: m.db, role })
            &&& r5.0 == (ManageModel { created: true, ..known.0 })
        }),
{
}

/// Behind the rights on the database the administrator's name is read again, to
/// reach the project's database; behind those on its schema the database is
/// reported as ready.
pub proof fn a_database_gets_ready(m: ManageModel, password: Seq<char>)
    ensures
        m.phase is Granting ==> m.next(ManageEvent::Done, password) == (
            ManageModel { phase: ManagePhase::ReadingUser { opening: true }, ..m },
            StepModel::Do(ManageAction::Read { name: "/platform/truenas/pg-admin-user"@ }),
        ),
        m.phase is GrantingSchema ==> m.next(ManageEvent::Done, password).1 == StepModel::Finish(
            Response { project: m.project, db_name: m.db, created: m.created },
        ),
{
}

/// A failure is reported with what failed and for which project: up to the
/// connection to the maintenance database as one to connect, and later as one to
/// provide the database.
pub proof fn failures_are_explained(m: ManageModel, error: Seq<char>, password: Seq<char>)
    requires
        !(m.phase is Ended),
    ensures
        ({
            let role = m.project + "_app"@;
            let first = "Failed to connect to TrueNAS Postgres: "@;
            let later = "ensure_database failed for "@ + m.project + ": "@;
            let front = match m.phase {
                ManagePhase::ReadingUser { opening } => if opening {
                    later
                } else {
                    first
                },
                ManagePhase::ReadingPassword { opening, .. } => if opening {
                    later
                } else {
                    first
                },
                ManagePhase::Connecting { opening } => if opening {
                    later
                } else {
                    first
                },
                _ => later,
            };
            let why = match m.phase {
                ManagePhase::ReadingUser { .. } => "Failed to read admin "@ + "user"@
                    + " from SSM: "@ + error,
                ManagePhase::ReadingPassword { .. } => "Failed to read admin "@ + "password"@
                    + " from SSM: "@ + error,
                ManagePhase::Connecting { opening } => if opening {
                    "Failed to connect to database "@ + m.db + ": "@ + error
                } else {
                    error
                },
                ManagePhase::SeekingDatabase => "Failed to query pg_database: "@ + error,
                ManagePhase::CreatingDatabase => "Failed to CREATE DATABASE "@ + m.db + ": "@
                    + error,
                ManagePhase::SeekingRole => "Failed to query pg_roles: "@ + error,
                ManagePhase::CreatingRole { .. } => "Failed to CREATE ROLE "@ + role + ": "@
                    + error,
                ManagePhase::Granting => "Failed to GRANT on database "@ + m.db + ": "@ + error,
                ManagePhase::GrantingSchema => "Failed to set schema grants for "@ + role + " on "@
                    + m.db + ": "@ + error,
                _ => error,
            };
            let unread = m.next(ManageEvent::Value(None), password).1;
            &&& m.next(ManageEvent::Failed(error), password).1 == StepModel::Fail(front + why)
            &&& m.phase is ReadingUser ==> unread == StepModel::Fail(
                front + ("SSM param "@ + "/platform/truenas/pg-admin-user"@ + " has no value"@),
            )
            &&& m.phase is ReadingPassword ==> unread == StepModel::Fail(
                front + ("SSM param "@ + "/platform/truenas/pg-admin-password"@ + " has no value"@),
            )
        }),
{
}

/// Everything that can come of what was asked for is expected, and nothing else.
pub proof fn every_outcome_is_expected(m: ManageModel, event: ManageEvent<Seq<char>>)
    ensures
        m.expects(event) <==> !(m.phase is Ended) && (event is Failed || (if m.phase is ReadingUser
            || m.phase is ReadingPassword {
            event is Value
        } else if m.phase is SeekingDatabase || m.phase is SeekingRole {
            event is Found
        } else {
            event is Done
        })),
{
}

/// What is asked for and what is reported is seen as it is.
pub proof fn provisions_are_seen_as_they_are(
    action: ManageAction,
    event: ManageEvent,
    step: ManageStep,
    response: Response,
)
    ensures
        response.deep_view() == (Response::<Seq<char>> {
            project: response.project@,
            db_name: response.db_name@,
            created: response.created,
        }),
        action matches ManageAction::Read { name } ==> action.deep_view() == (ManageAction::<
            Seq<char>,
        >::Read { name: name@ }),
        action matches ManageAction::Connect { connection, with } ==> action.deep_view() == (
        ManageAction::<Seq<char>>::Connect { connection, with: with@ }),
        action matches ManageAction::Perform(asked) ==> action.deep_view() == ManageAction::<
            Seq<char>,
        >::Perform(asked.deep_view()),
        event is Done ==> event.deep_view() == ManageEvent::<Seq<char>>::Done,
        event matches ManageEvent::Failed(error) ==> event.deep_view() == ManageEvent::<
            Seq<char>,
        >::Failed(error@),
        event matches ManageEvent::Found(there) ==> event.deep_view() == ManageEvent::<
            Seq<char>,
        >::Found(there),
        event matches ManageEvent::Value(value) ==> event.deep_view() == ManageEvent::<
            Seq<char>,
        >::Value(value.deep_view()),
        step matches ManageStep::Do(asked) ==> step.deep_view() == StepModel::Do(
            asked.deep_view(),
        ),
        step matches ManageStep::Finish(ready) ==> step.deep_view() == StepModel::Finish(
            ready.deep_view(),
        ),
        step matches ManageStep::Fail(message) ==> step.deep_view() == StepModel::Fail(message@),
{
}

} // verus!
