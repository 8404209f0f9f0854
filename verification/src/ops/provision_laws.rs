//! What a provision does where everything it asks for is done.

use vstd::prelude::*;

use super::provision::{ProvisionModel, ProvisionStep};
use super::{Action, EventModel, Indent};
use crate::ops;
use crate::ops::provision;

verus! {

/// A database server: the databases and roles that exist, and the password
/// that each role gets if it has to be created.
pub struct Server {
    pub databases: Set<Seq<char>>,
    pub roles: Set<Seq<char>>,
    pub passwords: spec_fn(Seq<char>) -> Seq<char>,
}

impl Server {
    /// What comes of an action.
    pub open spec fn answer(self, action: Action<Seq<char>>) -> EventModel {
        match action {
            Action::QueryDatabase { db } => EventModel::Found(self.databases.contains(db)),
            Action::QueryRole { role } => EventModel::Found(self.roles.contains(role)),
            _ => EventModel::Done,
        }
    }

    /// The password for the role that an action asks about.
    pub open spec fn password_for(self, action: Action<Seq<char>>) -> Seq<char> {
        match action {
            Action::QueryRole { role } => (self.passwords)(role),
            _ => Seq::empty(),
        }
    }
}

/// The actions of a provision on a server, at most `fuel`, and how it ends.
pub open spec fn actions(
    server: Server,
    m: ProvisionModel,
    step: ProvisionStep<Seq<char>>,
    fuel: nat,
) -> (Seq<Action<Seq<char>>>, ProvisionStep<Seq<char>>)
    decreases fuel,
{
    match step {
        ProvisionStep::Do(action) => if fuel > 0 {
            let event = server.answer(action);
            if m.expects(event) {
                let (next, step) = m.next(event, server.password_for(action));
                let (more, end) = actions(server, next, step, (fuel - 1) as nat);
                (seq![action] + more, end)
            } else {
                arbitrary()
            }
        } else {
            (Seq::empty(), step)
        },
        _ => (Seq::empty(), step),
    }
}

/// The actions that create a project's application role.
pub open spec fn app_actions(project: Seq<char>, db: Seq<char>, password: Seq<char>) -> Seq<
    Action<Seq<char>>,
> {
    let role = ops::app_role_of(project);
    seq![
        Action::CreateRole { role, password },
        Action::PutParam { name: provision::app_param(project, "username"@), value: role },
        Action::PutSecret { name: provision::app_param(project, "password"@), value: password },
        Action::PutParam { name: provision::app_param(project, "database"@), value: db },
    ]
}

/// The actions that create a project's reader role.
pub open spec fn reader_actions(project: Seq<char>, password: Seq<char>) -> Seq<
    Action<Seq<char>>,
> {
    let role = ops::reader_role_of(project);
    seq![
        Action::CreateRole { role, password },
        Action::PutParam { name: provision::reader_param(project, "username"@), value: role },
        Action::PutSecret { name: provision::reader_param(project, "password"@), value: password },
    ]
}

/// The actions that every provision ends with.
pub open spec fn grant_actions(project: Seq<char>, db: Seq<char>, indent: Indent) -> Seq<
    Action<Seq<char>>,
> {
    let role = ops::app_role_of(project);
    let reader = ops::reader_role_of(project);
    seq![
        Action::GrantDatabase { db, role, reader, indent },
        Action::GrantMembership { role },
        Action::ConnectProject { db },
        Action::GrantSchema { role, indent: Indent::Narrow },
        Action::GrantReader { role, reader, membership: false },
    ]
}

/// The actions of a provision: the database and each of the two roles are
/// created, and the credentials of a role published, only where they are
/// missing; the grants are always made.
pub open spec fn all_actions(
    server: Server,
    project: Seq<char>,
    db: Seq<char>,
    indent: Indent,
) -> Seq<Action<Seq<char>>> {
    let role = ops::app_role_of(project);
    let reader = ops::reader_role_of(project);
    seq![Action::ConnectAdmin, Action::QueryDatabase { db }] + (if server.databases.contains(db) {
        Seq::empty()
    } else {
        seq![Action::CreateDatabase { db }]
    }) + seq![Action::QueryRole { role }] + (if server.roles.contains(role) {
        Seq::empty()
    } else {
        app_actions(project, db, (server.passwords)(role))
    }) + seq![Action::QueryRole { role: reader }] + (if server.roles.contains(reader) {
        Seq::empty()
    } else {
        reader_actions(project, (server.passwords)(reader))
    }) + grant_actions(project, db, indent)
}

proof fn grants(server: Server, m: ProvisionModel, fuel: nat)
    requires
        fuel >= 5,
        m.phase is GrantingDatabase,
    ensures
        ({
            let role = ops::app_role_of(m.project);
            let reader = ops::reader_role_of(m.project);
            let db = m.db;
            let (asked, end) = actions(
                server,
                m,
                ProvisionStep::Do(Action::GrantDatabase { db, role, reader, indent: m.indent }),
                fuel,
            );
            asked == grant_actions(m.project, m.db, m.indent) && end is Ready
        }),
{
    reveal_with_fuel(actions, 6);
    let role = ops::app_role_of(m.project);
    let reader = ops::reader_role_of(m.project);
    let db = m.db;
    let asked = actions(
        server,
        m,
        ProvisionStep::Do(Action::GrantDatabase { db, role, reader, indent: m.indent }),
        fuel,
    ).0;
    assert(asked =~= grant_actions(m.project, m.db, m.indent));
}

proof fn from_reader(server: Server, m: ProvisionModel, fuel: nat)
    requires
        fuel >= 9,
        m.phase is SeekingReader,
    ensures
        ({
            let reader = ops::reader_role_of(m.project);
            let (asked, end) = actions(
                server,
                m,
                ProvisionStep::Do(Action::QueryRole { role: reader }),
                fuel,
            );
            asked == seq![Action::QueryRole { role: reader }] + (if server.roles.contains(reader) {
                Seq::empty()
            } else {
                reader_actions(m.project, (server.passwords)(reader))
            }) + grant_actions(m.project, m.db, m.indent) && end is Ready
        }),
{
    let reader = ops::reader_role_of(m.project);
    let step = ProvisionStep::Do(Action::QueryRole { role: reader });
    let granting = ProvisionModel {
        phase: provision::ProvisionPhase::GrantingDatabase,
        ..m
    };
    reveal_with_fuel(actions, 5);
    let asked = actions(server, m, step, fuel).0;
    if server.roles.contains(reader) {
        grants(server, granting, (fuel - 1) as nat);
        assert(asked =~= seq![Action::QueryRole { role: reader }] + Seq::empty() + grant_actions(
            m.project,
            m.db,
            m.indent,
        ));
    } else {
        grants(server, granting, (fuel - 4) as nat);
        assert(asked =~= seq![Action::QueryRole { role: reader }] + reader_actions(
            m.project,
            (server.passwords)(reader),
        ) + grant_actions(m.project, m.db, m.indent));
    }
}

proof fn from_app(server: Server, m: ProvisionModel, fuel: nat)
    requires
        fuel >= 14,
        m.phase is SeekingApp,
    ensures
        ({
            let role = ops::app_role_of(m.project);
            let reader = ops::reader_role_of(m.project);
            let (asked, end) = actions(
                server,
                m,
                ProvisionStep::Do(Action::QueryRole { role }),
                fuel,
            );
            asked == seq![Action::QueryRole { role }] + (if server.roles.contains(role) {
                Seq::empty()
            } else {
                app_actions(m.project, m.db, (server.passwords)(role))
            }) + seq![Action::QueryRole { role: reader }] + (if server.roles.contains(reader) {
                Seq::empty()
            } else {
                reader_actions(m.project, (server.passwords)(reader))
            }) + grant_actions(m.project, m.db, m.indent) && end is Ready
        }),
{
    let role = ops::app_role_of(m.project);
    let reader = ops::reader_role_of(m.project);
    let step = ProvisionStep::Do(Action::QueryRole { role });
    let seeking = ProvisionModel { phase: provision::ProvisionPhase::SeekingReader, ..m };
    reveal_with_fuel(actions, 6);
    let asked = actions(server, m, step, fuel).0;
    let tail = seq![Action::QueryRole { role: reader }] + (if server.roles.contains(reader) {
        Seq::empty()
    } else {
        reader_actions(m.project, (server.passwords)(reader))
    }) + grant_actions(m.project, m.db, m.indent);
    let middle = if server.roles.contains(role) {
        Seq::empty()
    } else {
        app_actions(m.project, m.db, (server.passwords)(role))
    };
    if server.roles.contains(role) {
        from_reader(server, seeking, (fuel - 1) as nat);
    } else {
        from_reader(server, seeking, (fuel - 5) as nat);
    }
    assert(asked =~= seq![Action::QueryRole { role }] + middle + tail);
    assert(seq![Action::QueryRole { role }] + middle + tail =~= seq![Action::QueryRole { role }]
        + middle + seq![Action::QueryRole { role: reader }] + (if server.roles.contains(reader) {
        Seq::empty()
    } else {
        reader_actions(m.project, (server.passwords)(reader))
    }) + grant_actions(m.project, m.db, m.indent));
}

/// A provision asks for exactly these actions and ends well: what exists is
/// left alone, and the password that is published for a role is the one that
/// the role was created with.
pub proof fn provision_creates_what_is_missing(
    server: Server,
    project: Seq<char>,
    db: Seq<char>,
    indent: Indent,
    fuel: nat,
)
    requires
        fuel >= 17,
    ensures
        actions(
            server,
            ProvisionModel::start(project, db, indent),
            ProvisionStep::Do(Action::ConnectAdmin),
            fuel,
        ) == (all_actions(server, project, db, indent), ProvisionStep::<Seq<char>>::Ready),
{
    reveal_with_fuel(actions, 4);
    let m = ProvisionModel::start(project, db, indent);
    let seeking = ProvisionModel { phase: provision::ProvisionPhase::SeekingApp, ..m };
    let asked = actions(server, m, ProvisionStep::Do(Action::ConnectAdmin), fuel).0;
    if server.databases.contains(db) {
        from_app(server, seeking, (fuel - 2) as nat);
    } else {
        from_app(server, seeking, (fuel - 3) as nat);
    }
    assert(asked =~= all_actions(server, project, db, indent));
}

} // verus!
