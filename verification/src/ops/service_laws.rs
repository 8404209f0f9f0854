//! What is asked of the service, and how it prepares for it.

use vstd::prelude::*;

use super::drop_db::DropModel;
use super::entry::{DecisionModel, MigrationEvent, RequestModel};
use super::migrate::MigrateModel;
use super::noop::{FileSource, NoopModel};
use super::provision::{ProvisionModel, ProvisionStep};
use super::restore::RestoreModel;
use super::rollback::RollbackModel;
use super::seed::SeedModel;
use super::session::{OperationModel, Request, SessionModel};
use super::{Action, EventModel, Indent, Step};
use crate::lock;
use crate::ops::connect;
use crate::ops::entry;
use crate::ops::provision;
use crate::ops::sql;
use crate::text;

verus! {

// ---------------------------------------------------------------------------
// Events
// ---------------------------------------------------------------------------

/// An uploaded file starts a run of migrations of the project in whose directory
/// it is, if it is directly in it or in a directory below it other than those of
/// the roll-back and the seed files; any other file is ignored. A project that is
/// not registered is refused.
pub proof fn uploads_start_migrations(
    key: String,
    top: Seq<char>,
    project: Seq<char>,
    third: Seq<char>,
    rest: Seq<char>,
    projects: Map<Seq<char>, Seq<char>>,
)
    requires
        !top.contains('/'),
        !project.contains('/'),
        !third.contains('/'),
        key@ == top + seq!['/'] + (project + seq!['/'] + third) || key@ == top + seq!['/'] + (
        project + seq!['/'] + (third + seq!['/'] + rest)),
    ensures
        ({
            let r = entry::decision(MigrationEvent::Uploaded { key }, projects);
            if top != "migrations"@ || third == "rollback"@ || third == "seed"@ {
                r == DecisionModel::Ignore
            } else if projects.contains_key(project) {
                r == DecisionModel::Run {
                    project,
                    db: projects[project],
                    request: RequestModel::Migrate,
                }
            } else {
                r == DecisionModel::Refuse("Project \""@ + project + "\" is not registered"@)
            }
        }),
{
    let tail = if key@ == top + seq!['/'] + (project + seq!['/'] + third) {
        third
    } else {
        third + seq!['/'] + rest
    };
    text::split_at_front(top, project + seq!['/'] + tail, '/');
    text::split_at_front(project, tail, '/');
    text::split_at_front(third, rest, '/');
    text::split_join(rest, '/');
    let parts = text::split(key@, '/');
    assert(parts[0] == top && parts[1] == project && parts[2] == third);
}

/// A file that is not in a directory below the first one is ignored.
pub proof fn shallow_uploads_are_ignored(
    key: String,
    top: Seq<char>,
    name: Seq<char>,
    projects: Map<Seq<char>, Seq<char>>,
)
    requires
        !top.contains('/'),
        !name.contains('/'),
        key@ == name || key@ == top + seq!['/'] + name,
    ensures
        entry::decision(MigrationEvent::Uploaded { key }, projects) == DecisionModel::Ignore,
{
    text::split_at_front(top, name, '/');
    text::split_at_front(name, name, '/');
}

/// An operation that is asked for by name is run on the database of its project,
/// with the target and the comment that it was given. Without a registered
/// project, under an unknown name, or without a target or a comment that it
/// needs, it is refused, in this order.
pub proof fn operations_by_name(
    operation: String,
    project: String,
    target: Option<String>,
    comment: Option<String>,
    projects: Map<Seq<char>, Seq<char>>,
)
    ensures
        ({
            let event = MigrationEvent::Manual { operation, project, target, comment };
            let r = entry::decision(event, projects);
            let db = projects[project@];
            let name = operation@;
            let run = |request: RequestModel| DecisionModel::Run { project: project@, db, request };
            if !projects.contains_key(project@) {
                r == DecisionModel::Refuse("Project \""@ + project@ + "\" is not registered"@)
            } else {
                &&& name == "migrate"@ ==> r == run(RequestModel::Migrate)
                &&& name == "seed"@ ==> r == run(RequestModel::Seed)
                &&& name == "drop"@ ==> r == run(RequestModel::Drop)
                &&& name == "rollback"@ ==> r == run(
                    RequestModel::Rollback { down_to: target.deep_view() },
                )
                &&& name == "noop"@ && target is None ==> r == DecisionModel::Refuse(
                    "noop requires target"@,
                )
                &&& name == "noop"@ && target is Some && comment is None ==> r
                    == DecisionModel::Refuse("noop requires comment"@)
                &&& name == "noop"@ && target is Some && comment is Some ==> r == run(
                    RequestModel::Noop { target: target->0@, comment: comment->0@ },
                )
                &&& name == "restore"@ && target is None ==> r == DecisionModel::Refuse(
                    "restore requires target"@,
                )
                &&& name == "restore"@ && target is Some && comment is None ==> r
                    == DecisionModel::Refuse("restore requires comment"@)
                &&& name == "restore"@ && target is Some && comment is Some ==> r == run(
                    RequestModel::Restore { target: target->0@, comment: comment->0@ },
                )
                &&& name != "migrate"@ && name != "seed"@ && name != "drop"@ && name
                    != "rollback"@ && name != "noop"@ && name != "restore"@ ==> r
                    == DecisionModel::Refuse("Unknown operation: "@ + name)
            }
        }),
{
    reveal_strlit("migrate");
    reveal_strlit("seed");
    reveal_strlit("drop");
    reveal_strlit("rollback");
    reveal_strlit("noop");
    reveal_strlit("restore");
    assert("migrate"@[0] == 'm' && "seed"@[0] == 's' && "drop"@[0] == 'd' && "noop"@[0] == 'n');
    assert("rollback"@.len() == 8 && "restore"@.len() == 7);
}

/// What contracts say of a request is what it says.
pub proof fn requests_are_seen_as_they_are(request: Request)
    ensures
        request is Migrate <==> request.deep_view() is Migrate,
        request is Seed <==> request.deep_view() is Seed,
        request is Drop <==> request.deep_view() is Drop,
        request is Rollback <==> request.deep_view() is Rollback,
        request is Noop <==> request.deep_view() is Noop,
        request is Restore <==> request.deep_view() is Restore,
        request matches Request::Rollback { down_to } ==> request.deep_view()->down_to
            == down_to.deep_view(),
        request matches Request::Noop { target, comment } ==> request.deep_view()->Noop_target
            == target@ && request.deep_view()->Noop_comment == comment@,
        request matches Request::Restore { target, comment } ==> request.deep_view()->Restore_target
            == target@ && request.deep_view()->Restore_comment == comment@,
{
}

// ---------------------------------------------------------------------------
// Sessions
// ---------------------------------------------------------------------------

/// Every request is carried out by its own operation on its own project, with
/// what it asks for; the first action is that of the operation, and the lock is
/// that of the project. A run of seed files first looks for any; a run of
/// migrations, a recording and a restoring first provide the database.
pub proof fn requests_are_carried_out(project: Seq<char>, db: Seq<char>, request: Request)
    requires
        i64::MIN < lock::project_hash_spec(project) <= i64::MAX,
    ensures
        ({
            let (s, step) = SessionModel::start(project, db, request);
            let h = lock::project_hash_spec(project);
            &&& s.project == project && s.db == db
            &&& h >= 0 ==> s.id == h
            &&& h < 0 ==> s.id == -h
            &&& request is Migrate ==> s.operation == OperationModel::Migrate(
                MigrateModel::start(project),
            ) && s.first == Some(Action::<Seq<char>>::InitTracking)
            &&& request matches Request::Rollback { down_to } ==> s.operation
                == OperationModel::Rollback(RollbackModel::start(project, down_to.deep_view()))
                && s.first == Some(Action::<Seq<char>>::QueryAppliedNames)
            &&& request is Seed ==> s.operation == OperationModel::Seed(SeedModel::start(project))
                && s.first is None && s.phase is Listing && step == Step::<Seq<char>>::Do(
                Action::ListFiles { prefix: "migrations/"@ + project + "/"@ + "seed/"@ },
            )
            &&& request is Drop ==> s.operation == OperationModel::Drop(
                DropModel::start(project, db),
            ) && s.first == Some(Action::<Seq<char>>::ConnectAdmin)
            &&& request matches Request::Noop { target, comment } ==> s.operation
                == OperationModel::Noop(
                NoopModel::start(project, target@, comment@, FileSource::S3),
            ) && s.first == Some(Action::<Seq<char>>::InitTracking)
            &&& request matches Request::Restore { target, comment } ==> s.operation
                == OperationModel::Restore(
                RestoreModel::start(project, db, target@, comment@),
            ) && s.first == Some(Action::<Seq<char>>::ConnectAdmin)
            &&& !(request is Seed) ==> step == Step::<Seq<char>>::Do(Action::ConnectAdmin)
            &&& request is Rollback || request is Drop ==> s.phase is Connecting
            &&& request is Migrate || request is Noop || request is Restore ==> s.phase
                == super::session::PhaseModel::Providing(
                ProvisionModel::start(project, db, Indent::Narrow),
            )
        }),
{
}

/// Before its lock is taken a session makes sure of the database of the service
/// and its tables, and connects as the project's application unless it drops or
/// restores the database; under the lock the operation begins with its first
/// action. Each of these that fails ends the session with its error.
pub proof fn a_session_is_prepared(
    s: SessionModel,
    first: Action<Seq<char>>,
    error: Seq<char>,
    now: u128,
    word: Seq<char>,
)
    requires
        s.phase is Connecting,
        s.first == Some(first),
    ensures
        ({
            let done = EventModel::Done;
            let failed = EventModel::Failed(error);
            let r1 = s.next(done, now, word);
            let missing = r1.0.next(EventModel::Found(false), now, word);
            let created = missing.0.next(done, now, word);
            let r2 = r1.0.next(EventModel::Found(true), now, word);
            let r3 = r2.0.next(done, now, word);
            let r4 = r3.0.next(done, now, word);
            let opened = r4.0.next(done, now, word);
            let locking = if s.operation is Drop || s.operation is Restore {
                r4
            } else {
                opened
            };
            let r5 = locking.0.next(done, now, word);
            &&& r1.1 == Step::<Seq<char>>::Do(Action::QueryDatabase { db: "platform_ops"@ })
            &&& missing.1 == Step::<Seq<char>>::Do(Action::CreateDatabase { db: "platform_ops"@ })
            &&& created == r2
            &&& r2.1 == Step::<Seq<char>>::Do(Action::ConnectOps)
            &&& r3.1 == Step::<Seq<char>>::Do(Action::InitOps)
            &&& !(s.operation is Drop || s.operation is Restore) ==> r4.1 == Step::<Seq<char>>::Do(
                Action::ConnectApp { project: s.project, db: s.db },
            )
            &&& locking.1 == Step::<Seq<char>>::Do(Action::AcquireLock { id: s.id })
            &&& r5.1 == Step::<Seq<char>>::Do(first)
            &&& r5.0.phase is Running && r5.0.operation == s.operation && r5.0.id == s.id
            &&& s.next(failed, now, word).1 == Step::Fail(error)
            &&& r1.0.next(failed, now, word).1 == Step::Fail(error)
            &&& missing.0.next(failed, now, word).1 == Step::Fail(error)
            &&& r2.0.next(failed, now, word).1 == Step::Fail(error)
            &&& r3.0.next(failed, now, word).1 == Step::Fail(error)
            &&& r4.0.next(failed, now, word).1 == Step::Fail(error)
            &&& locking.0.next(failed, now, word).1 == Step::Fail(error)
        }),
{
}

/// While the database is provided the session asks for what the provision asks
/// for, and goes on with its preparation once that is ready. Without a seed file
/// the session is over at once.
pub proof fn a_session_provides_and_lists(
    s: SessionModel,
    event: EventModel,
    now: u128,
    word: Seq<char>,
)
    ensures
        s.phase matches super::session::PhaseModel::Providing(p) ==> ({
            let (m, step) = p.next(event, word);
            let r = s.next(event, now, word);
            &&& step matches ProvisionStep::Do(action) ==> r.1 == Step::Do(action) && r.0.phase
                == super::session::PhaseModel::Providing(m)
            &&& step is Ready ==> r.1 == Step::<Seq<char>>::Do(Action::ConnectAdmin)
                && r.0.phase is Connecting && r.0.first == s.first && r.0.operation
                == s.operation && r.0.id == s.id && r.0.project == s.project && r.0.db == s.db
            &&& step matches ProvisionStep::Fail(error) ==> r.1 == Step::Fail(error)
        }),
        s.phase is Listing ==> ({
            let (o, step) = s.operation.next(event, now);
            let r = s.next(event, now, word);
            &&& step matches Step::Do(first) ==> r.1 == Step::<Seq<char>>::Do(Action::ConnectAdmin)
                && r.0.phase is Connecting && r.0.first == Some(first) && r.0.operation == o
            &&& !(step is Do) ==> r.1 == step
        }),
        s.phase is Running ==> ({
            let (o, step) = s.operation.next(event, now);
            let r = s.next(event, now, word);
            &&& step is Do ==> r.1 == step && r.0.operation == o && r.0.phase is Running
            &&& !(step is Do) ==> r.1 == Step::<Seq<char>>::Do(Action::ReleaseLock { id: s.id })
        }),
{
}

/// The operation of a session goes on as it does by itself.
pub proof fn operations_are_themselves(o: OperationModel, event: EventModel, now: u128)
    ensures
        o matches OperationModel::Migrate(m) ==> o.next(event, now) == (
            OperationModel::Migrate(m.next(event, now).0),
            m.next(event, now).1,
        ) && o.expects(event) == m.expects(event),
        o matches OperationModel::Rollback(m) ==> o.next(event, now) == (
            OperationModel::Rollback(m.next(event, now).0),
            m.next(event, now).1,
        ) && o.expects(event) == m.expects(event),
        o matches OperationModel::Seed(m) ==> o.next(event, now) == (
            OperationModel::Seed(m.next(event, now).0),
            m.next(event, now).1,
        ) && o.expects(event) == m.expects(event),
        o matches OperationModel::Drop(m) ==> o.next(event, now) == (
            OperationModel::Drop(m.next(event).0),
            m.next(event).1,
        ) && o.expects(event) == m.expects(event),
        o matches OperationModel::Noop(m) ==> o.next(event, now) == (
            OperationModel::Noop(m.next(event).0),
            m.next(event).1,
        ) && o.expects(event) == m.expects(event),
        o matches OperationModel::Restore(m) ==> o.next(event, now) == (
            OperationModel::Restore(m.next(event, now).0),
            m.next(event, now).1,
        ) && o.expects(event) == m.expects(event),
{
}

/// Every operation takes whatever can come of the action that it asked for.
pub proof fn every_answer_is_expected(
    migrate: MigrateModel,
    rollback: RollbackModel,
    seed: SeedModel,
    drop: DropModel,
    noop: NoopModel,
    restore: RestoreModel,
    provision: ProvisionModel,
    event: EventModel,
)
    requires
        event matches EventModel::Files(files) ==> files.len() <= i32::MAX,
        event matches EventModel::Names(names) ==> names.len() <= i32::MAX,
    ensures
        migrate.expects(event) <==> !(migrate.phase is Ended) && (event is Failed || (
        if migrate.phase is Listing {
            event is Files
        } else if migrate.phase is Querying {
            event is Applied
        } else if migrate.phase is Reading {
            event is Content
        } else {
            event is Done
        })),
        rollback.expects(event) <==> !(rollback.phase is Ended) && (event is Failed || (
        if rollback.phase is Querying {
            event is Names
        } else if rollback.phase is Listing {
            event is Files
        } else if rollback.phase is Reading {
            event is Content
        } else {
            event is Done
        })),
        seed.expects(event) <==> !(seed.phase is Ended) && (event is Failed || (
        if seed.phase is Listing {
            event is Files
        } else if seed.phase is Reading {
            event is Content
        } else {
            event is Done
        })),
        drop.expects(event) <==> !(drop.phase is Ended) && (event is Failed || event is Done),
        noop.expects(event) <==> !(noop.phase is Ended) && (event is Failed || (
        if noop.phase is Querying {
            event is Found
        } else if noop.phase is Listing {
            event is Files
        } else if noop.phase is Reading {
            event is Content
        } else {
            event is Done
        })),
        restore.expects(event) <==> !(restore.phase is Ended) && (event is Failed || (
        if restore.phase is Listing {
            event is Files
        } else if restore.phase is Querying {
            event is Found
        } else if restore.phase is Loading || restore.phase is Reading {
            event is Content
        } else {
            event is Done
        })),
        provision.expects(event) <==> !(provision.phase is Ended) && (event is Failed || (
        if provision.phase is SeekingDatabase || provision.phase is SeekingApp
            || provision.phase is SeekingReader {
            event is Found
        } else {
            event is Done
        })),
{
}

// ---------------------------------------------------------------------------
// Provision, connections and locks
// ---------------------------------------------------------------------------

/// Where the credentials of a project are published, and that a provision ends
/// with the error of whatever fails.
pub proof fn credentials_are_published_by_project(
    project: Seq<char>,
    leaf: Seq<char>,
    m: ProvisionModel,
    error: Seq<char>,
    word: Seq<char>,
)
    ensures
        provision::app_param(project, leaf) == "/platform/db/"@ + project + "/"@ + leaf,
        provision::reader_param(project, leaf) == "/platform/db/"@ + project + "/reader/"@ + leaf,
        m.next(EventModel::Failed(error), word).1 == ProvisionStep::Fail(error),
{
}

/// A password is asked for where a role that is looked for is not there, and only
/// there.
pub proof fn passwords_are_for_new_roles(m: ProvisionModel, event: EventModel, word: Seq<char>)
    requires
        m.expects(event),
    ensures
        m.wants_password(event) <==> m.next(event, word).1 matches ProvisionStep::Do(
            Action::CreateRole { .. },
        ),
        m.next(event, word).1 matches ProvisionStep::Do(Action::CreateRole { password, .. })
            ==> password == word,
{
}

/// A connection is asked for with the address, the port, the user, the password
/// and the database of its endpoint.
pub proof fn connections_are_asked_for(
    host: Seq<char>,
    port: Option<String>,
    user: Seq<char>,
    password: Seq<char>,
    db: Seq<char>,
)
    ensures
        connect::connection_of(host, connect::port_of(port), user, password, db) == "host="@ + host
            + " port="@ + (match port {
            Some(p) => p@,
            None => "5432"@,
        }) + " user="@ + user + " password="@ + password + " dbname="@ + db,
        connect::ADMIN_DB@ == "postgres"@,
        sql::OPS_DB@ == "platform_ops"@,
{
}

/// The hash of a project's name is the number in 64 bits that its bytes make as
/// digits in base 31, the first one being the most significant.
pub proof fn hash_is_in_base_31(project: Seq<char>, bytes: Seq<u8>, last: u8, n: int)
    ensures
        lock::base31(Seq::empty()) == 0,
        lock::base31(bytes.push(last)) == 31 * lock::base31(bytes) + last,
        i64::MIN <= lock::wrapped(n) <= i64::MAX,
        (n - lock::wrapped(n)) % 0x1_0000_0000_0000_0000 == 0,
        i64::MIN <= lock::project_hash_spec(project) <= i64::MAX,
        (lock::base31(vstd::utf8::encode_utf8(project)) - lock::project_hash_spec(project))
            % 0x1_0000_0000_0000_0000 == 0,
        n >= 0 ==> lock::magnitude(n) == n,
        n < 0 ==> lock::magnitude(n) == -n,
{
    assert(bytes.push(last).drop_last() =~= bytes);
    wrapped_is_congruent(n);
    wrapped_is_congruent(lock::base31(vstd::utf8::encode_utf8(project)));
}

proof fn wrapped_is_congruent(n: int)
    ensures
        i64::MIN <= lock::wrapped(n) <= i64::MAX,
        (n - lock::wrapped(n)) % 0x1_0000_0000_0000_0000 == 0,
{
    let m: int = 0x1_0000_0000_0000_0000;
    vstd::arithmetic::div_mod::lemma_fundamental_div_mod(n, m);
    let q = n / m;
    let w = lock::wrapped(n);
    let k = if n % m > i64::MAX {
        q + 1
    } else {
        q
    };
    assert(n - w == k * m) by (nonlinear_arith)
        requires
            n == m * q + n % m,
            (k == q && w == n % m) || (k == q + 1 && w == n % m - m),
    ;
    vstd::arithmetic::div_mod::lemma_mod_multiples_basic(k, m);
}

} // verus!
