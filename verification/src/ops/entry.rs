//! What an event asks for.

use vstd::prelude::*;
use vstd::string::*;

use super::session::Request;
use super::ProjectConfig;
use crate::text;
use crate::text_map::TextMap;

verus! {

/// An event that the service is told of.
pub enum MigrationEvent {
    /// A file was uploaded under this key.
    Uploaded { key: String },
    /// An operation is asked for by name.
    Manual {
        operation: String,
        project: String,
        target: Option<String>,
        comment: Option<String>,
    },
}

/// What is done about an event.
pub enum Decision {
    /// Nothing.
    Ignore,
    /// A request is carried out on a project's database.
    Run { project: String, db: String, request: Request },
    /// It is refused, with a message.
    Refuse(String),
}

/// A request as contracts speak of it.
#[verifier::ext_equal]
pub enum RequestModel {
    Migrate,
    Rollback { down_to: Option<Seq<char>> },
    Seed,
    Drop,
    Noop { target: Seq<char>, comment: Seq<char> },
    Restore { target: Seq<char>, comment: Seq<char> },
}

/// What a [`Decision`] says.
#[verifier::ext_equal]
pub enum DecisionModel {
    Ignore,
    Run { project: Seq<char>, db: Seq<char>, request: RequestModel },
    Refuse(Seq<char>),
}

impl DeepView for Request {
    type V = RequestModel;

    open spec fn deep_view(&self) -> RequestModel {
        match *self {
            Request::Migrate => RequestModel::Migrate,
            Request::Rollback { down_to } => RequestModel::Rollback {
                down_to: down_to.deep_view(),
            },
            Request::Seed => RequestModel::Seed,
            Request::Drop => RequestModel::Drop,
            Request::Noop { target, comment } => RequestModel::Noop {
                target: target@,
                comment: comment@,
            },
            Request::Restore { target, comment } => RequestModel::Restore {
                target: target@,
                comment: comment@,
            },
        }
    }
}

impl DeepView for Decision {
    type V = DecisionModel;

    open spec fn deep_view(&self) -> DecisionModel {
        match *self {
            Decision::Ignore => DecisionModel::Ignore,
            Decision::Run { project, db, request } => DecisionModel::Run {
                project: project@,
                db: db@,
                request: request.deep_view(),
            },
            Decision::Refuse(message) => DecisionModel::Refuse(message@),
        }
    }
}

/// The error of a project that is not registered.
pub open spec fn not_registered(project: Seq<char>) -> Seq<char> {
    "Project \""@ + project + "\" is not registered"@
}

/// How a project is registered. `projects` holds the database of each.
pub fn require_project(project: &str, projects: &TextMap) -> (r: Result<ProjectConfig, String>)
    ensures
        r is Ok <==> projects@.contains_key(project@),
        r matches Ok(config) ==> config.db_name@ == projects@[project@],
        r matches Err(message) ==> message@ == not_registered(project@),
{
    match projects.get(project) {
        Some(db_name) => Ok(ProjectConfig { db_name }),
        None => Err(
            String::from_str("Project \"").concat(project).concat("\" is not registered"),
        ),
    }
}

/// The project whose migrations a key belongs to: `migrations/` and the name of
/// the project stand before it, and it is in neither the `rollback` nor the
/// `seed` directory.
pub open spec fn uploaded_to(key: Seq<char>) -> Option<Seq<char>> {
    let parts = text::split(key, '/');
    if parts.len() < 3 || parts[0] != "migrations"@ || parts[2] == "rollback"@ || parts[2]
        == "seed"@ {
        None
    } else {
        Some(parts[1])
    }
}

/// The project whose migrations a key belongs to.
pub fn uploaded_project(key: &str) -> (r: Option<String>)
    ensures
        r.deep_view() == uploaded_to(key@),
{
    let parts = text::split_on(key, '/');
    if parts.len() < 3 || !text::same(parts[0].as_str(), "migrations") || text::same(
        parts[2].as_str(),
        "rollback",
    ) || text::same(parts[2].as_str(), "seed") {
        None
    } else {
        Some(parts[1].clone())
    }
}

/// What an operation of this name asks for, or why it is refused.
pub open spec fn request_of(
    operation: Seq<char>,
    target: Option<Seq<char>>,
    comment: Option<Seq<char>>,
) -> Result<RequestModel, Seq<char>> {
    if operation == "migrate"@ {
        Ok(RequestModel::Migrate)
    } else if operation == "rollback"@ {
        Ok(RequestModel::Rollback { down_to: target })
    } else if operation == "seed"@ {
        Ok(RequestModel::Seed)
    } else if operation == "drop"@ {
        Ok(RequestModel::Drop)
    } else if operation == "noop"@ {
        match (target, comment) {
            (None, _) => Err("noop requires target"@),
            (_, None) => Err("noop requires comment"@),
            (Some(target), Some(comment)) => Ok(RequestModel::Noop { target, comment }),
        }
    } else if operation == "restore"@ {
        match (target, comment) {
            (None, _) => Err("restore requires target"@),
            (_, None) => Err("restore requires comment"@),
            (Some(target), Some(comment)) => Ok(RequestModel::Restore { target, comment }),
        }
    } else {
        Err("Unknown operation: "@ + operation)
    }
}

/// What an operation of this name asks for, or why it is refused.
pub fn parse_request(operation: &str, target: Option<String>, comment: Option<String>) -> (r:
    Result<Request, String>)
    ensures
        (match r {
            Ok(request) => Ok(request.deep_view()),
            Err(message) => Err(message@),
        }) == request_of(operation@, target.deep_view(), comment.deep_view()),
{
    if text::same(operation, "migrate") {
        return Ok(Request::Migrate);
    }
    if text::same(operation, "rollback") {
        return Ok(Request::Rollback { down_to: target });
    }
    if text::same(operation, "seed") {
        return Ok(Request::Seed);
    }
    if text::same(operation, "drop") {
        return Ok(Request::Drop);
    }
    if text::same(operation, "noop") {
        return match target {
            None => Err("noop requires target".to_string()),
            Some(target) => match comment {
                None => Err("noop requires comment".to_string()),
                Some(comment) => Ok(Request::Noop { target, comment }),
            },
        };
    }
    if text::same(operation, "restore") {
        return match target {
            None => Err("restore requires target".to_string()),
            Some(target) => match comment {
                None => Err("restore requires comment".to_string()),
                Some(comment) => Ok(Request::Restore { target, comment }),
            },
        };
    }
    Err(String::from_str("Unknown operation: ").concat(operation))
}

/// What is done about an event. Whether the project is registered is looked at
/// before the operation.
pub open spec fn decision(
    event: MigrationEvent,
    projects: Map<Seq<char>, Seq<char>>,
) -> DecisionModel {
    match event {
        MigrationEvent::Uploaded { key } => match uploaded_to(key@) {
            None => DecisionModel::Ignore,
            Some(project) => if projects.contains_key(project) {
                DecisionModel::Run {
                    project,
                    db: projects[project],
                    request: RequestModel::Migrate,
                }
            } else {
                DecisionModel::Refuse(not_registered(project))
            },
        },
        MigrationEvent::Manual { operation, project, target, comment } => if projects.contains_key(
            project@,
        ) {
            match request_of(operation@, target.deep_view(), comment.deep_view()) {
                Ok(request) => DecisionModel::Run {
                    project: project@,
                    db: projects[project@],
                    request,
                },
                Err(message) => DecisionModel::Refuse(message),
            }
        } else {
            DecisionModel::Refuse(not_registered(project@))
        },
    }
}

/// Decides what is done about an event. `projects` holds the database of each
/// registered project.
pub fn decide(event: MigrationEvent, projects: &TextMap) -> (r: Decision)
    ensures
        r.deep_view() == decision(event, projects@),
{
    match event {
        MigrationEvent::Uploaded { key } => match uploaded_project(key.as_str()) {
            None => Decision::Ignore,
            Some(project) => match require_project(project.as_str(), projects) {
                Ok(config) => Decision::Run {
                    project,
                    db: config.db_name,
                    request: Request::Migrate,
                },
                Err(message) => Decision::Refuse(message),
            },
        },
        MigrationEvent::Manual { operation, project, target, comment } => match require_project(
            project.as_str(),
            projects,
        ) {
            Ok(config) => match parse_request(operation.as_str(), target, comment) {
                Ok(request) => Decision::Run { project, db: config.db_name, request },
                Err(message) => Decision::Refuse(message),
            },
            Err(message) => Decision::Refuse(message),
        },
    }
}

/// An uploaded file starts a run of migrations only where it is a migration:
/// files under `rollback` and `seed` start none.
pub proof fn only_migrations_start_runs(
    key: String,
    project: Seq<char>,
    dir: Seq<char>,
    name: Seq<char>,
    projects: Map<Seq<char>, Seq<char>>,
)
    requires
        dir == "rollback"@ || dir == "seed"@,
        key@ == "migrations/"@ + project + "/"@ + dir + "/"@ + name,
        !project.contains('/'),
    ensures
        decision(MigrationEvent::Uploaded { key }, projects) == DecisionModel::Ignore,
{
    reveal_strlit("migrations/");
    reveal_strlit("migrations");
    reveal_strlit("/");
    reveal_strlit("rollback");
    reveal_strlit("seed");
    let a = "migrations"@ + seq!['/'];
    assert("migrations/"@ =~= a);
    assert("/"@ =~= seq!['/']);
    text::split_at_front("migrations"@, project + "/"@ + dir + "/"@ + name, '/');
    text::split_at_front(project, dir + "/"@ + name, '/');
    text::split_at_front(dir, name, '/');
    assert(key@ =~= "migrations"@ + seq!['/'] + (project + "/"@ + dir + "/"@ + name));
    assert(project + "/"@ + dir + "/"@ + name =~= project + seq!['/'] + (dir + "/"@ + name));
    assert(dir + "/"@ + name =~= dir + seq!['/'] + name);
    let parts = text::split(key@, '/');
    assert(parts[2] == dir);
}

} // verus!
