//! Databases on the TrueNAS server.

use platform_services::ops::sql::Connection;
use platform_services::ops::Action;
use platform_services::text_map::TextMap;
use platform_services::truenas::{
    ensure_database, lookup, not_registered_message, Manage, ManageAction, ManageEvent,
    ManageStep, Response,
};

fn show(action: &ManageAction) -> String {
    match action {
        ManageAction::Read { name } => format!("read {name}"),
        ManageAction::Connect { connection, with } => {
            let which = if *connection == Connection::Admin { "admin" } else { "project" };
            format!("{which} {with}")
        }
        ManageAction::Perform(action) => match action {
            Action::QueryDatabase { db } => format!("database {db}"),
            Action::CreateDatabase { db } => format!("create {db}"),
            Action::QueryRole { role } => format!("role {role}"),
            Action::CreateRole { role, .. } => format!("create-role {role}"),
            Action::PutParam { name, value } => format!("param {name}={value}"),
            Action::PutSecret { name, value } => format!("secret {name}={value}"),
            Action::GrantAll { db, role } => format!("grant {db} {role}"),
            Action::GrantSchema { role, .. } => format!("schema {role}"),
            _ => panic!("an action of a provision"),
        },
    }
}

/// Runs a provision with a fixed password; `fails` names the action that fails.
fn provide(found: bool, fails: &str, blank: bool) -> (Vec<String>, Result<Response, String>) {
    let mut log = vec![];
    let (mut manage, mut step): (Manage, ManageStep) =
        ensure_database("shop", "shop_db", "10.0.0.1", None);
    loop {
        match step {
            ManageStep::Do(action) => {
                let line = show(&action);
                let event = if line == fails {
                    ManageEvent::Failed("boom".to_string())
                } else {
                    match &action {
                        ManageAction::Read { name } => ManageEvent::Value(if blank {
                            None
                        } else {
                            Some(if name.ends_with("user") { "root" } else { "pw" }.to_string())
                        }),
                        ManageAction::Perform(Action::QueryDatabase { .. })
                        | ManageAction::Perform(Action::QueryRole { .. }) => {
                            ManageEvent::Found(found)
                        }
                        _ => ManageEvent::Done,
                    }
                };
                log.push(line);
                let (next, more) = manage.next_with(event, "word".to_string());
                manage = next;
                step = more;
            }
            ManageStep::Finish(response) => return (log, Ok(response)),
            ManageStep::Fail(message) => return (log, Err(message)),
        }
    }
}

#[test]
fn what_is_missing_is_created() {
    let (log, result) = provide(false, "", false);
    let response = result.ok().unwrap();
    assert_eq!((response.project.as_str(), response.db_name.as_str()), ("shop", "shop_db"));
    assert!(response.created);
    assert_eq!(
        log,
        vec![
            "read /platform/truenas/pg-admin-user",
            "read /platform/truenas/pg-admin-password",
            "admin host=10.0.0.1 port=5432 user=root password=pw dbname=postgres",
            "database shop_db",
            "create shop_db",
            "role shop_app",
            "create-role shop_app",
            "param /platform/truenas-db/shop/username=shop_app",
            "secret /platform/truenas-db/shop/password=word",
            "param /platform/truenas-db/shop/database=shop_db",
            "grant shop_db shop_app",
            "read /platform/truenas/pg-admin-user",
            "read /platform/truenas/pg-admin-password",
            "project host=10.0.0.1 port=5432 user=root password=pw dbname=shop_db",
            "schema shop_app",
        ]
    );
}

#[test]
fn what_exists_is_left_alone() {
    let (log, result) = provide(true, "", false);
    assert!(!result.ok().unwrap().created);
    assert!(!log.iter().any(|l| l.starts_with("create") || l.starts_with("secret")));
}

#[test]
fn failures_say_how_far_it_came() {
    let error = |fails: &str| provide(false, fails, false).1.err().unwrap();
    assert_eq!(
        error("read /platform/truenas/pg-admin-user"),
        "Failed to connect to TrueNAS Postgres: Failed to read admin user from SSM: boom"
    );
    assert_eq!(
        error("admin host=10.0.0.1 port=5432 user=root password=pw dbname=postgres"),
        "Failed to connect to TrueNAS Postgres: boom"
    );
    for (fails, message) in [
        ("database shop_db", "Failed to query pg_database: boom"),
        ("create shop_db", "Failed to CREATE DATABASE shop_db: boom"),
        ("role shop_app", "Failed to query pg_roles: boom"),
        ("create-role shop_app", "Failed to CREATE ROLE shop_app: boom"),
        ("param /platform/truenas-db/shop/username=shop_app", "boom"),
        ("grant shop_db shop_app", "Failed to GRANT on database shop_db: boom"),
        (
            "project host=10.0.0.1 port=5432 user=root password=pw dbname=shop_db",
            "Failed to connect to database shop_db: boom",
        ),
        ("schema shop_app", "Failed to set schema grants for shop_app on shop_db: boom"),
    ] {
        assert_eq!(error(fails), format!("ensure_database failed for shop: {message}"));
    }
    assert_eq!(
        provide(false, "", true).1.err().unwrap(),
        "Failed to connect to TrueNAS Postgres: SSM param /platform/truenas/pg-admin-user has no value"
    );
}

#[test]
fn a_new_role_gets_a_random_password() {
    let (mut manage, mut step): (Manage, ManageStep) =
        ensure_database("shop", "shop_db", "h", Some("6000".to_string()));
    let mut words = vec![];
    while let ManageStep::Do(action) = step {
        let event = match &action {
            ManageAction::Read { .. } => ManageEvent::Value(Some("x".to_string())),
            ManageAction::Perform(Action::QueryDatabase { .. })
            | ManageAction::Perform(Action::QueryRole { .. }) => ManageEvent::Found(false),
            _ => ManageEvent::Done,
        };
        match &action {
            ManageAction::Perform(Action::CreateRole { password, .. }) => {
                words.push(password.clone())
            }
            ManageAction::Perform(Action::PutSecret { value, .. }) => words.push(value.clone()),
            _ => {}
        }
        let (next, more) = manage.next(event);
        manage = next;
        step = more;
    }
    assert_eq!(words.len(), 2);
    assert_eq!(words[0], words[1]);
    assert_eq!(words[0].len(), 32);
}

#[test]
fn projects_have_to_be_registered() {
    let mut projects = TextMap::new();
    projects.insert("shop", "shop_db");
    projects.insert("a\"b", "x");
    assert_eq!(lookup("shop", &projects), Ok("shop_db".to_string()));
    assert_eq!(
        lookup("other", &projects),
        Err("Project \"other\" not registered. Registered: [\"shop\", \"a\\\"b\"]".to_string())
    );
    assert_eq!(
        not_registered_message("x", "[]"),
        "Project \"x\" not registered. Registered: []"
    );
}
