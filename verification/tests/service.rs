//! Events, statements, connections and dumps of the migration service.

use platform_services::ops::connect::{
    connection_string, encrypted_connection_string, Endpoint,
};
use platform_services::ops::dump::clean;
use platform_services::ops::entry::{
    decide, parse_request, require_project, uploaded_project, Decision, MigrationEvent,
};
use platform_services::ops::provision::{app_param_name, reader_param_name};
use platform_services::ops::session::Request;
use platform_services::ops::sql::{statement, Connection, Mode, Statement, Value};
use platform_services::ops::{Action, AuditEntry, Indent, Response};
use platform_services::text_map::TextMap;

fn projects() -> TextMap {
    let mut map = TextMap::new();
    map.insert("shop", "shop_db");
    map
}

fn manual(operation: &str, project: &str, target: Option<&str>, comment: Option<&str>) -> MigrationEvent {
    MigrationEvent::Manual {
        operation: operation.to_string(),
        project: project.to_string(),
        target: target.map(|t| t.to_string()),
        comment: comment.map(|c| c.to_string()),
    }
}

fn show(decision: Decision) -> String {
    match decision {
        Decision::Ignore => "ignored".to_string(),
        Decision::Refuse(message) => message,
        Decision::Run { project, db, request } => {
            let what = match request {
                Request::Migrate => "migrate".to_string(),
                Request::Rollback { down_to } => format!("rollback {down_to:?}"),
                Request::Seed => "seed".to_string(),
                Request::Drop => "drop".to_string(),
                Request::Noop { target, comment } => format!("noop {target} {comment}"),
                Request::Restore { target, comment } => format!("restore {target} {comment}"),
            };
            format!("{project} {db} {what}")
        }
    }
}

fn uploaded(key: &str) -> String {
    show(decide(MigrationEvent::Uploaded { key: key.to_string() }, &projects()))
}

#[test]
fn uploads_start_migrations() {
    assert_eq!(uploaded("migrations/shop/001.sql"), "shop shop_db migrate");
    assert_eq!(uploaded("migrations/shop/sub/001.sql"), "shop shop_db migrate");
    assert_eq!(uploaded("migrations/other/001.sql"), "Project \"other\" is not registered");
    for key in [
        "migrations/shop",
        "dumps/shop/001.sql",
        "migrations/shop/rollback/001.sql",
        "migrations/shop/seed/001.sql",
        "migrations/shop/seed",
        "",
    ] {
        assert_eq!(uploaded(key), "ignored");
    }
    assert_eq!(uploaded_project("migrations/a/b"), Some("a".to_string()));
    assert_eq!(uploaded_project("migrations/a"), None);
}

#[test]
fn operations_are_asked_for_by_name() {
    let of = |o: &str, t: Option<&str>, c: Option<&str>| {
        show(decide(manual(o, "shop", t, c), &projects()))
    };
    assert_eq!(of("migrate", None, None), "shop shop_db migrate");
    assert_eq!(of("rollback", None, None), "shop shop_db rollback None");
    assert_eq!(of("rollback", Some("x"), None), "shop shop_db rollback Some(\"x\")");
    assert_eq!(of("seed", None, None), "shop shop_db seed");
    assert_eq!(of("drop", None, None), "shop shop_db drop");
    assert_eq!(of("noop", Some("f"), Some("c")), "shop shop_db noop f c");
    assert_eq!(of("restore", Some("f"), Some("c")), "shop shop_db restore f c");
    assert_eq!(of("noop", None, None), "noop requires target");
    assert_eq!(of("noop", Some("f"), None), "noop requires comment");
    assert_eq!(of("restore", None, Some("c")), "restore requires target");
    assert_eq!(of("restore", Some("f"), None), "restore requires comment");
    assert_eq!(of("Migrate", None, None), "Unknown operation: Migrate");
    assert!(parse_request("seed", None, None).is_ok());
}

#[test]
fn projects_are_looked_at_before_operations() {
    assert_eq!(
        show(decide(manual("nonsense", "other", None, None), &projects())),
        "Project \"other\" is not registered"
    );
    assert_eq!(require_project("shop", &projects()).unwrap().db_name, "shop_db");
}

fn sql_of(action: Action) -> Statement {
    statement(&action).unwrap()
}

fn texts(values: &Vec<Value>) -> Vec<String> {
    values
        .iter()
        .map(|v| match v {
            Value::Text(Some(t)) => t.clone(),
            Value::Text(None) => "null".to_string(),
            Value::Int(n) => format!("{n:?}"),
            Value::Big(n) => format!("{n}"),
            Value::Bool(b) => format!("{b:?}"),
        })
        .collect()
}

#[test]
fn actions_have_statements() {
    let s = sql_of(Action::Record {
        filename: "f".to_string(),
        checksum: "c".to_string(),
        duration_ms: 5,
    });
    assert!(s.connection == Connection::Project && s.mode == Mode::Execute);
    assert_eq!(
        s.sql,
        "INSERT INTO schema_migrations (filename, checksum, duration_ms) VALUES ($1, $2, $3)"
    );
    assert_eq!(texts(&s.values), vec!["f", "c", "Some(5)"]);
    let s = sql_of(Action::QueryAppliedNames);
    assert!(s.mode == Mode::Query);
    assert_eq!(s.sql, "SELECT filename FROM schema_migrations ORDER BY filename DESC");
    let s = sql_of(Action::AcquireLock { id: 7 });
    assert!(s.connection == Connection::Ops);
    assert_eq!((s.sql.as_str(), texts(&s.values)), ("SELECT pg_advisory_lock($1)", vec!["7".to_string()]));
    let s = sql_of(Action::CreateRole { role: "r".to_string(), password: "p".to_string() });
    assert!(s.connection == Connection::Admin && s.mode == Mode::Batch);
    assert_eq!(s.sql, "CREATE ROLE \"r\" LOGIN PASSWORD 'p'");
    let s = sql_of(Action::DropDatabase { db: "d".to_string() });
    assert_eq!(s.sql, "DROP DATABASE IF EXISTS \"d\"");
    let s = sql_of(Action::CreateDatabase { db: "d".to_string() });
    assert_eq!(s.sql, "CREATE DATABASE \"d\"");
    let s = sql_of(Action::GrantAll { db: "d".to_string(), role: "r".to_string() });
    assert_eq!(s.sql, "GRANT ALL PRIVILEGES ON DATABASE \"d\" TO \"r\"");
    let s = sql_of(Action::GrantMembership { role: "r".to_string() });
    assert_eq!(s.sql, "GRANT \"r\" TO CURRENT_USER");
    assert_eq!(sql_of(Action::Begin).sql, "BEGIN");
    assert_eq!(sql_of(Action::SetSearchPath).sql, "SET search_path TO public");
    assert!(statement(&Action::ConnectOps).is_none());
    assert!(statement(&Action::ReadFile { key: "k".to_string() }).is_none());
}

#[test]
fn grants_are_scripts_of_several_statements() {
    let lines = |sql: &str| -> Vec<String> {
        sql.split('\n').map(|l| l.trim().to_string()).collect()
    };
    let s = sql_of(Action::GrantDatabase {
        db: "d".to_string(),
        role: "r".to_string(),
        reader: "q".to_string(),
        indent: Indent::Narrow,
    });
    assert_eq!(
        lines(&s.sql),
        vec![
            "GRANT ALL PRIVILEGES ON DATABASE \"d\" TO \"r\";",
            "GRANT CONNECT ON DATABASE \"d\" TO \"q\";",
        ]
    );
    let s = sql_of(Action::GrantSchema { role: "r".to_string(), indent: Indent::Wide });
    assert_eq!(
        lines(&s.sql),
        vec![
            "GRANT ALL ON SCHEMA public TO \"r\";",
            "ALTER DEFAULT PRIVILEGES IN SCHEMA public GRANT ALL ON TABLES TO \"r\";",
            "ALTER DEFAULT PRIVILEGES IN SCHEMA public GRANT ALL ON SEQUENCES TO \"r\";",
            "GRANT ALL ON ALL TABLES IN SCHEMA public TO \"r\";",
            "GRANT ALL ON ALL SEQUENCES IN SCHEMA public TO \"r\";",
        ]
    );
    let reader = |membership: bool| {
        lines(
            &sql_of(Action::GrantReader {
                role: "r".to_string(),
                reader: "q".to_string(),
                membership,
            })
            .sql,
        )
    };
    let plain = reader(false);
    assert_eq!(plain.len(), 7);
    assert_eq!(plain[0], "GRANT USAGE ON SCHEMA public TO \"q\";");
    assert_eq!(
        plain[6],
        "ALTER DEFAULT PRIVILEGES FOR ROLE \"r\" IN SCHEMA public GRANT SELECT ON SEQUENCES TO \"q\";"
    );
    let member = reader(true);
    assert_eq!(member[0], "GRANT \"r\" TO CURRENT_USER;");
    assert_eq!(member[1..], plain[..]);
}

#[test]
fn the_lines_of_grants_are_indented() {
    let database = |indent: Indent| {
        sql_of(Action::GrantDatabase {
            db: "d".to_string(),
            role: "r".to_string(),
            reader: "q".to_string(),
            indent,
        })
        .sql
    };
    assert_eq!(
        database(Indent::Narrow),
        "GRANT ALL PRIVILEGES ON DATABASE \"d\" TO \"r\";
         GRANT CONNECT ON DATABASE \"d\" TO \"q\";"
    );
    assert_eq!(
        database(Indent::Wide),
        "GRANT ALL PRIVILEGES ON DATABASE \"d\" TO \"r\";
             GRANT CONNECT ON DATABASE \"d\" TO \"q\";"
    );
    let schema = |indent: Indent| {
        sql_of(Action::GrantSchema { role: "r".to_string(), indent }).sql
    };
    assert_eq!(
        schema(Indent::Narrow),
        "GRANT ALL ON SCHEMA public TO \"r\";
         ALTER DEFAULT PRIVILEGES IN SCHEMA public GRANT ALL ON TABLES TO \"r\";
         ALTER DEFAULT PRIVILEGES IN SCHEMA public GRANT ALL ON SEQUENCES TO \"r\";
         GRANT ALL ON ALL TABLES IN SCHEMA public TO \"r\";
         GRANT ALL ON ALL SEQUENCES IN SCHEMA public TO \"r\";"
    );
    assert_eq!(
        schema(Indent::Wide),
        "GRANT ALL ON SCHEMA public TO \"r\";
             ALTER DEFAULT PRIVILEGES IN SCHEMA public GRANT ALL ON TABLES TO \"r\";
             ALTER DEFAULT PRIVILEGES IN SCHEMA public GRANT ALL ON SEQUENCES TO \"r\";
             GRANT ALL ON ALL TABLES IN SCHEMA public TO \"r\";
             GRANT ALL ON ALL SEQUENCES IN SCHEMA public TO \"r\";"
    );
    let reader = |membership: bool| {
        sql_of(Action::GrantReader {
            role: "r".to_string(),
            reader: "q".to_string(),
            membership,
        })
        .sql
    };
    assert_eq!(
        reader(true),
        "GRANT \"r\" TO CURRENT_USER;
             GRANT USAGE ON SCHEMA public TO \"q\";
             GRANT SELECT ON ALL TABLES IN SCHEMA public TO \"q\";
             GRANT SELECT ON ALL SEQUENCES IN SCHEMA public TO \"q\";
             ALTER DEFAULT PRIVILEGES IN SCHEMA public GRANT SELECT ON TABLES TO \"q\";
             ALTER DEFAULT PRIVILEGES IN SCHEMA public GRANT SELECT ON SEQUENCES TO \"q\";
             ALTER DEFAULT PRIVILEGES FOR ROLE \"r\" IN SCHEMA public GRANT SELECT ON TABLES TO \"q\";
             ALTER DEFAULT PRIVILEGES FOR ROLE \"r\" IN SCHEMA public GRANT SELECT ON SEQUENCES TO \"q\";"
    );
    assert!(reader(false).contains(";\n         GRANT SELECT ON ALL TABLES"));
    assert!(!reader(false).contains("          GRANT"));
}

#[test]
fn audit_lines_have_eight_parameters() {
    let s = sql_of(Action::Audit {
        entry: AuditEntry::failure("migrate", "p", "f", Some("c".to_string()), "e"),
    });
    assert_eq!(texts(&s.values), vec!["p", "migrate", "f", "c", "error", "null", "e", "None"]);
    let s = sql_of(Action::Audit { entry: AuditEntry::success("seed", "p", "f", None, 4) });
    assert_eq!(
        texts(&s.values),
        vec!["p", "seed", "f", "null", "success", "null", "null", "Some(4)"]
    );
}

#[test]
fn dumps_are_made_ready_to_run() {
    let raw = "\\restrict x\nSET a = 1;\r\nSELECT pg_catalog.set_config('search_path', '', false);\n\nCREATE TABLE t (a INT);\n\\unrestrict x\n";
    assert_eq!(
        clean(raw),
        "SET a = 1;\nSELECT pg_catalog.set_config('search_path', 'public', false);\n\nCREATE TABLE t (a INT);"
    );
    assert_eq!(clean(""), "");
    assert_eq!(clean(" \\not a command"), " \\not a command");
}

fn endpoint(port: Option<&str>) -> Endpoint {
    Endpoint {
        host: "h".to_string(),
        port: port.map(|p| p.to_string()),
        user: "u".to_string(),
        password: "p".to_string(),
        db: "d".to_string(),
    }
}

#[test]
fn connections_have_a_default_port() {
    assert_eq!(
        connection_string(&endpoint(None)),
        "host=h port=5432 user=u password=p dbname=d"
    );
    assert_eq!(
        encrypted_connection_string(&endpoint(Some("6000"))),
        "host=h port=6000 user=u password=p dbname=d sslmode=require"
    );
}

#[test]
fn credentials_have_their_places() {
    assert_eq!(app_param_name("shop", "username"), "/platform/db/shop/username");
    assert_eq!(reader_param_name("shop", "password"), "/platform/db/shop/reader/password");
}

#[test]
fn a_response_reports_nothing_by_default() {
    let r = Response::default();
    assert_eq!(r.operation, "");
    assert!(r.applied.is_none() && r.status.is_none());
}
