//! Actions on a Komodo server.

use std::collections::BTreeMap;

use platform_services::komodo::proxy::{request, ProxyStep};
use platform_services::komodo::run::{start_with, RunAction, RunEvent, RunStep};
use platform_services::komodo::url::{host, refused, refused_as};
use platform_services::komodo::{
    answer_as, default_git_provider, http_result_as, param_name, parse_method, reply_as,
    resolve_ssm_value, upper_method, ActionResult, Body, Field, KomodoAction, KomodoClient, Leaf, Method,
    ParamRead, Reply, ResultBody,
};

fn pairs(list: &[(&str, &str)]) -> Vec<(String, String)> {
    list.iter().map(|(k, v)| (k.to_string(), v.to_string())).collect()
}

fn leaf(value: &Leaf) -> String {
    match value {
        Leaf::Text(text) => format!("{text:?}"),
        Leaf::Flag(flag) => format!("{flag}"),
        Leaf::List(list) => format!("{list:?}"),
    }
}

fn body(value: &Option<Body>) -> String {
    match value {
        None => String::new(),
        Some(Body::Raw(text)) => text.clone(),
        Some(Body::Object(fields)) => {
            let inner: Vec<String> = fields
                .iter()
                .map(|(k, v)| match v {
                    Field::Plain(value) => format!("{k}:{}", leaf(value)),
                    Field::Object(more) => {
                        let parts: Vec<String> =
                            more.iter().map(|(k, v)| format!("{k}:{}", leaf(v))).collect();
                        format!("{k}:{{{}}}", parts.join(","))
                    }
                })
                .collect();
            format!("{{{}}}", inner.join(","))
        }
    }
}

fn name(method: Method) -> &'static str {
    match method {
        Method::Get => "GET",
        Method::Post => "POST",
        Method::Put => "PUT",
        Method::Patch => "PATCH",
        Method::Delete => "DELETE",
    }
}

/// What servers answer to calls, by how a call is shown; any other call is
/// answered with status 200 and the text `"ok"`.
#[derive(Default)]
struct World {
    answers: BTreeMap<String, (u16, String)>,
    params: BTreeMap<String, String>,
    log: Vec<String>,
}

impl World {
    fn new() -> World {
        let mut w = World::default();
        w.params.insert("/platform/komodo/api-key".into(), "key".into());
        w.params.insert("/platform/komodo/api-secret".into(), "secret".into());
        w
    }

    fn answer(&mut self, line: String) -> RunEvent {
        let event = match self.answers.get(&line) {
            Some((0, text)) => RunEvent::Failed(text.clone()),
            Some((status, text)) => RunEvent::Answered { status: *status, text: text.clone() },
            None => RunEvent::Answered { status: 200, text: "\"ok\"".to_string() },
        };
        self.log.push(line);
        event
    }

    fn run(&mut self, actions: Vec<KomodoAction>) -> Result<Vec<ActionResult>, String> {
        let (mut proxy, mut step) = request(Some("http://k".to_string()), actions);
        loop {
            match step {
                ProxyStep::Do(action) => {
                    let event = match action {
                        RunAction::ReadParam { name } => {
                            self.log.push(format!("read {name}"));
                            if name == "/broken" {
                                RunEvent::Param(ParamRead::Failed("down".to_string()))
                            } else {
                                RunEvent::Param(ParamRead::Value(self.params.get(&name).cloned()))
                            }
                        }
                        RunAction::Komodo(call) => {
                            assert_eq!(call.headers[0], ("x-api-key".into(), "key".into()));
                            assert_eq!(call.headers[1], ("x-api-secret".into(), "secret".into()));
                            assert_eq!(call.headers.len() == 3, call.body.is_some());
                            let line =
                                format!("{} {} {}", name(call.method), call.url, body(&call.body));
                            self.answer(line.trim().to_string())
                        }
                        RunAction::Http { method, url, headers, form } => {
                            let line = format!("{} {url} {headers:?} {form:?}", name(method));
                            self.answer(line)
                        }
                    };
                    let (next, more) = proxy.next(event);
                    proxy = next;
                    step = more;
                }
                ProxyStep::Finish(results) => return Ok(results),
                ProxyStep::Fail(message) => return Err(message),
            }
        }
    }
}

fn only(results: Result<Vec<ActionResult>, String>) -> ActionResult {
    let mut results = results.ok().unwrap();
    assert_eq!(results.len(), 1);
    results.remove(0)
}

fn http(url: &str, method: &str) -> KomodoAction {
    KomodoAction::HttpCall {
        url: url.to_string(),
        method: method.to_string(),
        headers: vec![],
        form: vec![],
    }
}

#[test]
fn variables_are_created_or_updated() {
    let mut w = World::new();
    w.params.insert("/p".into(), "found".into());
    w.answers.insert(
        "POST http://k/write/CreateVariable {name:\"B\",value:\"found\",is_secret:true}".into(),
        (500, "exists".into()),
    );
    let result = only(w.run(vec![KomodoAction::SetVariables {
        variables: pairs(&[("A", "plain"), ("B", "ssm:/p")]),
        secret: true,
    }]));
    assert!(result.success);
    assert_eq!(result.action, "SetVariables");
    assert!(matches!(result.body, Some(ResultBody::Count(2))));
    assert_eq!(
        w.log[2..],
        [
            "read /p",
            "POST http://k/write/CreateVariable {name:\"A\",value:\"plain\",is_secret:true}",
            "POST http://k/write/CreateVariable {name:\"B\",value:\"found\",is_secret:true}",
            "POST http://k/write/UpdateVariableValue {name:\"B\",value:\"found\"}",
        ]
    );
}

#[test]
fn a_variable_that_can_be_neither_created_nor_updated() {
    let mut w = World::new();
    w.answers.insert(
        "POST http://k/write/CreateVariable {name:\"A\",value:\"1\",is_secret:false}".into(),
        (409, "there".into()),
    );
    w.answers.insert(
        "POST http://k/write/UpdateVariableValue {name:\"A\",value:\"1\"}".into(),
        (0, "no route".into()),
    );
    let result = only(w.run(vec![KomodoAction::SetVariables {
        variables: pairs(&[("A", "1"), ("B", "2")]),
        secret: false,
    }]));
    assert!(!result.success);
    assert_eq!(
        result.error.as_deref(),
        Some("Create: Komodo API 409 Conflict: there, Update: no route")
    );
    assert!(!w.log.iter().any(|l| l.contains("\"B\"")));
}

#[test]
fn no_variable_is_set_before_every_value_is_known() {
    let mut w = World::new();
    let result = only(w.run(vec![KomodoAction::SetVariables {
        variables: pairs(&[("A", "1"), ("B", "ssm:/missing"), ("C", "ssm:/broken")]),
        secret: false,
    }]));
    assert!(!result.success);
    assert_eq!(result.error.as_deref(), Some("SSM param /missing has no value"));
    assert_eq!(w.log[2..], ["read /missing"]);
}

#[test]
fn no_variables_are_set_at_once() {
    let mut w = World::new();
    let result =
        only(w.run(vec![KomodoAction::SetVariables { variables: vec![], secret: false }]));
    assert!(matches!(result.body, Some(ResultBody::Count(0))));
    assert_eq!(w.log.len(), 2);
}

#[test]
fn the_environment_of_a_stack_is_set() {
    let mut w = World::new();
    w.params.insert("/p".into(), "v w".into());
    let result = only(w.run(vec![KomodoAction::SetEnvironment {
        stack: "web".into(),
        variables: pairs(&[("A", "1"), ("B", "ssm:/p")]),
    }]));
    assert!(matches!(result.body, Some(ResultBody::Count(2))));
    assert_eq!(
        w.log.last().unwrap(),
        "POST http://k/write/UpdateStack {id:\"web\",config:{environment:\"A=1\\nB=v w\"}}"
    );
}

#[test]
fn values_that_cannot_be_read_end_the_action() {
    let mut w = World::new();
    let result = only(w.run(vec![KomodoAction::SetEnvironment {
        stack: "web".into(),
        variables: pairs(&[("A", "ssm:/missing")]),
    }]));
    assert_eq!(result.error.as_deref(), Some("SSM param /missing has no value"));
    let result = only(w.run(vec![KomodoAction::SetVariables {
        variables: pairs(&[("A", "ssm:/broken")]),
        secret: false,
    }]));
    assert_eq!(result.error.as_deref(), Some("SSM read failed for /broken: down"));
}

#[test]
fn stacks_are_created_and_deployed_and_servers_listed() {
    let mut w = World::new();
    let results = w
        .run(vec![
            KomodoAction::ListServers,
            KomodoAction::CreateStack {
                name: "web".into(),
                server: "s1".into(),
                repo: "o/r".into(),
                branch: "main".into(),
                file_paths: vec!["a.yml".into(), "b.yml".into()],
                git_provider: default_git_provider(),
            },
            KomodoAction::DeployStack { stack: "web".into() },
        ])
        .ok()
        .unwrap();
    let names: Vec<&str> = results.iter().map(|r| r.action.as_str()).collect();
    assert_eq!(names, vec!["ListServers", "CreateStack", "DeployStack"]);
    assert!(results.iter().all(|r| r.success));
    assert_eq!(
        w.log[2..],
        [
            "POST http://k/read/ListServers {}",
            "POST http://k/write/CreateStack {name:\"web\",config:{server:\"s1\",repo:\"o/r\",branch:\"main\",file_paths:[\"a.yml\", \"b.yml\"],git_provider:\"github.com\"}}",
            "POST http://k/execute/DeployStack {stack:\"web\"}",
        ]
    );
}

#[test]
fn the_api_is_called_as_asked_for() {
    let mut w = World::new();
    w.answers.insert("PATCH http://k/x {\"a\":1}".into(), (200, "{\"b\": 2}".into()));
    w.answers.insert("GET http://k/y".into(), (200, "plain".into()));
    let results = w
        .run(vec![
            KomodoAction::Api {
                method: "patch".into(),
                path: "/x".into(),
                body: Some("{\"a\":1}".into()),
            },
            KomodoAction::Api { method: "GET".into(), path: "/y".into(), body: None },
            KomodoAction::Api { method: "HEAD".into(), path: "/z".into(), body: None },
        ])
        .ok()
        .unwrap();
    assert_eq!(results[0].action, "patch /x");
    match &results[0].body {
        Some(ResultBody::Reply(Reply::Json(text))) => assert_eq!(text, "{\"b\": 2}"),
        _ => panic!("a value"),
    }
    match &results[1].body {
        Some(ResultBody::Reply(Reply::Text(text))) => assert_eq!(text, "plain"),
        _ => panic!("a text"),
    }
    assert_eq!(results[2].error.as_deref(), Some("Unsupported method: HEAD"));
}

#[test]
fn the_first_failure_is_the_last_action() {
    let mut w = World::new();
    w.answers.insert("POST http://k/execute/DeployStack {stack:\"b\"}".into(), (404, "none".into()));
    let deploy = |s: &str| KomodoAction::DeployStack { stack: s.to_string() };
    let results = w.run(vec![deploy("a"), deploy("b"), deploy("c")]).ok().unwrap();
    assert_eq!(results.len(), 2);
    assert!(results[0].success && !results[1].success);
    assert_eq!(results[1].error.as_deref(), Some("Komodo API 404 Not Found: none"));
    assert!(!w.log.iter().any(|l| l.contains("\"c\"")));
}

#[test]
fn calls_stay_on_the_network() {
    let mut w = World::new();
    let result = only(w.run(vec![http("http://example.com/x", "GET")]));
    assert!(!result.success);
    assert_eq!(
        result.error.as_deref(),
        Some("URL host example.com not in allowed range 192.168.66.0/24")
    );
    assert_eq!(w.log.len(), 2);
    assert_eq!(host("http://192.168.66.3:8080/a:b"), "192.168.66.3");
    assert_eq!(host("192.168.66.3"), "");
    assert_eq!(host("http://"), "");
    assert_eq!(host("a://b://192.168.66.1"), "b");
    for url in [
        "https://192.168.66.9",
        "http://192.168.66.0/",
        "http://192.168.66.255:8080/x?y#z",
        "HTTPS://192.168.66.9/a@b",
        "http://192.168.66.7?q=a://b",
        "http://192.168.66.7#x",
        "http://192.168.66.5\\x",
        "http://192.168.66.1\\@example.com/",
        "http://192.168.66.1:x@192.168.66.5/",
        "http://192.168.66.0x5/",
        "http://192.168.66.5./",
        "http://192.168.66.%35/",
        "http://192.168.66.256/",
        "http://192.168.66.1000000000000000000000/",
        "http://192.168.66.1:port/",
        "ftp://192.168.66.1/",
        "://192.168.66.1/",
    ] {
        assert!(refused(url).is_none(), "{url}");
    }
    for url in [
        "https://192.168.6.9",
        "x://y/192.168.66.1",
        "http://192.168.66.evil.com/x",
        "http://192.168.66.1:x@evil.com/",
        "http://192.168.66.1@evil.com/",
        "http:/evil.com/x://192.168.66.1/",
        "http://192.168.66.1.evil.com/",
        "http://192.168.66./",
        "http://192.168.66.1a/",
        "http://192.168.66.-1/",
        "ftp://example.com://192.168.66.1/",
        "192.168.66.1",
        "",
    ] {
        assert!(refused(url).is_some(), "{url}");
    }
}

#[test]
fn an_address_is_judged_by_the_host_that_is_called() {
    let seen = |scheme: &str, host: Option<&str>| {
        Some((scheme.to_string(), host.map(|h| h.to_string())))
    };
    let odd = "http://192.168.66.1@x/";
    assert!(refused_as(odd, &seen("http", Some("192.168.66.200"))).is_none());
    assert_eq!(
        refused_as(odd, &seen("https", Some("x"))).as_deref(),
        Some("URL host 192.168.66.1@x not in allowed range 192.168.66.0/24")
    );
    assert!(refused_as(odd, &seen("http", Some("192.168.67.1"))).is_some());
    assert!(refused_as(odd, &seen("ws", Some("x"))).is_none());
    assert!(refused_as(odd, &seen("http", None)).is_none());
    assert!(refused_as(odd, &None).is_none());
    assert!(refused_as("http://x/", &seen("http", Some("192.168.66.1"))).is_some());
    assert!(refused_as("http://192.168.66.1/", &seen("http", Some("x"))).is_none());
}

#[test]
fn a_name_that_looks_like_an_address_is_not_called() {
    let mut w = World::new();
    let result = only(w.run(vec![http("http://192.168.66.evil.com/x", "GET")]));
    assert_eq!(result.action, "HttpCall");
    assert!(!result.success);
    assert!(result.body.is_none());
    assert_eq!(
        result.error.as_deref(),
        Some("URL host 192.168.66.evil.com not in allowed range 192.168.66.0/24")
    );
    assert_eq!(w.log, vec!["read /platform/komodo/api-key", "read /platform/komodo/api-secret"]);
}

#[test]
fn services_are_called_with_headers_and_form() {
    let mut w = World::new();
    w.params.insert("/t".into(), "tok".into());
    let url = "http://192.168.66.5/login";
    let line = format!(
        "POST {url} [(\"X\", \"tok\")] Some([(\"u\", \"me\"), (\"p\", \"tok\")])"
    );
    w.answers.insert(line.clone(), (201, "[1]".into()));
    let result = only(w.run(vec![KomodoAction::HttpCall {
        url: url.into(),
        method: "post".into(),
        headers: pairs(&[("X", "ssm:/t")]),
        form: pairs(&[("u", "me"), ("p", "ssm:/t")]),
    }]));
    assert_eq!(w.log.last().unwrap(), &line);
    assert!(result.success);
    match result.body {
        Some(ResultBody::Http { status, body: Reply::Json(text) }) => {
            assert_eq!((status, text.as_str()), (201, "[1]"))
        }
        _ => panic!("an answer"),
    }
}

#[test]
fn a_service_that_refuses_is_reported_with_its_answer() {
    let mut w = World::new();
    let url = "http://192.168.66.5/";
    w.answers.insert(format!("GET {url} [] None"), (503, "busy".into()));
    let result = only(w.run(vec![http(url, "GET")]));
    assert!(!result.success);
    assert_eq!(result.error.as_deref(), Some("HTTP 503 Service Unavailable: busy"));
    assert!(matches!(result.body, Some(ResultBody::Http { status: 503, body: Reply::Text(_) })));
    let result = only(w.run(vec![http(url, "TRACE")]));
    assert_eq!(result.error.as_deref(), Some("Unsupported method: TRACE"));
    w.answers.insert(format!("PUT {url} [] None"), (0, "gone".into()));
    let result = only(w.run(vec![http(url, "PUT")]));
    assert_eq!(result.error.as_deref(), Some("gone"));
    assert!(result.body.is_none());
}

#[test]
fn without_the_keys_nothing_is_done() {
    let mut w = World::default();
    assert_eq!(
        w.run(vec![KomodoAction::ListServers]).err().unwrap(),
        "SSM param /platform/komodo/api-key has no value"
    );
    w.params.insert("/platform/komodo/api-key".into(), "key".into());
    assert_eq!(
        w.run(vec![]).err().unwrap(),
        "SSM param /platform/komodo/api-secret has no value"
    );
}

#[test]
fn methods_are_known_in_every_case() {
    assert!(parse_method("Delete") == Some(Method::Delete));
    assert!(parse_method("pUT") == Some(Method::Put));
    assert!(parse_method("options").is_none());
    assert!(upper_method("get").is_none());
    assert!(upper_method("GET") == Some(Method::Get));
}

#[test]
fn values_in_json_are_told_from_texts() {
    let mut w = World::new();
    let mut ask = |path: &str, status: u16, text: &str| {
        w.answers.insert(format!("GET http://k{path}"), (status, text.to_string()));
        only(w.run(vec![KomodoAction::Api {
            method: "GET".into(),
            path: path.to_string(),
            body: None,
        }]))
    };
    let json = |r: ActionResult| matches!(r.body, Some(ResultBody::Reply(Reply::Json(_))));
    assert!(json(ask("/a", 200, "null")));
    assert!(!json(ask("/b", 200, "{")));
    assert!(!json(ask("/c", 204, "")));
    assert!(json(ask("/d", 299, "1")));
    assert_eq!(
        ask("/e", 300, "1").error.as_deref(),
        Some("Komodo API 300 Multiple Choices: 1")
    );
    assert_eq!(
        ask("/f", 599, "x").error.as_deref(),
        Some("Komodo API 599 <unknown status code>: x")
    );
}

#[test]
fn answers_are_made_of_what_is_shown() {
    assert!(matches!(reply_as("1".to_string(), true), Reply::Json(_)));
    assert!(matches!(reply_as("1".to_string(), false), Reply::Text(_)));
    assert!(answer_as(250, "?", "1".to_string(), true).is_ok());
    assert_eq!(
        answer_as(199, "199 ?", "t".to_string(), true).err().unwrap(),
        "Komodo API 199 ?: t"
    );
    let result = http_result_as(404, "gone", "t".to_string(), false);
    assert!(!result.success);
    assert_eq!(result.error.as_deref(), Some("HTTP gone: t"));
    assert!(http_result_as(200, "", "t".to_string(), false).error.is_none());
}

#[test]
fn an_action_can_be_carried_out_by_hand() {
    let client = KomodoClient {
        base_url: "b".to_string(),
        api_key: "k".to_string(),
        api_secret: "s".to_string(),
    };
    let action = KomodoAction::Api { method: "odd".into(), path: "/p".into(), body: None };
    let (run, step) = start_with(&client, action, Some(Method::Put));
    match step {
        RunStep::Do(RunAction::Komodo(call)) => {
            assert_eq!((name(call.method), call.url.as_str()), ("PUT", "b/p"))
        }
        _ => panic!("a call"),
    }
    let event = RunEvent::Answered { status: 500, text: "t".to_string() };
    match run.next_with(&client, event, "shown", false).1 {
        RunStep::Finish(result) => {
            assert_eq!(result.action, "odd /p");
            assert_eq!(result.error.as_deref(), Some("Komodo API shown: t"));
        }
        _ => panic!("a result"),
    }
}

#[test]
fn names_of_parameters_are_marked() {
    assert_eq!(param_name("ssm:/a"), Some("/a".to_string()));
    assert_eq!(param_name("/a"), None);
    assert_eq!(
        resolve_ssm_value("/a", ParamRead::Value(Some("v".to_string()))),
        Ok("v".to_string())
    );
    assert!(resolve_ssm_value("/a", ParamRead::Value(None)).is_err());
}
