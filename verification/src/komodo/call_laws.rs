//! What is sent for an action, and what is made of the answer.

use vstd::prelude::*;

use super::proxy::{ProxyModel, ProxyPhase, ProxyStep, ProxyStepModel};
use super::run::{
    RunAction, RunActionModel, RunEvent, RunModel, RunPhase, RunStep, RunStepModel,
};
use super::{
    ActionModel, ActionResult, Body, BodyModel, Call, CallModel, Field, FieldModel, KomodoAction,
    KomodoClient, Leaf, LeafModel, Method, ParamRead, Reply, ResultBody, API_KEY, API_SECRET,
    DEFAULT_URL,
};
use crate::komodo;
use crate::komodo::run;
use crate::komodo::url;
use crate::text;

verus! {

// ---------------------------------------------------------------------------
// Words and answers
// ---------------------------------------------------------------------------

/// The five methods are known by their names in upper case, and no other is.
pub proof fn methods_by_name(name: Seq<char>)
    ensures
        komodo::method_named(name) == Some(Method::Get) <==> name == "GET"@,
        komodo::method_named(name) == Some(Method::Post) <==> name == "POST"@,
        komodo::method_named(name) == Some(Method::Put) <==> name == "PUT"@,
        komodo::method_named(name) == Some(Method::Patch) <==> name == "PATCH"@,
        komodo::method_named(name) == Some(Method::Delete) <==> name == "DELETE"@,
        komodo::unsupported(name) == "Unsupported method: "@ + name,
{
    reveal_strlit("GET");
    reveal_strlit("POST");
    reveal_strlit("PUT");
    reveal_strlit("PATCH");
    reveal_strlit("DELETE");
    assert("GET"@[0] == 'G' && "PUT"@[0] == 'P');
    assert("POST"@.len() == 4 && "PATCH"@.len() == 5 && "DELETE"@.len() == 6);
}

/// A value that begins with `ssm:` is the name of a parameter, which follows; any
/// other value is itself. A parameter without a value, or one that cannot be read,
/// is an error that names it.
pub proof fn values_and_parameters(
    name: Seq<char>,
    value: Seq<char>,
    error: Seq<char>,
)
    ensures
        komodo::param_of("ssm:"@ + name) == Some(name),
        !"ssm:"@.is_prefix_of(value) ==> komodo::param_of(value) is None,
        komodo::read_value(name, ParamRead::Value(Some(value))) == Ok::<Seq<char>, Seq<char>>(
            value,
        ),
        komodo::read_value(name, ParamRead::Value(None)) == Err::<Seq<char>, Seq<char>>(
            "SSM param "@ + name + " has no value"@,
        ),
        komodo::read_value(name, ParamRead::Failed(error)) == Err::<Seq<char>, Seq<char>>(
            "SSM read failed for "@ + name + ": "@ + error,
        ),
        API_KEY@ == "/platform/komodo/api-key"@,
        API_SECRET@ == "/platform/komodo/api-secret"@,
        DEFAULT_URL@ == "http://192.168.66.3:30160"@,
{
    let all = "ssm:"@ + name;
    assert("ssm:"@ =~= all.subrange(0, "ssm:"@.len() as int));
    assert(all.skip("ssm:"@.len() as int) =~= name);
}

/// An answer is good from 200 up to 299; any other is an error with the status
/// and the text. A text in JSON is handed on as JSON, any other as a text.
pub proof fn answers_by_status(status: u16, shown: Seq<char>, text: Seq<char>, json: bool)
    ensures
        ({
            let reply = if json {
                Reply::Json(text)
            } else {
                Reply::Text(text)
            };
            let good = 200 <= status <= 299;
            &&& good ==> komodo::answer_of(status, shown, text, json) == Ok::<
                Reply<Seq<char>>,
                Seq<char>,
            >(reply)
            &&& !good ==> komodo::answer_of(status, shown, text, json) == Err::<
                Reply<Seq<char>>,
                Seq<char>,
            >("Komodo API "@ + shown + ": "@ + text)
            &&& komodo::http_result(status, shown, text, json) == (ActionResult::<Seq<char>> {
                action: "HttpCall"@,
                success: good,
                body: Some(ResultBody::Http { status, body: reply }),
                error: if good {
                    None
                } else {
                    Some("HTTP "@ + shown + ": "@ + text)
                },
            })
        }),
{
}

/// A result says whether the action went well: with what it brought back, or with
/// the error.
pub proof fn results_say_how_it_went(
    action: Seq<char>,
    body: ResultBody<Seq<char>>,
    error: Seq<char>,
)
    ensures
        komodo::succeeded(action, body) == (ActionResult::<Seq<char>> {
            action,
            success: true,
            body: Some(body),
            error: None,
        }),
        komodo::failed(action, error) == (ActionResult::<Seq<char>> {
            action,
            success: false,
            body: None,
            error: Some(error),
        }),
{
}

// ---------------------------------------------------------------------------
// Calls
// ---------------------------------------------------------------------------

/// A call of the Komodo server goes to the path on it, with its key and its
/// secret, and with the kind of the body where there is one.
pub proof fn calls_carry_key_and_secret(
    client: KomodoClient<Seq<char>>,
    method: Method,
    path: Seq<char>,
    body: BodyModel,
)
    ensures
        komodo::call_of(client, method, path, None) == (CallModel {
            method,
            url: client.base_url + path,
            headers: seq![
                ("x-api-key"@, client.api_key),
                ("x-api-secret"@, client.api_secret),
            ],
            body: None,
        }),
        komodo::call_of(client, method, path, Some(body)) == (CallModel {
            method,
            url: client.base_url + path,
            headers: seq![
                ("x-api-key"@, client.api_key),
                ("x-api-secret"@, client.api_secret),
                ("content-type"@, "application/json"@),
            ],
            body: Some(body),
        }),
{
    assert(komodo::call_headers(client, true) =~= seq![
        ("x-api-key"@, client.api_key),
        ("x-api-secret"@, client.api_secret),
        ("content-type"@, "application/json"@),
    ]);
}

/// What is handed to the server says everything under its own key.
pub proof fn bodies_say_everything(
    name: Seq<char>,
    value: Seq<char>,
    secret: bool,
    server: Seq<char>,
    repo: Seq<char>,
    branch: Seq<char>,
    file_paths: Seq<Seq<char>>,
    git_provider: Seq<char>,
)
    ensures
        komodo::create_variable(name, value, secret) == seq![
            ("name"@, FieldModel::Plain(Leaf::Text(name))),
            ("value"@, FieldModel::Plain(Leaf::Text(value))),
            ("is_secret"@, FieldModel::Plain(Leaf::Flag(secret))),
        ],
        komodo::update_variable(name, value) == seq![
            ("name"@, FieldModel::Plain(Leaf::Text(name))),
            ("value"@, FieldModel::Plain(Leaf::Text(value))),
        ],
        komodo::update_stack(name, value) == seq![
            ("id"@, FieldModel::Plain(Leaf::Text(name))),
            ("config"@, FieldModel::Object(seq![("environment"@, LeafModel::Text(value))])),
        ],
        komodo::create_stack(name, server, repo, branch, file_paths, git_provider) == seq![
            ("name"@, FieldModel::Plain(Leaf::Text(name))),
            (
                "config"@,
                FieldModel::Object(
                    seq![
                        ("server"@, LeafModel::Text(server)),
                        ("repo"@, LeafModel::Text(repo)),
                        ("branch"@, LeafModel::Text(branch)),
                        ("file_paths"@, LeafModel::List(file_paths)),
                        ("git_provider"@, LeafModel::Text(git_provider)),
                    ],
                ),
            ),
        ],
{
}

/// A call of the Komodo server by POST, with an object.
pub open spec fn posted(
    client: KomodoClient<Seq<char>>,
    path: Seq<char>,
    fields: Seq<(Seq<char>, FieldModel)>,
) -> RunActionModel {
    RunAction::Komodo(
        CallModel {
            method: Method::Post,
            url: client.base_url + path,
            headers: seq![
                ("x-api-key"@, client.api_key),
                ("x-api-secret"@, client.api_secret),
                ("content-type"@, "application/json"@),
            ],
            body: Some(Body::Object(fields)),
        },
    )
}

proof fn post_is_posted(
    client: KomodoClient<Seq<char>>,
    path: Seq<char>,
    fields: Seq<(Seq<char>, FieldModel)>,
)
    ensures
        run::post_of(client, path, fields) == posted(client, path, fields),
{
    calls_carry_key_and_secret(client, Method::Post, path, Body::Object(fields));
}

/// What an action whose values are known sends, and under which name it is
/// reported: an environment is one line for each pair, the name and the value
/// with an equals sign between them; a call of a service has the values of its
/// headers as headers and those of its form as the form, which it has only where
/// there are any; a call of the server has the method, the path and the body that
/// were given.
pub proof fn actions_are_carried_out(client: KomodoClient<Seq<char>>, m: RunModel)
    ensures
        ({
            let (next, step) = m.carry_out(client);
            let calls = |action: RunActionModel|
                step == RunStepModel::Do(action) && next.phase is Calling && next.action == m.action
                    && next.resolved == m.resolved;
            let fails = |error: Seq<char>|
                step == RunStepModel::Finish(
                    ActionResult {
                        action: run::label_of(m.action),
                        success: false,
                        body: None,
                        error: Some(error),
                    },
                );
            match m.action {
                KomodoAction::SetVariables { variables, secret } => {
                    &&& run::pairs_of(m.action) == variables
                    &&& run::label_of(m.action) == "SetVariables"@
                    &&& m.resolved.len() > 0 ==> step == RunStepModel::Do(
                        posted(
                            client,
                            "/write/CreateVariable"@,
                            seq![
                                ("name"@, FieldModel::Plain(Leaf::Text(m.resolved[0].0))),
                                ("value"@, FieldModel::Plain(Leaf::Text(m.resolved[0].1))),
                                ("is_secret"@, FieldModel::Plain(Leaf::Flag(secret))),
                            ],
                        ),
                    )
                },
                KomodoAction::SetEnvironment { stack, variables } => {
                    &&& run::pairs_of(m.action) == variables
                    &&& run::label_of(m.action) == "SetEnvironment"@
                    &&& calls(
                        posted(
                            client,
                            "/write/UpdateStack"@,
                            seq![
                                ("id"@, FieldModel::Plain(Leaf::Text(stack))),
                                (
                                    "config"@,
                                    FieldModel::Object(
                                        seq![
                                            (
                                                "environment"@,
                                                LeafModel::Text(
                                                    text::join(
                                                        m.resolved.map_values(
                                                            |pair: (Seq<char>, Seq<char>)|
                                                                pair.0 + "="@ + pair.1,
                                                        ),
                                                        "\n"@,
                                                    ),
                                                ),
                                            ),
                                        ],
                                    ),
                                ),
                            ],
                        ),
                    )
                },
                KomodoAction::HttpCall { url, method, headers, form } => {
                    let n = headers.len() as int;
                    &&& run::pairs_of(m.action) == headers + form
                    &&& run::label_of(m.action) == "HttpCall"@
                    &&& run::method_of(m.action) == komodo::method_named(komodo::uppercase(method))
                    &&& m.method is None ==> fails("Unsupported method: "@ + method)
                    &&& m.method is Some && m.resolved.len() == headers.len() + form.len() ==> calls(
                        RunAction::Http {
                            method: m.method->0,
                            url,
                            headers: m.resolved.take(n),
                            form: if form.len() > 0 {
                                Some(m.resolved.skip(n))
                            } else {
                                None
                            },
                        },
                    )
                },
                KomodoAction::Api { method, path, body } => {
                    &&& run::pairs_of(m.action).len() == 0
                    &&& run::label_of(m.action) == method + " "@ + path
                    &&& run::method_of(m.action) == komodo::method_named(komodo::uppercase(method))
                    &&& m.method is None ==> fails("Unsupported method: "@ + method)
                    &&& m.method is Some && body is None ==> calls(
                        RunAction::Komodo(komodo::call_of(client, m.method->0, path, None)),
                    )
                    &&& m.method is Some && body is Some ==> calls(
                        RunAction::Komodo(
                            komodo::call_of(
                                client,
                                m.method->0,
                                path,
                                Some(Body::Raw(body->0)),
                            ),
                        ),
                    )
                },
                KomodoAction::ListServers => {
                    &&& run::pairs_of(m.action).len() == 0
                    &&& run::label_of(m.action) == "ListServers"@
                    &&& calls(posted(client, "/read/ListServers"@, Seq::empty()))
                },
                KomodoAction::CreateStack { name, server, repo, branch, file_paths, git_provider } =>
                {
                    &&& run::pairs_of(m.action).len() == 0
                    &&& run::label_of(m.action) == "CreateStack"@
                    &&& calls(
                        posted(
                            client,
                            "/write/CreateStack"@,
                            seq![
                                ("name"@, FieldModel::Plain(Leaf::Text(name))),
                                (
                                    "config"@,
                                    FieldModel::Object(
                                        seq![
                                            ("server"@, LeafModel::Text(server)),
                                            ("repo"@, LeafModel::Text(repo)),
                                            ("branch"@, LeafModel::Text(branch)),
                                            ("file_paths"@, LeafModel::List(file_paths)),
                                            ("git_provider"@, LeafModel::Text(git_provider)),
                                        ],
                                    ),
                                ),
                            ],
                        ),
                    )
                },
                KomodoAction::DeployStack { stack } => {
                    &&& run::pairs_of(m.action).len() == 0
                    &&& run::label_of(m.action) == "DeployStack"@
                    &&& calls(
                        posted(
                            client,
                            "/execute/DeployStack"@,
                            seq![("stack"@, FieldModel::Plain(Leaf::Text(stack)))],
                        ),
                    )
                },
            }
        }),
{
    match m.action {
        KomodoAction::SetVariables { secret, .. } => {
            if m.resolved.len() > 0 {
                post_is_posted(
                    client,
                    "/write/CreateVariable"@,
                    komodo::create_variable(m.resolved[0].0, m.resolved[0].1, secret),
                );
            }
        },
        KomodoAction::SetEnvironment { stack, .. } => {
            assert(run::env_lines(m.resolved) =~= m.resolved.map_values(
                |pair: (Seq<char>, Seq<char>)| pair.0 + "="@ + pair.1,
            ));
            post_is_posted(
                client,
                "/write/UpdateStack"@,
                komodo::update_stack(stack, text::join(run::env_lines(m.resolved), "\n"@)),
            );
        },
        KomodoAction::ListServers => {
            post_is_posted(client, "/read/ListServers"@, Seq::empty());
        },
        KomodoAction::CreateStack { name, server, repo, branch, file_paths, git_provider } => {
            post_is_posted(
                client,
                "/write/CreateStack"@,
                komodo::create_stack(name, server, repo, branch, file_paths, git_provider),
            );
        },
        KomodoAction::DeployStack { stack } => {
            post_is_posted(
                client,
                "/execute/DeployStack"@,
                seq![komodo::text_field("stack"@, stack)],
            );
        },
        _ => {},
    }
}

/// A variable is updated with its own name and value where it could not be
/// created, and the next one is created with its own; behind the last one the
/// number of variables is reported.
pub proof fn variables_are_set_one_by_one(
    client: KomodoClient<Seq<char>>,
    m: RunModel,
    index: usize,
    variables: Seq<(Seq<char>, Seq<char>)>,
    secret: bool,
    error: Seq<char>,
)
    requires
        m.action == (ActionModel::SetVariables { variables, secret }),
        m.resolved.len() <= usize::MAX,
        index < m.resolved.len(),
    ensures
        ({
            let pair = m.resolved[index as int];
            let creating = RunModel { phase: RunPhase::Creating { index }, ..m };
            let r = creating.next(client, RunEvent::Failed(error));
            let next = m.set_variable(client, (index + 1) as usize);
            &&& r.1 == RunStepModel::Do(
                posted(
                    client,
                    "/write/UpdateVariableValue"@,
                    seq![
                        ("name"@, FieldModel::Plain(Leaf::Text(pair.0))),
                        ("value"@, FieldModel::Plain(Leaf::Text(pair.1))),
                    ],
                ),
            )
            &&& index + 1 < m.resolved.len() ==> next.1 == RunStepModel::Do(
                posted(
                    client,
                    "/write/CreateVariable"@,
                    seq![
                        ("name"@, FieldModel::Plain(Leaf::Text(m.resolved[index + 1].0))),
                        ("value"@, FieldModel::Plain(Leaf::Text(m.resolved[index + 1].1))),
                        ("is_secret"@, FieldModel::Plain(Leaf::Flag(secret))),
                    ],
                ),
            )
            &&& index + 1 == m.resolved.len() ==> next.1 == RunStepModel::Finish(
                ActionResult {
                    action: "SetVariables"@,
                    success: true,
                    body: Some(ResultBody::Count(m.resolved.len() as usize)),
                    error: None,
                },
            )
        }),
{
    let pair = m.resolved[index as int];
    post_is_posted(
        client,
        "/write/UpdateVariableValue"@,
        komodo::update_variable(pair.0, pair.1),
    );
    if index + 1 < m.resolved.len() {
        let after = m.resolved[index + 1];
        post_is_posted(
            client,
            "/write/CreateVariable"@,
            komodo::create_variable(after.0, after.1, secret),
        );
    }
}

/// An action begins with nothing known. A call of a service outside the network
/// ends at once with the error; everything else goes on with the values.
pub proof fn actions_begin(client: KomodoClient<Seq<char>>, action: ActionModel)
    ensures
        ({
            let begun = RunModel {
                action,
                method: run::method_of(action),
                resolved: Seq::empty(),
                phase: RunPhase::Ended,
            };
            let r = RunModel::start(client, action);
            &&& action matches KomodoAction::HttpCall { url, .. } ==> if url::allows(
                url,
                url::parsed(url),
            ) {
                r == begun.resolve(client)
            } else {
                r.1 == RunStepModel::Finish(
                    ActionResult {
                        action: "HttpCall"@,
                        success: false,
                        body: None,
                        error: Some(
                            "URL host "@ + url::host_of(url)
                                + " not in allowed range 192.168.66.0/24"@,
                        ),
                    },
                )
            }
            &&& !(action is HttpCall) ==> r == begun.resolve(client)
        }),
{
}

/// The values are made known one after the other: one that does not begin with
/// `ssm:` as it is, any other by reading the parameter that it names, whose value
/// takes its place under the same name. Without a value nothing more is done. When
/// all are known the action is carried out.
pub proof fn values_are_made_known(
    client: KomodoClient<Seq<char>>,
    m: RunModel,
    name: Seq<char>,
    value: Seq<char>,
)
    ensures
        ({
            let pairs = run::pairs_of(m.action);
            let n = m.resolved.len() as int;
            let r = m.resolve(client);
            let read = r.0.next(client, RunEvent::Param(ParamRead::Value(Some(value))));
            let unread = r.0.next(client, RunEvent::Param(ParamRead::Value(None)));
            &&& n >= pairs.len() ==> r == m.carry_out(client)
            &&& n < pairs.len() && !"ssm:"@.is_prefix_of(pairs[n].1) ==> r == (RunModel {
                resolved: m.resolved.push(pairs[n]),
                ..m
            }).resolve(client)
            &&& n < pairs.len() && pairs[n].1 == "ssm:"@ + name ==> {
                &&& r.1 == RunStepModel::Do(RunAction::ReadParam { name })
                &&& read == (RunModel {
                    resolved: m.resolved.push((pairs[n].0, value)),
                    phase: RunPhase::Ended,
                    ..m
                }).resolve(client)
                &&& unread.1 == RunStepModel::Finish(
                    ActionResult {
                        action: run::label_of(m.action),
                        success: false,
                        body: None,
                        error: Some("SSM param "@ + name + " has no value"@),
                    },
                )
            }
        }),
{
    values_and_parameters(name, value, value);
}

/// What an action that is set variable by variable makes of an answer: a good one
/// leads to the next variable. Where a variable could be neither created nor
/// updated, the action ends with both errors.
pub proof fn variables_are_answered(
    client: KomodoClient<Seq<char>>,
    m: RunModel,
    index: usize,
    error: Seq<char>,
    second: Seq<char>,
    status: u16,
    text: Seq<char>,
)
    requires
        m.action is SetVariables,
        200 <= status <= 299,
    ensures
        ({
            let creating = RunModel { phase: RunPhase::Creating { index }, ..m };
            let updating = RunModel { phase: RunPhase::Updating { index, error }, ..m };
            let good = RunEvent::Answered { status, text };
            let index = (index + 1) as usize;
            &&& creating.next(client, good) == creating.set_variable(client, index)
            &&& updating.next(client, good) == updating.set_variable(client, index)
            &&& updating.next(client, RunEvent::Failed(second)).1 == RunStepModel::Finish(
                ActionResult {
                    action: "SetVariables"@,
                    success: false,
                    body: None,
                    error: Some("Create: "@ + error + ", Update: "@ + second),
                },
            )
        }),
{
}

/// What is reported of an answer: that of a service with its status, that of an
/// environment with the number of its lines, and that of the server as it is; an
/// error as such.
pub proof fn answers_are_reported(
    client: KomodoClient<Seq<char>>,
    m: RunModel,
    status: u16,
    text: Seq<char>,
    error: Seq<char>,
)
    requires
        m.phase is Calling,
        !(m.action is SetVariables),
    ensures
        ({
            let shown = komodo::status_line(status);
            let json = komodo::valid_json(text);
            let label = run::label_of(m.action);
            let answer = komodo::answer_of(status, shown, text, json);
            let r = m.next(client, RunEvent::Answered { status, text }).1;
            let failed = |e: Seq<char>|
                RunStepModel::Finish(
                    ActionResult { action: label, success: false, body: None, error: Some(e) },
                );
            let well = |body: ResultBody<Seq<char>>|
                RunStepModel::Finish(
                    ActionResult { action: label, success: true, body: Some(body), error: None },
                );
            &&& m.next(client, RunEvent::Failed(error)).1 == failed(error)
            &&& m.action is HttpCall ==> r == RunStepModel::Finish(
                komodo::http_result(status, shown, text, json),
            )
            &&& !(m.action is HttpCall) && answer is Err ==> r == failed(answer->Err_0)
            &&& m.action is SetEnvironment && answer is Ok ==> r == well(
                ResultBody::Count(m.resolved.len() as usize),
            )
            &&& !(m.action is HttpCall) && !(m.action is SetEnvironment) && answer is Ok ==> r
                == well(ResultBody::Reply(answer->Ok_0))
        }),
{
}

/// A request goes through its actions in their order, each with the key and the
/// secret, and keeps their results in that order. An action that fails is the last
/// one; behind it, and behind the last action, the results are handed out.
pub proof fn requests_go_through_their_actions(
    m: ProxyModel,
    result: ActionResult<Seq<char>>,
    run: RunModel,
    event: RunEvent<Seq<char>>,
)
    ensures
        ({
            let first = RunModel::start(m.client, m.actions[0]);
            let more = m.results.push(result);
            let next = run.next(m.client, event);
            let at = ProxyModel { phase: ProxyPhase::Running(run), ..m };
            &&& m.actions.len() == 0 ==> m.proceed().1 == ProxyStepModel::Finish(m.results)
            &&& m.actions.len() > 0 ==> (first.1 matches RunStepModel::Do(asked) ==> m.proceed()
                == (
                ProxyModel {
                    actions: m.actions.skip(1),
                    phase: ProxyPhase::Running(first.0),
                    ..m
                },
                ProxyStepModel::Do(asked),
            ))
            &&& m.actions.len() > 0 ==> (first.1 matches RunStepModel::Finish(ended)
                ==> m.proceed() == (ProxyModel { actions: m.actions.skip(1), ..m }).finished(ended))
            &&& !result.success || m.actions.len() == 0 ==> m.finished(result).1
                == ProxyStepModel::Finish(more)
            &&& result.success ==> m.finished(result) == (ProxyModel {
                results: more,
                phase: ProxyPhase::Ended,
                ..m
            }).proceed()
            &&& next.1 matches RunStepModel::Do(asked) ==> at.next(event) == (
                ProxyModel { phase: ProxyPhase::Running(next.0), ..m },
                ProxyStepModel::Do(asked),
            )
            &&& next.1 matches RunStepModel::Finish(ended) ==> at.next(event).1 == m.finished(
                ended,
            ).1
        }),
{
    reveal_with_fuel(ProxyModel::proceed, 2);
    reveal_with_fuel(ProxyModel::finished, 2);
}

/// Every run takes whatever can come of what it asked for.
pub proof fn every_answer_is_expected(m: RunModel, event: RunEvent<Seq<char>>)
    ensures
        m.expects(event) <==> match m.phase {
            RunPhase::Ended => false,
            RunPhase::Resolving { .. } => event is Param,
            _ => event is Failed || (event matches RunEvent::Answered { status, .. } && 100
                <= status && status <= 999),
        },
{
}

/// A request reads the key and the secret of the server, each from its own place,
/// and goes on with both; without one of them it fails.
pub proof fn key_and_secret_are_read(
    base_url: Seq<char>,
    actions: Seq<ActionModel>,
    key: Seq<char>,
    secret: Seq<char>,
)
    ensures
        ({
            let m0 = ProxyModel::start(base_url, actions);
            let r1 = m0.next(RunEvent::Param(ParamRead::Value(Some(key))));
            let r2 = r1.0.next(RunEvent::Param(ParamRead::Value(Some(secret))));
            let ready = ProxyModel {
                client: KomodoClient { base_url, api_key: key, api_secret: secret },
                actions,
                results: Seq::empty(),
                phase: ProxyPhase::Ended,
            };
            &&& r1.1 == ProxyStepModel::Do(
                RunAction::ReadParam { name: "/platform/komodo/api-secret"@ },
            )
            &&& r2 == ready.proceed()
            &&& m0.next(RunEvent::Param(ParamRead::Value(None))).1 == ProxyStepModel::Fail(
                "SSM param "@ + "/platform/komodo/api-key"@ + " has no value"@,
            )
            &&& r1.0.next(RunEvent::Param(ParamRead::Value(None))).1 == ProxyStepModel::Fail(
                "SSM param "@ + "/platform/komodo/api-secret"@ + " has no value"@,
            )
        }),
{
}

// ---------------------------------------------------------------------------
// Views
// ---------------------------------------------------------------------------

/// What is asked for is seen as it is.
pub proof fn actions_are_seen_as_they_are(action: KomodoAction, client: KomodoClient)
    ensures
        action matches KomodoAction::SetVariables { variables, secret } ==> action.deep_view()
            == (ActionModel::SetVariables { variables: variables.deep_view(), secret }),
        action matches KomodoAction::SetEnvironment { stack, variables } ==> action.deep_view()
            == (ActionModel::SetEnvironment { stack: stack@, variables: variables.deep_view() }),
        action matches KomodoAction::HttpCall { url, method, headers, form } ==> action.deep_view()
            == (ActionModel::HttpCall {
            url: url@,
            method: method@,
            headers: headers.deep_view(),
            form: form.deep_view(),
        }),
        action matches KomodoAction::Api { method, path, body } ==> action.deep_view()
            == (ActionModel::Api { method: method@, path: path@, body: body.deep_view() }),
        action is ListServers ==> action.deep_view() == ActionModel::ListServers,
        action matches KomodoAction::CreateStack {
            name,
            server,
            repo,
            branch,
            file_paths,
            git_provider,
        } ==> action.deep_view() == (ActionModel::CreateStack {
            name: name@,
            server: server@,
            repo: repo@,
            branch: branch@,
            file_paths: file_paths.deep_view(),
            git_provider: git_provider@,
        }),
        action matches KomodoAction::DeployStack { stack } ==> action.deep_view()
            == (ActionModel::DeployStack { stack: stack@ }),
        client.deep_view() == (KomodoClient::<Seq<char>> {
            base_url: client.base_url@,
            api_key: client.api_key@,
            api_secret: client.api_secret@,
        }),
{
}

/// What is sent is seen as it is.
pub proof fn calls_are_seen_as_they_are(
    action: RunAction,
    call: Call,
    body: Body,
    field: Field,
    leaf: Leaf,
)
    ensures
        action matches RunAction::ReadParam { name } ==> action.deep_view()
            == (RunActionModel::ReadParam { name: name@ }),
        action matches RunAction::Komodo(call) ==> action.deep_view() == RunActionModel::Komodo(
            call.deep_view(),
        ),
        action matches RunAction::Http { method, url, headers, form: None } ==> action.deep_view()
            == (RunActionModel::Http {
            method,
            url: url@,
            headers: headers.deep_view(),
            form: None,
        }),
        action matches RunAction::Http { method, url, headers, form: Some(form) }
            ==> action.deep_view() == (RunActionModel::Http {
            method,
            url: url@,
            headers: headers.deep_view(),
            form: Some(form.deep_view()),
        }),
        call.deep_view().method == call.method,
        call.deep_view().url == call.url@,
        call.deep_view().headers == call.headers.deep_view(),
        call.body is None ==> call.deep_view().body is None,
        call.body matches Some(b) ==> call.deep_view().body == Some(b.deep_view()),
        body matches Body::Object(fields) ==> body.deep_view() == BodyModel::Object(
            fields.deep_view(),
        ),
        body matches Body::Raw(text) ==> body.deep_view() == BodyModel::Raw(text@),
        field matches Field::Plain(leaf) ==> field.deep_view() == FieldModel::Plain(
            leaf.deep_view(),
        ),
        field matches Field::Object(fields) ==> field.deep_view() == FieldModel::Object(
            fields.deep_view(),
        ),
        leaf matches Leaf::Text(text) ==> leaf.deep_view() == LeafModel::Text(text@),
        leaf matches Leaf::Flag(flag) ==> leaf.deep_view() == LeafModel::Flag(flag),
        leaf matches Leaf::List(list) ==> leaf.deep_view() == LeafModel::List(list.deep_view()),
{
}

/// What comes back is seen as it is.
pub proof fn results_are_seen_as_they_are(
    result: ActionResult,
    body: ResultBody,
    reply: Reply,
    event: RunEvent,
    read: ParamRead,
    step: RunStep,
    end: ProxyStep,
)
    ensures
        result.deep_view().action == result.action@,
        result.deep_view().success == result.success,
        result.deep_view().body == result.body.deep_view(),
        result.deep_view().error == result.error.deep_view(),
        body matches ResultBody::Reply(reply) ==> body.deep_view() == ResultBody::<
            Seq<char>,
        >::Reply(reply.deep_view()),
        body matches ResultBody::Count(n) ==> body.deep_view() == ResultBody::<Seq<char>>::Count(n),
        body matches ResultBody::Http { status, body: b } ==> body.deep_view() == (ResultBody::<
            Seq<char>,
        >::Http { status, body: b.deep_view() }),
        reply matches Reply::Json(text) ==> reply.deep_view() == Reply::<Seq<char>>::Json(text@),
        reply matches Reply::Text(text) ==> reply.deep_view() == Reply::<Seq<char>>::Text(text@),
        event matches RunEvent::Param(read) ==> event.deep_view() == RunEvent::<Seq<char>>::Param(
            read.deep_view(),
        ),
        event matches RunEvent::Answered { status, text } ==> event.deep_view() == (RunEvent::<
            Seq<char>,
        >::Answered { status, text: text@ }),
        event matches RunEvent::Failed(message) ==> event.deep_view() == RunEvent::<
            Seq<char>,
        >::Failed(message@),
        read matches ParamRead::Value(value) ==> read.deep_view() == ParamRead::<Seq<char>>::Value(
            value.deep_view(),
        ),
        read matches ParamRead::Failed(error) ==> read.deep_view() == ParamRead::<
            Seq<char>,
        >::Failed(error@),
        step matches RunStep::Do(action) ==> step.deep_view() == RunStepModel::Do(
            action.deep_view(),
        ),
        step matches RunStep::Finish(result) ==> step.deep_view() == RunStepModel::Finish(
            result.deep_view(),
        ),
        end matches ProxyStep::Do(action) ==> end.deep_view() == ProxyStepModel::Do(
            action.deep_view(),
        ),
        end matches ProxyStep::Finish(results) ==> end.deep_view() == ProxyStepModel::Finish(
            results.deep_view(),
        ),
        end matches ProxyStep::Fail(message) ==> end.deep_view() == ProxyStepModel::Fail(message@),
{
}

} // verus!
