//! Carrying out actions on a Komodo server and on services beside it.

use vstd::prelude::*;
use vstd::string::*;

use crate::text;

pub mod call_laws;
pub mod proxy;
pub mod run;
pub mod run_laws;
pub mod url;
pub mod url_laws;

verus! {

/// The Komodo server where none is given.
pub const DEFAULT_URL: &'static str = "http://192.168.66.3:30160";

/// What a value starts with that is the name of a parameter.
pub const SSM_MARK: &'static str = "ssm:";

/// Where the key of the Komodo server is published.
pub const API_KEY: &'static str = "/platform/komodo/api-key";

/// Where the secret of the Komodo server is published.
pub const API_SECRET: &'static str = "/platform/komodo/api-secret";

/// The host of the repository of a stack that none is given for.
pub fn default_git_provider() -> (r: String)
    ensures
        r@ == "github.com"@,
{
    "github.com".to_string()
}

/// Something that is asked of the proxy.
#[verifier::ext_equal]
pub enum KomodoAction<T = String, P = Vec<(String, String)>, L = Vec<String>> {
    /// Set variables of the server.
    SetVariables { variables: P, secret: bool },
    /// Set the environment of a stack.
    SetEnvironment { stack: T, variables: P },
    /// Call a service on the network.
    HttpCall { url: T, method: T, headers: P, form: P },
    /// Call the server, with a body in JSON.
    Api { method: T, path: T, body: Option<T> },
    /// List the servers.
    ListServers,
    /// Create a stack that is kept in a repository.
    CreateStack { name: T, server: T, repo: T, branch: T, file_paths: L, git_provider: T },
    /// Deploy a stack.
    DeployStack { stack: T },
}

/// What a [`KomodoAction`] says.
pub type ActionModel = KomodoAction<
    Seq<char>,
    Seq<(Seq<char>, Seq<char>)>,
    Seq<Seq<char>>,
>;

impl DeepView for KomodoAction {
    type V = ActionModel;

    open spec fn deep_view(&self) -> ActionModel {
        match *self {
            KomodoAction::SetVariables { variables, secret } => KomodoAction::SetVariables {
                variables: variables.deep_view(),
                secret,
            },
            KomodoAction::SetEnvironment { stack, variables } => KomodoAction::SetEnvironment {
                stack: stack@,
                variables: variables.deep_view(),
            },
            KomodoAction::HttpCall { url, method, headers, form } => KomodoAction::HttpCall {
                url: url@,
                method: method@,
                headers: headers.deep_view(),
                form: form.deep_view(),
            },
            KomodoAction::Api { method, path, body } => KomodoAction::Api {
                method: method@,
                path: path@,
                body: body.deep_view(),
            },
            KomodoAction::ListServers => KomodoAction::ListServers,
            KomodoAction::CreateStack { name, server, repo, branch, file_paths, git_provider } =>
            KomodoAction::CreateStack {
                name: name@,
                server: server@,
                repo: repo@,
                branch: branch@,
                file_paths: file_paths.deep_view(),
                git_provider: git_provider@,
            },
            KomodoAction::DeployStack { stack } => KomodoAction::DeployStack { stack: stack@ },
        }
    }
}

// ---------------------------------------------------------------------------
// Methods and answers
// ---------------------------------------------------------------------------

/// How a server is called.
#[derive(Clone, Copy, PartialEq, Eq, Structural)]
pub enum Method {
    Get,
    Post,
    Put,
    Patch,
    Delete,
}

/// What std makes of a text in upper case.
pub uninterp spec fn uppercase(s: Seq<char>) -> Seq<char>;

/// `str::to_uppercase` of std: the text in upper case. The result depends on
/// the text alone.
#[verifier::external_body]
fn upper(s: &str) -> (r: String)
    ensures
        r@ == uppercase(s@),
{
    s.to_uppercase()
}

/// The method of a name in upper case.
pub open spec fn method_named(name: Seq<char>) -> Option<Method> {
    if name == "GET"@ {
        Some(Method::Get)
    } else if name == "POST"@ {
        Some(Method::Post)
    } else if name == "PUT"@ {
        Some(Method::Put)
    } else if name == "PATCH"@ {
        Some(Method::Patch)
    } else if name == "DELETE"@ {
        Some(Method::Delete)
    } else {
        None
    }
}

/// The method of a name in upper case.
pub fn upper_method(name: &str) -> (r: Option<Method>)
    ensures
        r == method_named(name@),
{
    if text::same(name, "GET") {
        Some(Method::Get)
    } else if text::same(name, "POST") {
        Some(Method::Post)
    } else if text::same(name, "PUT") {
        Some(Method::Put)
    } else if text::same(name, "PATCH") {
        Some(Method::Patch)
    } else if text::same(name, "DELETE") {
        Some(Method::Delete)
    } else {
        None
    }
}

/// The method of a name, in whatever case.
pub fn parse_method(name: &str) -> (r: Option<Method>)
    ensures
        r == method_named(uppercase(name@)),
{
    let name = upper(name);
    upper_method(name.as_str())
}

/// The error of a method that is not supported.
pub open spec fn unsupported(method: Seq<char>) -> Seq<char> {
    "Unsupported method: "@ + method
}

/// What `reqwest` shows of a status code.
pub uninterp spec fn status_line(status: u16) -> Seq<char>;

/// What `reqwest::StatusCode` shows of a status code: the number and its usual
/// reason. It takes numbers of three digits.
#[verifier::external_body]
pub(crate) fn show_status(status: u16) -> (r: String)
    requires
        100 <= status <= 999,
    ensures
        r@ == status_line(status),
{
    reqwest::StatusCode::from_u16(status).unwrap().to_string()
}

/// Whether a status code says that all went well.
pub open spec fn is_success(status: u16) -> bool {
    200 <= status < 300
}

/// Whether `serde_json` takes a text for a value in JSON.
pub uninterp spec fn valid_json(s: Seq<char>) -> bool;

/// `serde_json::from_str` for any value: whether it takes the text for one. That
/// depends on the text alone.
#[verifier::external_body]
pub(crate) fn is_json(s: &str) -> (r: bool)
    ensures
        r == valid_json(s@),
{
    serde_json::from_str::<serde_json::Value>(s).is_ok()
}

/// What a server answered.
#[verifier::ext_equal]
pub enum Reply<T = String> {
    /// A value in JSON, as it was sent.
    Json(T),
    /// A text that is none.
    Text(T),
}

impl DeepView for Reply {
    type V = Reply<Seq<char>>;

    open spec fn deep_view(&self) -> Reply<Seq<char>> {
        match *self {
            Reply::Json(text) => Reply::Json(text@),
            Reply::Text(text) => Reply::Text(text@),
        }
    }
}

/// What a server answered with a text, given whether that is a value in JSON.
pub open spec fn reply_of(text: Seq<char>, json: bool) -> Reply<Seq<char>> {
    if json {
        Reply::Json(text)
    } else {
        Reply::Text(text)
    }
}

/// What a server answered with a text, given whether that is a value in JSON.
pub fn reply_as(text: String, json: bool) -> (r: Reply)
    ensures
        r.deep_view() == reply_of(text@, json),
{
    if json {
        Reply::Json(text)
    } else {
        Reply::Text(text)
    }
}

/// What the Komodo server answered, given what is shown of the status: an error
/// unless all went well.
pub open spec fn answer_of(status: u16, shown: Seq<char>, text: Seq<char>, json: bool) -> Result<
    Reply<Seq<char>>,
    Seq<char>,
> {
    if is_success(status) {
        Ok(reply_of(text, json))
    } else {
        Err("Komodo API "@ + shown + ": "@ + text)
    }
}

/// What the Komodo server answered, given what is shown of the status and
/// whether the text is a value in JSON.
pub fn answer_as(status: u16, shown: &str, text: String, json: bool) -> (r: Result<Reply, String>)
    ensures
        (match r {
            Ok(reply) => Ok(reply.deep_view()),
            Err(error) => Err(error@),
        }) == answer_of(status, shown@, text@, json),
{
    if 200 <= status && status < 300 {
        Ok(reply_as(text, json))
    } else {
        Err(String::from_str("Komodo API ").concat(shown).concat(": ").concat(text.as_str()))
    }
}

// ---------------------------------------------------------------------------
// Results
// ---------------------------------------------------------------------------

/// What an action brought back.
#[verifier::ext_equal]
pub enum ResultBody<T = String> {
    /// What the Komodo server answered.
    Reply(Reply<T>),
    /// How many values were set.
    Count(usize),
    /// What a service on the network answered.
    Http { status: u16, body: Reply<T> },
}

/// What came of an action.
#[verifier::ext_equal]
pub struct ActionResult<T = String> {
    pub action: T,
    pub success: bool,
    pub body: Option<ResultBody<T>>,
    pub error: Option<T>,
}

impl DeepView for ResultBody {
    type V = ResultBody<Seq<char>>;

    open spec fn deep_view(&self) -> ResultBody<Seq<char>> {
        match *self {
            ResultBody::Reply(reply) => ResultBody::Reply(reply.deep_view()),
            ResultBody::Count(n) => ResultBody::Count(n),
            ResultBody::Http { status, body } => ResultBody::Http {
                status,
                body: body.deep_view(),
            },
        }
    }
}

impl DeepView for ActionResult {
    type V = ActionResult<Seq<char>>;

    open spec fn deep_view(&self) -> ActionResult<Seq<char>> {
        ActionResult {
            action: self.action@,
            success: self.success,
            body: self.body.deep_view(),
            error: self.error.deep_view(),
        }
    }
}

/// The result of an action that went well.
pub open spec fn succeeded(action: Seq<char>, body: ResultBody<Seq<char>>) -> ActionResult<
    Seq<char>,
> {
    ActionResult { action, success: true, body: Some(body), error: None }
}

/// The result of an action that did not.
pub open spec fn failed(action: Seq<char>, error: Seq<char>) -> ActionResult<Seq<char>> {
    ActionResult { action, success: false, body: None, error: Some(error) }
}

impl ActionResult {
    /// The result of an action that went well.
    pub fn succeeded(action: String, body: ResultBody) -> (r: ActionResult)
        ensures
            r.deep_view() == succeeded(action@, body.deep_view()),
    {
        ActionResult { action, success: true, body: Some(body), error: None }
    }

    /// The result of an action that did not.
    pub fn failed(action: String, error: String) -> (r: ActionResult)
        ensures
            r.deep_view() == failed(action@, error@),
    {
        ActionResult { action, success: false, body: None, error: Some(error) }
    }
}

/// The result of a call of a service on the network, given what is shown of the
/// status.
pub open spec fn http_result(
    status: u16,
    shown: Seq<char>,
    text: Seq<char>,
    json: bool,
) -> ActionResult<Seq<char>> {
    ActionResult {
        action: "HttpCall"@,
        success: is_success(status),
        body: Some(ResultBody::Http { status, body: reply_of(text, json) }),
        error: if is_success(status) {
            None
        } else {
            Some("HTTP "@ + shown + ": "@ + text)
        },
    }
}

/// The result of a call of a service on the network, given what is shown of the
/// status and whether the text is a value in JSON.
pub fn http_result_as(status: u16, shown: &str, text: String, json: bool) -> (r: ActionResult)
    ensures
        r.deep_view() == http_result(status, shown@, text@, json),
{
    let success: bool = 200 <= status && status < 300;
    let error = if success {
        None
    } else {
        Some(String::from_str("HTTP ").concat(shown).concat(": ").concat(text.as_str()))
    };
    ActionResult {
        action: "HttpCall".to_string(),
        success,
        body: Some(ResultBody::Http { status, body: reply_as(text, json) }),
        error,
    }
}

// ---------------------------------------------------------------------------
// Calls
// ---------------------------------------------------------------------------

/// A value in a body that holds no other.
#[verifier::ext_equal]
pub enum Leaf<T = String, L = Vec<String>> {
    Text(T),
    Flag(bool),
    List(L),
}

/// What a [`Leaf`] says.
pub type LeafModel = Leaf<Seq<char>, Seq<Seq<char>>>;

/// A value in a body.
#[verifier::ext_equal]
pub enum Field<T = String, L = Vec<String>, O = Vec<(String, Leaf)>> {
    Plain(Leaf<T, L>),
    Object(O),
}

/// What a [`Field`] says.
pub type FieldModel = Field<Seq<char>, Seq<Seq<char>>, Seq<(Seq<char>, LeafModel)>>;

/// The body of a call.
#[verifier::ext_equal]
pub enum Body<T = String, O = Vec<(String, Field)>> {
    /// An object with these keys and values.
    Object(O),
    /// A value in JSON, as it was given.
    Raw(T),
}

/// What a [`Body`] says.
pub type BodyModel = Body<Seq<char>, Seq<(Seq<char>, FieldModel)>>;

/// A call of the Komodo server.
#[verifier::ext_equal]
pub struct Call<T = String, P = Vec<(String, String)>, B = Body> {
    pub method: Method,
    pub url: T,
    pub headers: P,
    pub body: Option<B>,
}

/// What a [`Call`] says.
pub type CallModel = Call<Seq<char>, Seq<(Seq<char>, Seq<char>)>, BodyModel>;

impl DeepView for Leaf {
    type V = LeafModel;

    open spec fn deep_view(&self) -> LeafModel {
        match *self {
            Leaf::Text(text) => Leaf::Text(text@),
            Leaf::Flag(flag) => Leaf::Flag(flag),
            Leaf::List(list) => Leaf::List(list.deep_view()),
        }
    }
}

impl DeepView for Field {
    type V = FieldModel;

    open spec fn deep_view(&self) -> FieldModel {
        match *self {
            Field::Plain(leaf) => Field::Plain(leaf.deep_view()),
            Field::Object(fields) => Field::Object(fields.deep_view()),
        }
    }
}

impl DeepView for Body {
    type V = BodyModel;

    open spec fn deep_view(&self) -> BodyModel {
        match *self {
            Body::Object(fields) => Body::Object(fields.deep_view()),
            Body::Raw(text) => Body::Raw(text@),
        }
    }
}

impl DeepView for Call {
    type V = CallModel;

    open spec fn deep_view(&self) -> CallModel {
        Call {
            method: self.method,
            url: self.url@,
            headers: self.headers.deep_view(),
            body: match self.body {
                Some(body) => Some(body.deep_view()),
                None => None,
            },
        }
    }
}

/// How the Komodo server is reached.
#[verifier::ext_equal]
pub struct KomodoClient<T = String> {
    pub base_url: T,
    pub api_key: T,
    pub api_secret: T,
}

impl DeepView for KomodoClient {
    type V = KomodoClient<Seq<char>>;

    open spec fn deep_view(&self) -> KomodoClient<Seq<char>> {
        KomodoClient {
            base_url: self.base_url@,
            api_key: self.api_key@,
            api_secret: self.api_secret@,
        }
    }
}

/// The headers of a call of the Komodo server.
pub open spec fn call_headers(client: KomodoClient<Seq<char>>, has_body: bool) -> Seq<
    (Seq<char>, Seq<char>),
> {
    let keys = seq![("x-api-key"@, client.api_key), ("x-api-secret"@, client.api_secret)];
    if has_body {
        keys.push(("content-type"@, "application/json"@))
    } else {
        keys
    }
}

/// A call of the Komodo server.
pub open spec fn call_of(
    client: KomodoClient<Seq<char>>,
    method: Method,
    path: Seq<char>,
    body: Option<BodyModel>,
) -> CallModel {
    Call {
        method,
        url: client.base_url + path,
        headers: call_headers(client, body is Some),
        body,
    }
}

impl KomodoClient {
    /// A call of the server.
    pub fn request(&self, method: Method, path: &str, body: Option<Body>) -> (r: Call)
        ensures
            r.deep_view() == call_of(
                self.deep_view(),
                method,
                path@,
                match body {
                    Some(body) => Some(body.deep_view()),
                    None => None,
                },
            ),
    {
        let mut headers: Vec<(String, String)> = vec![
            ("x-api-key".to_string(), self.api_key.clone()),
            ("x-api-secret".to_string(), self.api_secret.clone()),
        ];
        let has_body: bool = match &body {
            Some(_) => true,
            None => false,
        };
        if has_body {
            headers.push(("content-type".to_string(), "application/json".to_string()));
        }
        assert(headers.deep_view() =~= call_headers(self.deep_view(), has_body));
        let url = String::from_str(self.base_url.as_str()).concat(path);
        Call { method, url, headers, body }
    }

    /// A call of the server that hands it an object.
    pub fn post(&self, path: &str, fields: Vec<(String, Field)>) -> (r: Call)
        ensures
            r.deep_view() == call_of(
                self.deep_view(),
                Method::Post,
                path@,
                Some(Body::Object(fields.deep_view())),
            ),
    {
        self.request(Method::Post, path, Some(Body::Object(fields)))
    }
}

/// A key with a text.
pub open spec fn text_field(key: Seq<char>, text: Seq<char>) -> (Seq<char>, FieldModel) {
    (key, Field::Plain(Leaf::Text(text)))
}

/// What creates a variable.
pub open spec fn create_variable(name: Seq<char>, value: Seq<char>, secret: bool) -> Seq<
    (Seq<char>, FieldModel),
> {
    seq![
        text_field("name"@, name),
        text_field("value"@, value),
        ("is_secret"@, Field::Plain(Leaf::Flag(secret))),
    ]
}

/// What gives a variable another value.
pub open spec fn update_variable(name: Seq<char>, value: Seq<char>) -> Seq<
    (Seq<char>, FieldModel),
> {
    seq![text_field("name"@, name), text_field("value"@, value)]
}

/// What gives a stack another environment.
pub open spec fn update_stack(stack: Seq<char>, environment: Seq<char>) -> Seq<
    (Seq<char>, FieldModel),
> {
    seq![
        text_field("id"@, stack),
        ("config"@, Field::Object(seq![("environment"@, Leaf::Text(environment))])),
    ]
}

/// What creates a stack.
pub open spec fn create_stack(
    name: Seq<char>,
    server: Seq<char>,
    repo: Seq<char>,
    branch: Seq<char>,
    file_paths: Seq<Seq<char>>,
    git_provider: Seq<char>,
) -> Seq<(Seq<char>, FieldModel)> {
    seq![
        text_field("name"@, name),
        (
            "config"@,
            Field::Object(
                seq![
                    ("server"@, Leaf::Text(server)),
                    ("repo"@, Leaf::Text(repo)),
                    ("branch"@, Leaf::Text(branch)),
                    ("file_paths"@, Leaf::List(file_paths)),
                    ("git_provider"@, Leaf::Text(git_provider)),
                ],
            ),
        ),
    ]
}

fn plain(key: &str, text: &String) -> (r: (String, Field))
    ensures
        r.deep_view() == text_field(key@, text@),
{
    (key.to_string(), Field::Plain(Leaf::Text(text.clone())))
}

fn leaf(key: &str, text: &String) -> (r: (String, Leaf))
    ensures
        r.deep_view() == (key@, LeafModel::Text(text@)),
{
    (key.to_string(), Leaf::Text(text.clone()))
}

/// What creates a variable.
pub fn create_variable_body(name: &String, value: &String, secret: bool) -> (r: Vec<
    (String, Field),
>)
    ensures
        r.deep_view() == create_variable(name@, value@, secret),
{
    let r: Vec<(String, Field)> = vec![
        plain("name", name),
        plain("value", value),
        ("is_secret".to_string(), Field::Plain(Leaf::Flag(secret))),
    ];
    assert(r.deep_view() =~= create_variable(name@, value@, secret));
    r
}

/// What gives a variable another value.
pub fn update_variable_body(name: &String, value: &String) -> (r: Vec<(String, Field)>)
    ensures
        r.deep_view() == update_variable(name@, value@),
{
    let r: Vec<(String, Field)> = vec![plain("name", name), plain("value", value)];
    assert(r.deep_view() =~= update_variable(name@, value@));
    r
}

/// What gives a stack another environment.
pub fn update_stack_body(stack: &String, environment: &String) -> (r: Vec<(String, Field)>)
    ensures
        r.deep_view() == update_stack(stack@, environment@),
{
    let config: Vec<(String, Leaf)> = vec![leaf("environment", environment)];
    assert(config.deep_view() =~= seq![("environment"@, LeafModel::Text(environment@))]);
    let r: Vec<(String, Field)> = vec![
        plain("id", stack),
        ("config".to_string(), Field::Object(config)),
    ];
    assert(r.deep_view() =~= update_stack(stack@, environment@));
    r
}

/// What creates a stack.
pub fn create_stack_body(
    name: &String,
    server: &String,
    repo: &String,
    branch: &String,
    file_paths: &Vec<String>,
    git_provider: &String,
) -> (r: Vec<(String, Field)>)
    ensures
        r.deep_view() == create_stack(
            name@,
            server@,
            repo@,
            branch@,
            file_paths.deep_view(),
            git_provider@,
        ),
{
    let mut paths: Vec<String> = Vec::new();
    let mut i: usize = 0;
    while i < file_paths.len()
        invariant
            i <= file_paths@.len(),
            paths@ == file_paths@.take(i as int),
        decreases file_paths@.len() - i,
    {
        paths.push(file_paths[i].clone());
        assert(paths@ =~= file_paths@.take(i + 1));
        i += 1;
    }
    assert(paths@ =~= file_paths@);
    let config: Vec<(String, Leaf)> = vec![
        leaf("server", server),
        leaf("repo", repo),
        leaf("branch", branch),
        ("file_paths".to_string(), Leaf::List(paths)),
        leaf("git_provider", git_provider),
    ];
    assert(config.deep_view() =~= seq![
        ("server"@, LeafModel::Text(server@)),
        ("repo"@, LeafModel::Text(repo@)),
        ("branch"@, LeafModel::Text(branch@)),
        ("file_paths"@, LeafModel::List(file_paths.deep_view())),
        ("git_provider"@, LeafModel::Text(git_provider@)),
    ]);
    let r: Vec<(String, Field)> = vec![
        plain("name", name),
        ("config".to_string(), Field::Object(config)),
    ];
    assert(r.deep_view() =~= create_stack(
        name@,
        server@,
        repo@,
        branch@,
        file_paths.deep_view(),
        git_provider@,
    ));
    r
}

// ---------------------------------------------------------------------------
// Values
// ---------------------------------------------------------------------------

/// The parameter that a value is the name of, if it is one.
pub open spec fn param_of(value: Seq<char>) -> Option<Seq<char>> {
    if SSM_MARK@.is_prefix_of(value) {
        Some(value.skip(SSM_MARK@.len() as int))
    } else {
        None
    }
}

/// The parameter that a value is the name of, if it is one.
pub fn param_name(value: &str) -> (r: Option<String>)
    ensures
        r.deep_view() == param_of(value@),
{
    text::strip_prefix(value, SSM_MARK)
}

/// What came of reading a parameter.
#[verifier::ext_equal]
pub enum ParamRead<T = String> {
    /// Its value, if it has one.
    Value(Option<T>),
    /// It could not be read, with a message.
    Failed(T),
}

impl DeepView for ParamRead {
    type V = ParamRead<Seq<char>>;

    open spec fn deep_view(&self) -> ParamRead<Seq<char>> {
        match *self {
            ParamRead::Value(value) => ParamRead::Value(value.deep_view()),
            ParamRead::Failed(message) => ParamRead::Failed(message@),
        }
    }
}

/// The value of a parameter that was read, or why there is none.
pub open spec fn read_value(name: Seq<char>, read: ParamRead<Seq<char>>) -> Result<
    Seq<char>,
    Seq<char>,
> {
    match read {
        ParamRead::Value(Some(value)) => Ok(value),
        ParamRead::Value(None) => Err("SSM param "@ + name + " has no value"@),
        ParamRead::Failed(error) => Err("SSM read failed for "@ + name + ": "@ + error),
    }
}

/// The value of a parameter that was read, or why there is none.
pub fn resolve_ssm_value(name: &str, read: ParamRead) -> (r: Result<String, String>)
    ensures
        (match r {
            Ok(value) => Ok(value@),
            Err(error) => Err(error@),
        }) == read_value(name@, read.deep_view()),
{
    match read {
        ParamRead::Value(Some(value)) => Ok(value),
        ParamRead::Value(None) => Err(
            String::from_str("SSM param ").concat(name).concat(" has no value"),
        ),
        ParamRead::Failed(error) => Err(
            String::from_str("SSM read failed for ").concat(name).concat(": ").concat(
                error.as_str(),
            ),
        ),
    }
}

} // verus!
