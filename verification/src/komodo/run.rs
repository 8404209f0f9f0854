//! Carrying out one action.

use vstd::prelude::*;
use vstd::string::*;

use super::url;
use super::{
    answer_as, create_stack_body, create_variable_body, http_result_as, is_json, param_name,
    parse_method, resolve_ssm_value, show_status, update_stack_body, update_variable_body,
    ActionModel, ActionResult, Body, Call, CallModel, Field, KomodoAction, KomodoClient, Leaf,
    Method, ParamRead, Reply, ResultBody,
};
use crate::komodo;
use crate::text;

verus! {

/// Something to be done outside.
#[verifier::ext_equal]
pub enum RunAction<T = String, P = Vec<(String, String)>, C = Call> {
    /// Read a parameter: `Param`.
    ReadParam { name: T },
    /// Call the Komodo server: `Answered`.
    Komodo(C),
    /// Call a service on the network, with a form where there is one:
    /// `Answered`.
    Http { method: Method, url: T, headers: P, form: Option<P> },
}

/// What a [`RunAction`] says.
pub type RunActionModel = RunAction<Seq<char>, Seq<(Seq<char>, Seq<char>)>, CallModel>;

/// What came of an action.
#[verifier::ext_equal]
pub enum RunEvent<T = String> {
    /// A parameter was read, or could not be.
    Param(ParamRead<T>),
    /// A server answered.
    Answered { status: u16, text: T },
    /// A server did not answer, with a message.
    Failed(T),
}

/// How an action goes on.
#[verifier::ext_equal]
pub enum RunStep<A = RunAction, R = ActionResult> {
    /// Do what the action needs and say what came of it.
    Do(A),
    /// The action is over.
    Finish(R),
}

/// What a [`RunStep`] says.
pub type RunStepModel = RunStep<RunActionModel, ActionResult<Seq<char>>>;

/// What an action waits for.
#[verifier::ext_equal]
pub enum RunPhase<T = String> {
    /// The value of the next pair.
    Resolving { name: T },
    /// The creation of the variable at `index`.
    Creating { index: usize },
    /// The update of the variable at `index`, which could not be created.
    Updating { index: usize, error: T },
    /// The answer of a server.
    Calling,
    /// Nothing: the action is over.
    Ended,
}

/// An action under way.
pub struct Run {
    action: KomodoAction,
    method: Option<Method>,
    resolved: Vec<(String, String)>,
    phase: RunPhase,
}

/// What a [`Run`] holds: the action, the method that it names, the pairs whose
/// values are known, and what is waited for.
#[verifier::ext_equal]
pub struct RunModel {
    pub action: ActionModel,
    pub method: Option<Method>,
    pub resolved: Seq<(Seq<char>, Seq<char>)>,
    pub phase: RunPhase<Seq<char>>,
}

impl DeepView for RunAction {
    type V = RunActionModel;

    open spec fn deep_view(&self) -> RunActionModel {
        match *self {
            RunAction::ReadParam { name } => RunAction::ReadParam { name: name@ },
            RunAction::Komodo(call) => RunAction::Komodo(call.deep_view()),
            RunAction::Http { method, url, headers, form } => RunAction::Http {
                method,
                url: url@,
                headers: headers.deep_view(),
                form: match form {
                    Some(form) => Some(form.deep_view()),
                    None => None,
                },
            },
        }
    }
}

impl DeepView for RunEvent {
    type V = RunEvent<Seq<char>>;

    open spec fn deep_view(&self) -> RunEvent<Seq<char>> {
        match *self {
            RunEvent::Param(read) => RunEvent::Param(read.deep_view()),
            RunEvent::Answered { status, text } => RunEvent::Answered { status, text: text@ },
            RunEvent::Failed(message) => RunEvent::Failed(message@),
        }
    }
}

impl DeepView for RunStep {
    type V = RunStepModel;

    open spec fn deep_view(&self) -> RunStepModel {
        match *self {
            RunStep::Do(action) => RunStep::Do(action.deep_view()),
            RunStep::Finish(result) => RunStep::Finish(result.deep_view()),
        }
    }
}

spec fn phase_view(phase: RunPhase) -> RunPhase<Seq<char>> {
    match phase {
        RunPhase::Resolving { name } => RunPhase::Resolving { name: name@ },
        RunPhase::Creating { index } => RunPhase::Creating { index },
        RunPhase::Updating { index, error } => RunPhase::Updating { index, error: error@ },
        RunPhase::Calling => RunPhase::Calling,
        RunPhase::Ended => RunPhase::Ended,
    }
}

impl DeepView for Run {
    type V = RunModel;

    closed spec fn deep_view(&self) -> RunModel {
        RunModel {
            action: self.action.deep_view(),
            method: self.method,
            resolved: self.resolved.deep_view(),
            phase: phase_view(self.phase),
        }
    }
}

/// The pairs of an action whose values may be names of parameters.
pub open spec fn pairs_of(action: ActionModel) -> Seq<(Seq<char>, Seq<char>)> {
    match action {
        KomodoAction::SetVariables { variables, .. } => variables,
        KomodoAction::SetEnvironment { variables, .. } => variables,
        KomodoAction::HttpCall { headers, form, .. } => headers + form,
        _ => Seq::empty(),
    }
}

/// What an action is called in its result.
pub open spec fn label_of(action: ActionModel) -> Seq<char> {
    match action {
        KomodoAction::SetVariables { .. } => "SetVariables"@,
        KomodoAction::SetEnvironment { .. } => "SetEnvironment"@,
        KomodoAction::HttpCall { .. } => "HttpCall"@,
        KomodoAction::Api { method, path, .. } => method + " "@ + path,
        KomodoAction::ListServers => "ListServers"@,
        KomodoAction::CreateStack { .. } => "CreateStack"@,
        KomodoAction::DeployStack { .. } => "DeployStack"@,
    }
}

/// The method that an action names, if it names one.
pub open spec fn method_of(action: ActionModel) -> Option<Method> {
    match action {
        KomodoAction::HttpCall { method, .. } => komodo::method_named(komodo::uppercase(method)),
        KomodoAction::Api { method, .. } => komodo::method_named(komodo::uppercase(method)),
        _ => None,
    }
}

/// What is shown of the status that an event tells of.
pub open spec fn shown_of(event: RunEvent<Seq<char>>) -> Seq<char> {
    match event {
        RunEvent::Answered { status, .. } => komodo::status_line(status),
        _ => Seq::empty(),
    }
}

/// Whether the text that an event tells of is a value in JSON.
pub open spec fn json_of(event: RunEvent<Seq<char>>) -> bool {
    match event {
        RunEvent::Answered { text, .. } => komodo::valid_json(text),
        _ => false,
    }
}

/// The lines of an environment.
pub open spec fn env_lines(pairs: Seq<(Seq<char>, Seq<char>)>) -> Seq<Seq<char>> {
    pairs.map_values(|pair: (Seq<char>, Seq<char>)| pair.0 + "="@ + pair.1)
}

/// What the Komodo server answered, given what is shown of the status and
/// whether the text is a value in JSON.
pub open spec fn answered(event: RunEvent<Seq<char>>, shown: Seq<char>, json: bool) -> Result<
    Reply<Seq<char>>,
    Seq<char>,
> {
    match event {
        RunEvent::Answered { status, text } => komodo::answer_of(status, shown, text, json),
        RunEvent::Failed(error) => Err(error),
        RunEvent::Param(_) => arbitrary(),
    }
}

/// A call that hands the Komodo server an object.
pub open spec fn post_of(
    client: KomodoClient<Seq<char>>,
    path: Seq<char>,
    fields: Seq<(Seq<char>, komodo::FieldModel)>,
) -> RunActionModel {
    RunAction::Komodo(
        komodo::call_of(client, Method::Post, path, Some(Body::Object(fields))),
    )
}

impl RunModel {
    /// The action before anything is known.
    pub open spec fn new(action: ActionModel, method: Option<Method>) -> RunModel {
        RunModel { action, method, resolved: Seq::empty(), phase: RunPhase::Ended }
    }

    /// Ending with a result.
    pub open spec fn finish(self, result: ActionResult<Seq<char>>) -> (RunModel, RunStepModel) {
        (RunModel { phase: RunPhase::Ended, ..self }, RunStep::Finish(result))
    }

    /// Ending with an error.
    pub open spec fn fail(self, error: Seq<char>) -> (RunModel, RunStepModel) {
        self.finish(komodo::failed(label_of(self.action), error))
    }

    /// Doing something and waiting for it.
    pub open spec fn do_next(self, phase: RunPhase<Seq<char>>, action: RunActionModel) -> (
        RunModel,
        RunStepModel,
    ) {
        (RunModel { phase, ..self }, RunStep::Do(action))
    }

    /// The action at its start.
    pub open spec fn start(client: KomodoClient<Seq<char>>, action: ActionModel) -> (
        RunModel,
        RunStepModel,
    ) {
        RunModel::start_with(client, action, method_of(action))
    }

    /// The action at its start, with the method that it names: a call that is not
    /// allowed ends at once.
    pub open spec fn start_with(
        client: KomodoClient<Seq<char>>,
        action: ActionModel,
        method: Option<Method>,
    ) -> (RunModel, RunStepModel) {
        let run = RunModel::new(action, method);
        match action {
            KomodoAction::HttpCall { url, .. } => if url::is_allowed(url) {
                run.resolve(client)
            } else {
                run.fail(url::not_allowed(url))
            },
            _ => run.resolve(client),
        }
    }

    /// Going on with the next pair: a value that is the name of a parameter is
    /// read. When all values are known the action is carried out.
    pub open spec fn resolve(self, client: KomodoClient<Seq<char>>) -> (RunModel, RunStepModel)
        decreases pairs_of(self.action).len() - self.resolved.len(),
    {
        let pairs = pairs_of(self.action);
        let n = self.resolved.len();
        if n < pairs.len() {
            match komodo::param_of(pairs[n as int].1) {
                Some(name) => self.do_next(
                    RunPhase::Resolving { name },
                    RunAction::ReadParam { name },
                ),
                None => RunModel { resolved: self.resolved.push(pairs[n as int]), ..self }.resolve(
                    client,
                ),
            }
        } else {
            self.carry_out(client)
        }
    }

    /// Carrying out an action whose values are known.
    pub open spec fn carry_out(self, client: KomodoClient<Seq<char>>) -> (RunModel, RunStepModel) {
        match self.action {
            KomodoAction::SetVariables { .. } => self.set_variable(client, 0),
            KomodoAction::SetEnvironment { stack, .. } => self.do_next(
                RunPhase::Calling,
                post_of(
                    client,
                    "/write/UpdateStack"@,
                    komodo::update_stack(
                        stack,
                        text::join(env_lines(self.resolved), "\n"@),
                    ),
                ),
            ),
            KomodoAction::HttpCall { url, method, headers, .. } => match self.method {
                Some(m) => {
                    let split = headers.len() as int;
                    self.do_next(
                        RunPhase::Calling,
                        RunAction::Http {
                            method: m,
                            url,
                            headers: self.resolved.take(split),
                            form: if self.resolved.len() > split {
                                Some(self.resolved.skip(split))
                            } else {
                                None
                            },
                        },
                    )
                },
                None => self.fail(komodo::unsupported(method)),
            },
            KomodoAction::Api { method, path, body } => match self.method {
                Some(m) => self.do_next(
                    RunPhase::Calling,
                    RunAction::Komodo(
                        komodo::call_of(
                            client,
                            m,
                            path,
                            match body {
                                Some(text) => Some(Body::Raw(text)),
                                None => None,
                            },
                        ),
                    ),
                ),
                None => self.fail(komodo::unsupported(method)),
            },
            KomodoAction::ListServers => self.do_next(
                RunPhase::Calling,
                post_of(client, "/read/ListServers"@, Seq::empty()),
            ),
            KomodoAction::CreateStack { name, server, repo, branch, file_paths, git_provider } =>
            self.do_next(
                RunPhase::Calling,
                post_of(
                    client,
                    "/write/CreateStack"@,
                    komodo::create_stack(name, server, repo, branch, file_paths, git_provider),
                ),
            ),
            KomodoAction::DeployStack { stack } => self.do_next(
                RunPhase::Calling,
                post_of(
                    client,
                    "/execute/DeployStack"@,
                    seq![komodo::text_field("stack"@, stack)],
                ),
            ),
        }
    }

    /// Going on with the variable at `index`, or ending behind the last one.
    pub open spec fn set_variable(self, client: KomodoClient<Seq<char>>, index: usize) -> (
        RunModel,
        RunStepModel,
    ) {
        if index < self.resolved.len() {
            let (name, value) = self.resolved[index as int];
            self.do_next(
                RunPhase::Creating { index },
                post_of(
                    client,
                    "/write/CreateVariable"@,
                    komodo::create_variable(name, value, self.action->secret),
                ),
            )
        } else {
            self.finish(
                komodo::succeeded(
                    label_of(self.action),
                    ResultBody::Count(self.resolved.len() as usize),
                ),
            )
        }
    }

    /// Whether the event is one that the action waits for.
    pub open spec fn expects(self, event: RunEvent<Seq<char>>) -> bool {
        match self.phase {
            RunPhase::Ended => false,
            RunPhase::Resolving { .. } => event is Param,
            _ => match event {
                RunEvent::Param(_) => false,
                RunEvent::Answered { status, .. } => 100 <= status <= 999,
                RunEvent::Failed(_) => true,
            },
        }
    }

    /// The result of a call.
    pub open spec fn called(
        self,
        event: RunEvent<Seq<char>>,
        shown: Seq<char>,
        json: bool,
    ) -> ActionResult<Seq<char>> {
        let label = label_of(self.action);
        match self.action {
            KomodoAction::HttpCall { .. } => match event {
                RunEvent::Answered { status, text } => komodo::http_result(
                    status,
                    shown,
                    text,
                    json,
                ),
                RunEvent::Failed(error) => komodo::failed(label, error),
                RunEvent::Param(_) => arbitrary(),
            },
            KomodoAction::SetEnvironment { .. } => match answered(event, shown, json) {
                Ok(_) => komodo::succeeded(
                    label,
                    ResultBody::Count(self.resolved.len() as usize),
                ),
                Err(error) => komodo::failed(label, error),
            },
            _ => match answered(event, shown, json) {
                Ok(reply) => komodo::succeeded(label, ResultBody::Reply(reply)),
                Err(error) => komodo::failed(label, error),
            },
        }
    }

    /// How the action goes on after an event that it expects.
    pub open spec fn next(self, client: KomodoClient<Seq<char>>, event: RunEvent<Seq<char>>) -> (
        RunModel,
        RunStepModel,
    ) {
        self.next_with(client, event, shown_of(event), json_of(event))
    }

    /// How the action goes on after an event that it expects, given what is shown
    /// of the status that it tells of and whether the text is a value in JSON.
    pub open spec fn next_with(
        self,
        client: KomodoClient<Seq<char>>,
        event: RunEvent<Seq<char>>,
        shown: Seq<char>,
        json: bool,
    ) -> (RunModel, RunStepModel) {
        match self.phase {
            RunPhase::Resolving { name } => match komodo::read_value(name, event->Param_0) {
                Ok(value) => {
                    let key = pairs_of(self.action)[self.resolved.len() as int].0;
                    RunModel {
                        resolved: self.resolved.push((key, value)),
                        phase: RunPhase::Ended,
                        ..self
                    }.resolve(client)
                },
                Err(error) => self.fail(error),
            },
            RunPhase::Creating { index } => match answered(event, shown, json) {
                Ok(_) => self.set_variable(client, (index + 1) as usize),
                Err(error) => {
                    let (name, value) = self.resolved[index as int];
                    self.do_next(
                        RunPhase::Updating { index, error },
                        post_of(
                            client,
                            "/write/UpdateVariableValue"@,
                            komodo::update_variable(name, value),
                        ),
                    )
                },
            },
            RunPhase::Updating { index, error } => match answered(event, shown, json) {
                Ok(_) => self.set_variable(client, (index + 1) as usize),
                Err(second) => self.fail("Create: "@ + error + ", Update: "@ + second),
            },
            RunPhase::Calling => self.finish(self.called(event, shown, json)),
            RunPhase::Ended => arbitrary(),
        }
    }

    /// What holds of every action: no more values are known than there are
    /// pairs, a pair is at hand where its value is waited for, and a variable
    /// where it is being set.
    pub open spec fn valid(self) -> bool {
        let pairs = pairs_of(self.action);
        &&& self.resolved.len() <= pairs.len()
        &&& match self.phase {
            RunPhase::Resolving { .. } => self.resolved.len() < pairs.len(),
            RunPhase::Creating { index } | RunPhase::Updating { index, .. } => index
                < self.resolved.len() && self.action is SetVariables,
            _ => true,
        }
        &&& self.phase is Ended || (self.action matches KomodoAction::HttpCall { url, .. }
            ==> url::is_allowed(url))
    }
}

/// An action at its start, with what to do first.
pub fn start(client: &KomodoClient, action: KomodoAction) -> (r: (Run, RunStep))
    ensures
        (r.0.deep_view(), r.1.deep_view()) == RunModel::start(
            client.deep_view(),
            action.deep_view(),
        ),
{
    let method = match &action {
        KomodoAction::HttpCall { method, .. } => parse_method(method.as_str()),
        KomodoAction::Api { method, .. } => parse_method(method.as_str()),
        _ => None,
    };
    start_with(client, action, method)
}

/// An action at its start, with the method that it names and what to do first.
pub fn start_with(client: &KomodoClient, action: KomodoAction, method: Option<Method>) -> (r: (
    Run,
    RunStep,
))
    ensures
        (r.0.deep_view(), r.1.deep_view()) == RunModel::start_with(
            client.deep_view(),
            action.deep_view(),
            method,
        ),
{
    let refused = match &action {
        KomodoAction::HttpCall { url, .. } => url::refused(url.as_str()),
        _ => None,
    };
    let run = Run { action, method, resolved: Vec::new(), phase: RunPhase::Ended };
    assert(run.deep_view().resolved =~= Seq::empty());
    match refused {
        Some(error) => run.fail(error),
        None => run.resolve(client),
    }
}

impl Run {
    #[verifier::type_invariant]
    spec fn is_valid(&self) -> bool {
        self.deep_view().valid()
    }

    /// What the action is called in its result.
    fn label(&self) -> (r: String)
        ensures
            r@ == label_of(self.deep_view().action),
    {
        match &self.action {
            KomodoAction::SetVariables { .. } => "SetVariables".to_string(),
            KomodoAction::SetEnvironment { .. } => "SetEnvironment".to_string(),
            KomodoAction::HttpCall { .. } => "HttpCall".to_string(),
            KomodoAction::Api { method, path, .. } => String::from_str(method.as_str()).concat(
                " ",
            ).concat(path.as_str()),
            KomodoAction::ListServers => "ListServers".to_string(),
            KomodoAction::CreateStack { .. } => "CreateStack".to_string(),
            KomodoAction::DeployStack { .. } => "DeployStack".to_string(),
        }
    }

    fn finish(self, result: ActionResult) -> (r: (Run, RunStep))
        requires
            self.deep_view().resolved.len() <= pairs_of(self.deep_view().action).len(),
        ensures
            (r.0.deep_view(), r.1.deep_view()) == self.deep_view().finish(result.deep_view()),
    {
        (
            Run {
                action: self.action,
                method: self.method,
                resolved: self.resolved,
                phase: RunPhase::Ended,
            },
            RunStep::Finish(result),
        )
    }

    fn fail(self, error: String) -> (r: (Run, RunStep))
        requires
            self.deep_view().resolved.len() <= pairs_of(self.deep_view().action).len(),
        ensures
            (r.0.deep_view(), r.1.deep_view()) == self.deep_view().fail(error@),
    {
        let label = self.label();
        self.finish(ActionResult::failed(label, error))
    }

    fn do_next(self, phase: RunPhase, action: RunAction) -> (r: (Run, RunStep))
        requires
            (RunModel { phase: phase_view(phase), ..self.deep_view() }).valid(),
        ensures
            (r.0.deep_view(), r.1.deep_view()) == self.deep_view().do_next(
                phase_view(phase),
                action.deep_view(),
            ),
    {
        (
            Run { action: self.action, method: self.method, resolved: self.resolved, phase },
            RunStep::Do(action),
        )
    }

    /// The pair at `n`.
    fn pair(&self, n: usize) -> (r: Option<(String, String)>)
        ensures
            r is Some <==> n < pairs_of(self.deep_view().action).len(),
            r matches Some(pair) ==> pair.deep_view() == pairs_of(
                self.deep_view().action,
            )[n as int],
    {
        let (list, at): (&Vec<(String, String)>, usize) = match &self.action {
            KomodoAction::SetVariables { variables, .. } => (variables, n),
            KomodoAction::SetEnvironment { variables, .. } => (variables, n),
            KomodoAction::HttpCall { headers, form, .. } => {
                if n < headers.len() {
                    (headers, n)
                } else {
                    (form, n - headers.len())
                }
            },
            _ => {
                return None;
            },
        };
        if at < list.len() {
            assert(list.deep_view()[at as int] == list@[at as int].deep_view());
            Some((list[at].0.clone(), list[at].1.clone()))
        } else {
            None
        }
    }

    /// With one more pair whose value is known.
    fn knowing(self, key: String, value: String) -> (r: Run)
        requires
            self.deep_view().resolved.len() < pairs_of(self.deep_view().action).len(),
        ensures
            r.deep_view() == (RunModel {
                resolved: self.deep_view().resolved.push((key@, value@)),
                phase: RunPhase::Ended,
                ..self.deep_view()
            }),
    {
        let Run { action, method, resolved, phase } = self;
        let ghost before = resolved.deep_view();
        let mut resolved = resolved;
        resolved.push((key, value));
        assert(resolved.deep_view() =~= before.push((key@, value@)));
        Run { action, method, resolved, phase: RunPhase::Ended }
    }

    /// Goes on with the next pair.
    fn resolve(self, client: &KomodoClient) -> (r: (Run, RunStep))
        requires
            self.deep_view().resolved.len() <= pairs_of(self.deep_view().action).len(),
            self.deep_view().phase is Ended,
            self.deep_view().action matches KomodoAction::HttpCall { url, .. } ==> url::is_allowed(
                url,
            ),
        ensures
            (r.0.deep_view(), r.1.deep_view()) == self.deep_view().resolve(client.deep_view()),
        decreases
                pairs_of(self.deep_view().action).len() - self.deep_view().resolved.len(),
    {
        match self.pair(self.resolved.len()) {
            Some((key, value)) => match param_name(value.as_str()) {
                Some(name) => self.do_next(
                    RunPhase::Resolving { name: name.clone() },
                    RunAction::ReadParam { name },
                ),
                None => {
                    let run = self.knowing(key, value);
                    run.resolve(client)
                },
            },
            None => self.carry_out(client),
        }
    }

    /// The environment that the pairs make.
    fn environment(&self) -> (r: String)
        ensures
            r@ == text::join(env_lines(self.deep_view().resolved), "\n"@),
    {
        let mut lines: Vec<String> = Vec::new();
        let mut i: usize = 0;
        let ghost all = env_lines(self.deep_view().resolved);
        while i < self.resolved.len()
            invariant
                i <= self.resolved@.len(),
                all == env_lines(self.resolved.deep_view()),
                all.len() == self.resolved@.len(),
                text::texts(lines@) == all.take(i as int),
            decreases self.resolved@.len() - i,
        {
            let ghost front = lines@;
            assert(self.resolved.deep_view()[i as int] == self.resolved@[i as int].deep_view());
            lines.push(
                String::from_str(self.resolved[i].0.as_str()).concat("=").concat(
                    self.resolved[i].1.as_str(),
                ),
            );
            assert(text::texts(lines@) =~= text::texts(front).push(all[i as int]));
            assert(all.take(i + 1) =~= all.take(i as int).push(all[i as int]));
            i += 1;
        }
        assert(all.take(i as int) =~= all);
        text::join_with(&lines, "\n")
    }

    /// The pairs from `from` up to `to`.
    fn some_pairs(&self, from: usize, to: usize) -> (r: Vec<(String, String)>)
        requires
            from <= to <= self.deep_view().resolved.len(),
        ensures
            r.deep_view() == self.deep_view().resolved.subrange(from as int, to as int),
    {
        let mut r: Vec<(String, String)> = Vec::new();
        let mut i: usize = from;
        let ghost all = self.deep_view().resolved;
        assert(r.deep_view() =~= all.subrange(from as int, from as int));
        while i < to
            invariant
                from <= i <= to <= self.resolved@.len(),
                all == self.resolved.deep_view(),
                r.deep_view() == all.subrange(from as int, i as int),
            decreases to - i,
        {
            let ghost front = r.deep_view();
            assert(all[i as int] == self.resolved@[i as int].deep_view());
            r.push((self.resolved[i].0.clone(), self.resolved[i].1.clone()));
            assert(r.deep_view() =~= front.push(all[i as int]));
            assert(r.deep_view() =~= all.subrange(from as int, i + 1));
            i += 1;
        }
        r
    }

    /// Carries out an action whose values are known.
    fn carry_out(self, client: &KomodoClient) -> (r: (Run, RunStep))
        requires
            self.deep_view().resolved.len() == pairs_of(self.deep_view().action).len(),
            self.deep_view().action matches KomodoAction::HttpCall { url, .. } ==> url::is_allowed(
                url,
            ),
        ensures
            (r.0.deep_view(), r.1.deep_view()) == self.deep_view().carry_out(client.deep_view()),
    {
        let all: usize = self.resolved.len();
        let call: Call = match &self.action {
            KomodoAction::SetVariables { .. } => {
                return self.set_variable(client, 0);
            },
            KomodoAction::HttpCall { url, method, headers, .. } => {
                let split: usize = headers.len();
                match self.method {
                    Some(m) => {
                        let head = self.some_pairs(0, split);
                        let tail = self.some_pairs(split, all);
                        assert(head.deep_view() =~= self.deep_view().resolved.take(split as int));
                        assert(tail.deep_view() =~= self.deep_view().resolved.skip(split as int));
                        let form = if all > split {
                            Some(tail)
                        } else {
                            None
                        };
                        let call = RunAction::Http {
                            method: m,
                            url: url.clone(),
                            headers: head,
                            form,
                        };
                        return self.do_next(RunPhase::Calling, call);
                    },
                    None => {
                        let error = String::from_str("Unsupported method: ").concat(
                            method.as_str(),
                        );
                        return self.fail(error);
                    },
                }
            },
            KomodoAction::Api { method, path, body } => match self.method {
                Some(m) => {
                    let body = match body {
                        Some(text) => Some(Body::Raw(text.clone())),
                        None => None,
                    };
                    client.request(m, path.as_str(), body)
                },
                None => {
                    let error = String::from_str("Unsupported method: ").concat(method.as_str());
                    return self.fail(error);
                },
            },
            KomodoAction::SetEnvironment { stack, .. } => {
                let environment = self.environment();
                client.post("/write/UpdateStack", update_stack_body(stack, &environment))
            },
            KomodoAction::ListServers => {
                let fields: Vec<(String, Field)> = Vec::new();
                assert(fields.deep_view() =~= Seq::empty());
                client.post("/read/ListServers", fields)
            },
            KomodoAction::CreateStack { name, server, repo, branch, file_paths, git_provider } => {
                let fields = create_stack_body(
                    name,
                    server,
                    repo,
                    branch,
                    file_paths,
                    git_provider,
                );
                client.post("/write/CreateStack", fields)
            },
            KomodoAction::DeployStack { stack } => {
                let fields: Vec<(String, Field)> = vec![
                    ("stack".to_string(), Field::Plain(Leaf::Text(stack.clone()))),
                ];
                assert(fields.deep_view() =~= seq![komodo::text_field("stack"@, stack@)]);
                client.post("/execute/DeployStack", fields)
            },
        };
        self.do_next(RunPhase::Calling, RunAction::Komodo(call))
    }

    /// Goes on with the variable at `index`.
    fn set_variable(self, client: &KomodoClient, index: usize) -> (r: (Run, RunStep))
        requires
            self.deep_view().resolved.len() <= pairs_of(self.deep_view().action).len(),
            self.deep_view().action is SetVariables,
        ensures
            (r.0.deep_view(), r.1.deep_view()) == self.deep_view().set_variable(
                client.deep_view(),
                index,
            ),
    {
        if index < self.resolved.len() {
            let secret: bool = match &self.action {
                KomodoAction::SetVariables { secret, .. } => *secret,
                _ => false,
            };
            assert(self.resolved.deep_view()[index as int]
                == self.resolved@[index as int].deep_view());
            let fields = create_variable_body(
                &self.resolved[index].0,
                &self.resolved[index].1,
                secret,
            );
            let call = client.post("/write/CreateVariable", fields);
            self.do_next(RunPhase::Creating { index }, RunAction::Komodo(call))
        } else {
            let label = self.label();
            let count: usize = self.resolved.len();
            self.finish(ActionResult::succeeded(label, ResultBody::Count(count)))
        }
    }

    /// What the Komodo server answered.
    fn answer(event: RunEvent, shown: &str, json: bool) -> (r: Result<Reply, String>)
        requires
            !(event is Param),
        ensures
            (match r {
                Ok(reply) => Ok(reply.deep_view()),
                Err(error) => Err(error@),
            }) == answered(event.deep_view(), shown@, json),
    {
        match event {
            RunEvent::Answered { status, text } => answer_as(status, shown, text, json),
            RunEvent::Failed(error) => Err(error),
            RunEvent::Param(_) => Err(String::new()),
        }
    }

    /// The result of a call.
    fn called(&self, event: RunEvent, shown: &str, json: bool) -> (r: ActionResult)
        requires
            !(event is Param),
        ensures
            r.deep_view() == self.deep_view().called(event.deep_view(), shown@, json),
    {
        let label = self.label();
        match &self.action {
            KomodoAction::HttpCall { .. } => match event {
                RunEvent::Answered { status, text } => http_result_as(status, shown, text, json),
                RunEvent::Failed(error) => ActionResult::failed(label, error),
                RunEvent::Param(_) => ActionResult::failed(label, String::new()),
            },
            KomodoAction::SetEnvironment { .. } => match Self::answer(event, shown, json) {
                Ok(_) => ActionResult::succeeded(label, ResultBody::Count(self.resolved.len())),
                Err(error) => ActionResult::failed(label, error),
            },
            _ => match Self::answer(event, shown, json) {
                Ok(reply) => ActionResult::succeeded(label, ResultBody::Reply(reply)),
                Err(error) => ActionResult::failed(label, error),
            },
        }
    }

    /// Goes on after what came of the last call.
    pub fn next(self, client: &KomodoClient, event: RunEvent) -> (r: (Run, RunStep))
        requires
            self.deep_view().expects(event.deep_view()),
        ensures
            (r.0.deep_view(), r.1.deep_view()) == self.deep_view().next(
                client.deep_view(),
                event.deep_view(),
            ),
    {
        let (shown, json) = match &event {
            RunEvent::Answered { status, text } => (show_status(*status), is_json(text.as_str())),
            _ => (String::new(), false),
        };
        self.next_with(client, event, shown.as_str(), json)
    }

    /// Goes on after what came of the last call, given what is shown of the status
    /// that it tells of and whether the text is a value in JSON.
    pub fn next_with(
        self,
        client: &KomodoClient,
        event: RunEvent,
        shown: &str,
        json: bool,
    ) -> (r: (Run, RunStep))
        requires
            self.deep_view().expects(event.deep_view()),
        ensures
            (r.0.deep_view(), r.1.deep_view()) == self.deep_view().next_with(
                client.deep_view(),
                event.deep_view(),
                shown@,
                json,
            ),
    {
        proof {
            use_type_invariant(&self);
        }
        let Run { action, method, resolved, phase } = self;
        let run = Run { action, method, resolved, phase: RunPhase::Ended };
        match phase {
            RunPhase::Resolving { name } => match event {
                RunEvent::Param(read) => match resolve_ssm_value(name.as_str(), read) {
                    Ok(value) => match run.pair(run.resolved.len()) {
                        Some((key, _)) => run.knowing(key, value).resolve(client),
                        None => run.fail(String::new()),
                    },
                    Err(error) => run.fail(error),
                },
                _ => run.fail(String::new()),
            },
            RunPhase::Creating { index } => match Self::answer(event, shown, json) {
                Ok(_) => {
                    assert(index < run.resolved.len());
                    run.set_variable(client, index + 1)
                },
                Err(error) => {
                    assert(run.resolved.deep_view()[index as int]
                        == run.resolved@[index as int].deep_view());
                    let fields = update_variable_body(
                        &run.resolved[index].0,
                        &run.resolved[index].1,
                    );
                    let call = client.post("/write/UpdateVariableValue", fields);
                    run.do_next(
                        RunPhase::Updating { index, error },
                        RunAction::Komodo(call),
                    )
                },
            },
            RunPhase::Updating { index, error } => match Self::answer(event, shown, json) {
                Ok(_) => {
                    assert(index < run.resolved.len());
                    run.set_variable(client, index + 1)
                },
                Err(second) => run.fail(
                    String::from_str("Create: ").concat(error.as_str()).concat(
                        ", Update: ",
                    ).concat(second.as_str()),
                ),
            },
            RunPhase::Calling => {
                let result = run.called(event, shown, json);
                run.finish(result)
            },
            RunPhase::Ended => run.fail(String::new()),
        }
    }
}

} // verus!
