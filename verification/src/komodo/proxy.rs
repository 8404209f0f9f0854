//! Carrying out actions in order, up to the first that fails.

use vstd::prelude::*;

use super::run;
use super::run::{start, Run, RunAction, RunActionModel, RunEvent, RunModel, RunStep};
use super::run_laws;
use super::url;
use super::{
    resolve_ssm_value, ActionModel, ActionResult, KomodoAction, KomodoClient, API_KEY, API_SECRET,
};
use crate::komodo;

verus! {

/// How a request goes on.
#[verifier::ext_equal]
pub enum ProxyStep<A = RunAction, R = Vec<ActionResult>, T = String> {
    /// Do what an action needs and say what came of it.
    Do(A),
    /// The actions are over, with these results.
    Finish(R),
    /// The Komodo server cannot be reached, with a message.
    Fail(T),
}

/// What a [`ProxyStep`] says.
pub type ProxyStepModel = ProxyStep<RunActionModel, Seq<ActionResult<Seq<char>>>, Seq<char>>;

/// What a request waits for.
#[verifier::ext_equal]
pub enum ProxyPhase<T = String, R = Run> {
    /// The key of the Komodo server.
    ReadingKey,
    /// The secret of the Komodo server.
    ReadingSecret { key: T },
    /// An action.
    Running(R),
    /// Nothing: the request is over.
    Ended,
}

/// A request under way.
pub struct Proxy {
    client: KomodoClient,
    actions: Vec<KomodoAction>,
    results: Vec<ActionResult>,
    phase: ProxyPhase,
}

/// What a [`Proxy`] holds: how the server is reached, the actions that are left,
/// the results of those that are over, and what is waited for.
#[verifier::ext_equal]
pub struct ProxyModel {
    pub client: KomodoClient<Seq<char>>,
    pub actions: Seq<ActionModel>,
    pub results: Seq<ActionResult<Seq<char>>>,
    pub phase: ProxyPhase<Seq<char>, RunModel>,
}

impl DeepView for ProxyStep {
    type V = ProxyStepModel;

    open spec fn deep_view(&self) -> ProxyStepModel {
        match *self {
            ProxyStep::Do(action) => ProxyStep::Do(action.deep_view()),
            ProxyStep::Finish(results) => ProxyStep::Finish(results.deep_view()),
            ProxyStep::Fail(message) => ProxyStep::Fail(message@),
        }
    }
}

spec fn phase_view(phase: ProxyPhase) -> ProxyPhase<Seq<char>, RunModel> {
    match phase {
        ProxyPhase::ReadingKey => ProxyPhase::ReadingKey,
        ProxyPhase::ReadingSecret { key } => ProxyPhase::ReadingSecret { key: key@ },
        ProxyPhase::Running(run) => ProxyPhase::Running(run.deep_view()),
        ProxyPhase::Ended => ProxyPhase::Ended,
    }
}

impl DeepView for Proxy {
    type V = ProxyModel;

    closed spec fn deep_view(&self) -> ProxyModel {
        ProxyModel {
            client: self.client.deep_view(),
            actions: self.actions.deep_view(),
            results: self.results.deep_view(),
            phase: phase_view(self.phase),
        }
    }
}

impl ProxyModel {
    /// The request before anything is known but the address of the server.
    pub open spec fn start(base_url: Seq<char>, actions: Seq<ActionModel>) -> ProxyModel {
        ProxyModel {
            client: KomodoClient { base_url, api_key: Seq::empty(), api_secret: Seq::empty() },
            actions,
            results: Seq::empty(),
            phase: ProxyPhase::ReadingKey,
        }
    }

    /// Whether the event is one that the request waits for.
    pub open spec fn expects(self, event: RunEvent<Seq<char>>) -> bool {
        match self.phase {
            ProxyPhase::ReadingKey | ProxyPhase::ReadingSecret { .. } => event is Param,
            ProxyPhase::Running(run) => run.expects(event),
            ProxyPhase::Ended => false,
        }
    }

    /// Waiting for something else.
    pub open spec fn waiting(self, phase: ProxyPhase<Seq<char>, RunModel>) -> ProxyModel {
        ProxyModel { phase, ..self }
    }

    /// Ending and handing out the results.
    pub open spec fn finish(self) -> (ProxyModel, ProxyStepModel) {
        (
            ProxyModel { results: Seq::empty(), phase: ProxyPhase::Ended, ..self },
            ProxyStep::Finish(self.results),
        )
    }

    /// Going on with the next action, or ending behind the last one.
    pub open spec fn proceed(self) -> (ProxyModel, ProxyStepModel)
        decreases self.actions.len(), 0nat,
    {
        if self.actions.len() == 0 {
            self.finish()
        } else {
            let (run, step) = RunModel::start(self.client, self.actions[0]);
            let rest = ProxyModel { actions: self.actions.skip(1), ..self };
            match step {
                RunStep::Do(action) => (
                    rest.waiting(ProxyPhase::Running(run)),
                    ProxyStep::Do(action),
                ),
                RunStep::Finish(result) => rest.finished(result),
            }
        }
    }

    /// Going on after an action that is over: one that failed ends the request.
    pub open spec fn finished(self, result: ActionResult<Seq<char>>) -> (
        ProxyModel,
        ProxyStepModel,
    )
        decreases self.actions.len(), 1nat,
    {
        let after = ProxyModel {
            results: self.results.push(result),
            phase: ProxyPhase::Ended,
            ..self
        };
        if result.success {
            after.proceed()
        } else {
            after.finish()
        }
    }

    /// How the request goes on after an event that it expects.
    pub open spec fn next(self, event: RunEvent<Seq<char>>) -> (ProxyModel, ProxyStepModel) {
        match self.phase {
            ProxyPhase::ReadingKey => match komodo::read_value(API_KEY@, event->Param_0) {
                Ok(key) => (
                    self.waiting(ProxyPhase::ReadingSecret { key }),
                    ProxyStep::Do(RunAction::ReadParam { name: API_SECRET@ }),
                ),
                Err(error) => (self.waiting(ProxyPhase::Ended), ProxyStep::Fail(error)),
            },
            ProxyPhase::ReadingSecret { key } => match komodo::read_value(
                API_SECRET@,
                event->Param_0,
            ) {
                Ok(secret) => ProxyModel {
                    client: KomodoClient { api_key: key, api_secret: secret, ..self.client },
                    phase: ProxyPhase::Ended,
                    ..self
                }.proceed(),
                Err(error) => (self.waiting(ProxyPhase::Ended), ProxyStep::Fail(error)),
            },
            ProxyPhase::Running(run) => {
                let (run, step) = run.next(self.client, event);
                match step {
                    RunStep::Do(action) => (
                        self.waiting(ProxyPhase::Running(run)),
                        ProxyStep::Do(action),
                    ),
                    RunStep::Finish(result) => self.finished(result),
                }
            },
            ProxyPhase::Ended => arbitrary(),
        }
    }
}

/// A request for actions, with what to do first. Without an address the default
/// one is used.
pub fn request(base_url: Option<String>, actions: Vec<KomodoAction>) -> (r: (Proxy, ProxyStep))
    ensures
        r.0.deep_view() == ProxyModel::start(
            match base_url {
                Some(url) => url@,
                None => komodo::DEFAULT_URL@,
            },
            actions.deep_view(),
        ),
        r.1.deep_view() == ProxyStepModel::Do(RunAction::ReadParam { name: API_KEY@ }),
{
    let base_url = match base_url {
        Some(url) => url,
        None => komodo::DEFAULT_URL.to_string(),
    };
    let client = KomodoClient {
        base_url,
        api_key: String::new(),
        api_secret: String::new(),
    };
    let proxy = Proxy { client, actions, results: Vec::new(), phase: ProxyPhase::ReadingKey };
    assert(proxy.deep_view().results =~= Seq::empty());
    (proxy, ProxyStep::Do(RunAction::ReadParam { name: API_KEY.to_string() }))
}

impl Proxy {
    fn waiting(self, phase: ProxyPhase) -> (r: Proxy)
        ensures
            r.deep_view() == self.deep_view().waiting(phase_view(phase)),
    {
        Proxy { client: self.client, actions: self.actions, results: self.results, phase }
    }

    /// Ends and hands out the results.
    fn finish(self) -> (r: (Proxy, ProxyStep))
        ensures
            (r.0.deep_view(), r.1.deep_view()) == self.deep_view().finish(),
    {
        let left: Vec<ActionResult> = Vec::new();
        assert(left.deep_view() =~= Seq::empty());
        (
            Proxy {
                client: self.client,
                actions: self.actions,
                results: left,
                phase: ProxyPhase::Ended,
            },
            ProxyStep::Finish(self.results),
        )
    }

    /// Goes on with the next action.
    fn proceed(self) -> (r: (Proxy, ProxyStep))
        ensures
            (r.0.deep_view(), r.1.deep_view()) == self.deep_view().proceed(),
        decreases self.deep_view().actions.len(), 0nat,
    {
        if self.actions.len() == 0 {
            return self.finish();
        }
        let Proxy { client, actions, results, phase } = self;
        let ghost all = actions.deep_view();
        let mut actions = actions;
        let action = actions.remove(0);
        assert(all[0] == action.deep_view());
        assert(actions.deep_view() =~= all.skip(1));
        let (run, step) = start(&client, action);
        let rest = Proxy { client, actions, results, phase };
        match step {
            RunStep::Do(action) => (
                rest.waiting(ProxyPhase::Running(run)),
                ProxyStep::Do(action),
            ),
            RunStep::Finish(result) => rest.finished(result),
        }
    }

    /// Goes on after an action that is over.
    fn finished(self, result: ActionResult) -> (r: (Proxy, ProxyStep))
        ensures
            (r.0.deep_view(), r.1.deep_view()) == self.deep_view().finished(result.deep_view()),
        decreases self.deep_view().actions.len(), 1nat,
    {
        let success: bool = result.success;
        let Proxy { client, actions, results, phase } = self;
        let ghost before = results.deep_view();
        let mut results = results;
        results.push(result);
        assert(results.deep_view() =~= before.push(result.deep_view()));
        let after = Proxy { client, actions, results, phase: ProxyPhase::Ended };
        if success {
            after.proceed()
        } else {
            after.finish()
        }
    }

    /// Goes on after what came of the last action.
    pub fn next(self, event: RunEvent) -> (r: (Proxy, ProxyStep))
        requires
            self.deep_view().expects(event.deep_view()),
        ensures
            (r.0.deep_view(), r.1.deep_view()) == self.deep_view().next(event.deep_view()),
    {
        let Proxy { client, actions, results, phase } = self;
        match phase {
            ProxyPhase::ReadingKey => {
                let proxy = Proxy { client, actions, results, phase: ProxyPhase::Ended };
                match event {
                    RunEvent::Param(read) => match resolve_ssm_value(API_KEY, read) {
                        Ok(key) => (
                            proxy.waiting(ProxyPhase::ReadingSecret { key }),
                            ProxyStep::Do(RunAction::ReadParam { name: API_SECRET.to_string() }),
                        ),
                        Err(error) => (proxy, ProxyStep::Fail(error)),
                    },
                    _ => (proxy, ProxyStep::Fail(String::new())),
                }
            },
            ProxyPhase::ReadingSecret { key } => match event {
                RunEvent::Param(read) => match resolve_ssm_value(API_SECRET, read) {
                    Ok(secret) => {
                        let client = KomodoClient {
                            base_url: client.base_url,
                            api_key: key,
                            api_secret: secret,
                        };
                        Proxy { client, actions, results, phase: ProxyPhase::Ended }.proceed()
                    },
                    Err(error) => (
                        Proxy { client, actions, results, phase: ProxyPhase::Ended },
                        ProxyStep::Fail(error),
                    ),
                },
                _ => (
                    Proxy { client, actions, results, phase: ProxyPhase::Ended },
                    ProxyStep::Fail(String::new()),
                ),
            },
            ProxyPhase::Running(run) => {
                let (run, step) = run.next(&client, event);
                let proxy = Proxy { client, actions, results, phase: ProxyPhase::Ended };
                match step {
                    RunStep::Do(action) => (
                        proxy.waiting(ProxyPhase::Running(run)),
                        ProxyStep::Do(action),
                    ),
                    RunStep::Finish(result) => proxy.finished(result),
                }
            },
            ProxyPhase::Ended => (
                Proxy { client, actions, results, phase: ProxyPhase::Ended },
                ProxyStep::Fail(String::new()),
            ),
        }
    }
}

// ---------------------------------------------------------------------------
// Laws
// ---------------------------------------------------------------------------

/// A request after events.
pub open spec fn progress(
    start: (ProxyModel, ProxyStepModel),
    events: Seq<RunEvent<Seq<char>>>,
) -> (ProxyModel, ProxyStepModel)
    decreases events.len(),
{
    if events.len() == 0 {
        start
    } else {
        progress(start, events.drop_last()).0.next(events.last())
    }
}

/// Whether every event was waited for.
pub open spec fn all_expected(
    start: (ProxyModel, ProxyStepModel),
    events: Seq<RunEvent<Seq<char>>>,
) -> bool
    decreases events.len(),
{
    events.len() == 0 || {
        &&& all_expected(start, events.drop_last())
        &&& progress(start, events.drop_last()).0.expects(events.last())
    }
}

/// A request at its start.
pub open spec fn at_start(base_url: Seq<char>, actions: Seq<ActionModel>) -> (
    ProxyModel,
    ProxyStepModel,
) {
    (
        ProxyModel::start(base_url, actions),
        ProxyStep::Do(RunAction::ReadParam { name: API_KEY@ }),
    )
}

/// Whether all of the results but possibly the last are of actions that went
/// well.
pub open spec fn only_last_failed(results: Seq<ActionResult<Seq<char>>>) -> bool {
    forall|i: int| 0 <= i < results.len() - 1 ==> (#[trigger] results[i]).success
}

/// Whether the calls of services on the network stay in the allowed range.
pub open spec fn in_range(step: ProxyStepModel) -> bool {
    step matches ProxyStep::Do(RunAction::Http { url, .. }) ==> url::is_allowed(url)
}

spec fn all_good(results: Seq<ActionResult<Seq<char>>>) -> bool {
    forall|i: int| 0 <= i < results.len() ==> (#[trigger] results[i]).success
}

/// Whether an action ends with a result after events.
pub open spec fn ended_with(
    client: KomodoClient<Seq<char>>,
    action: ActionModel,
    events: Seq<RunEvent<Seq<char>>>,
    result: ActionResult<Seq<char>>,
) -> bool {
    &&& run_laws::all_expected(client, action, events)
    &&& run_laws::progress(client, action, events).1 == RunStep::<RunActionModel, _>::Finish(
        result,
    )
}

/// Whether a result is that of an action after some of the events, one after the
/// other.
pub open spec fn is_result_of(
    client: KomodoClient<Seq<char>>,
    action: ActionModel,
    events: Seq<RunEvent<Seq<char>>>,
    result: ActionResult<Seq<char>>,
) -> bool {
    &&& result.action == run::label_of(action)
    &&& exists|from: int, to: int|
        0 <= from <= to <= events.len() && #[trigger] ended_with(
            client,
            action,
            events.subrange(from, to),
            result,
        )
}

/// Whether each result is that of the action in its place.
pub open spec fn are_results_of(
    client: KomodoClient<Seq<char>>,
    actions: Seq<ActionModel>,
    events: Seq<RunEvent<Seq<char>>>,
    results: Seq<ActionResult<Seq<char>>>,
) -> bool {
    &&& results.len() <= actions.len()
    &&& forall|i: int|
        0 <= i < results.len() ==> is_result_of(client, actions[i], events, #[trigger] results[i])
}

/// Whether an action is where its events have brought it.
pub open spec fn came_to(
    client: KomodoClient<Seq<char>>,
    action: ActionModel,
    events: Seq<RunEvent<Seq<char>>>,
    run: RunModel,
) -> bool {
    &&& run_laws::all_expected(client, action, events)
    &&& run_laws::progress(client, action, events).0 == run
}

/// Whether an action is where the last of the events have brought it.
pub open spec fn is_under_way(
    client: KomodoClient<Seq<char>>,
    action: ActionModel,
    events: Seq<RunEvent<Seq<char>>>,
    run: RunModel,
) -> bool {
    &&& run.action == action
    &&& exists|from: int|
        0 <= from <= events.len() && #[trigger] came_to(client, action, events.skip(from), run)
}

/// What holds of a request for actions at every moment.
spec fn sound(
    p: (ProxyModel, ProxyStepModel),
    actions: Seq<ActionModel>,
    events: Seq<RunEvent<Seq<char>>>,
) -> bool {
    let (m, step) = p;
    let k = m.results.len() as int;
    let n = actions.len();
    &&& in_range(step)
    &&& step is Do <==> !(m.phase is Ended)
    &&& all_good(m.results)
    &&& are_results_of(m.client, actions, events, m.results)
    &&& match m.phase {
        ProxyPhase::Running(run) => {
            &&& run.valid()
            &&& k < n
            &&& m.actions == actions.skip(k + 1)
            &&& is_under_way(m.client, actions[k], events, run)
        },
        ProxyPhase::Ended => true,
        _ => k == 0 && m.actions == actions,
    }
    &&& step matches ProxyStep::Finish(results) ==> {
        &&& only_last_failed(results)
        &&& are_results_of(m.client, actions, events, results)
        &&& results.len() < n ==> results.len() > 0 && !results.last().success
    }
}

proof fn resolve_is_valid(client: KomodoClient<Seq<char>>, run: RunModel)
    requires
        run.resolved.len() <= run::pairs_of(run.action).len(),
        run.action matches KomodoAction::HttpCall { url, .. } ==> url::is_allowed(url),
    ensures
        run.resolve(client).0.valid(),
        in_range_of_run(run.resolve(client).1),
        run.resolve(client).1 is Do <==> !(run.resolve(client).0.phase is Ended),
    decreases run::pairs_of(run.action).len() - run.resolved.len(),
{
    let pairs = run::pairs_of(run.action);
    let n = run.resolved.len() as int;
    if n < pairs.len() && komodo::param_of(pairs[n].1) is None {
        resolve_is_valid(client, RunModel { resolved: run.resolved.push(pairs[n]), ..run });
    }
}

spec fn in_range_of_run(step: run::RunStepModel) -> bool {
    step matches RunStep::Do(RunAction::Http { url, .. }) ==> url::is_allowed(url)
}

proof fn start_is_valid(client: KomodoClient<Seq<char>>, action: ActionModel)
    ensures
        RunModel::start(client, action).0.valid(),
        in_range_of_run(RunModel::start(client, action).1),
        RunModel::start(client, action).1 is Do <==> !(RunModel::start(client, action).0.phase
            is Ended),
{
    let run = RunModel::new(action, run::method_of(action));
    if action matches KomodoAction::HttpCall { url, .. } ==> url::is_allowed(url) {
        resolve_is_valid(client, run);
    }
}

proof fn next_is_valid(client: KomodoClient<Seq<char>>, run: RunModel, event: RunEvent<Seq<char>>)
    requires
        run.valid(),
        run.expects(event),
    ensures
        run.next(client, event).0.valid(),
        in_range_of_run(run.next(client, event).1),
        run.next(client, event).1 is Do <==> !(run.next(client, event).0.phase is Ended),
{
    if let run::RunPhase::Resolving { name } = run.phase {
        if let Ok(value) = komodo::read_value(name, event->Param_0) {
            let key = run::pairs_of(run.action)[run.resolved.len() as int].0;
            let after = RunModel {
                resolved: run.resolved.push((key, value)),
                phase: run::RunPhase::Ended,
                ..run
            };
            resolve_is_valid(client, after);
        }
    }
}

/// What came of some of the events came of some of more events.
proof fn more_events(
    client: KomodoClient<Seq<char>>,
    actions: Seq<ActionModel>,
    events: Seq<RunEvent<Seq<char>>>,
    event: RunEvent<Seq<char>>,
    results: Seq<ActionResult<Seq<char>>>,
)
    requires
        are_results_of(client, actions, events, results),
    ensures
        are_results_of(client, actions, events.push(event), results),
{
    let more = events.push(event);
    assert forall|i: int| 0 <= i < results.len() implies is_result_of(
        client,
        actions[i],
        more,
        #[trigger] results[i],
    ) by {
        let (from, to) = choose|from: int, to: int|
            0 <= from <= to <= events.len() && #[trigger] ended_with(
                client,
                actions[i],
                events.subrange(from, to),
                results[i],
            );
        assert(more.subrange(from, to) =~= events.subrange(from, to));
        assert(ended_with(client, actions[i], more.subrange(from, to), results[i]));
    }
}

proof fn proceed_is_sound(
    m: ProxyModel,
    actions: Seq<ActionModel>,
    events: Seq<RunEvent<Seq<char>>>,
)
    requires
        m.results.len() <= actions.len(),
        m.actions == actions.skip(m.results.len() as int),
        all_good(m.results),
        are_results_of(m.client, actions, events, m.results),
    ensures
        sound(m.proceed(), actions, events),
    decreases m.actions.len(), 0nat,
{
    if m.actions.len() > 0 {
        let k = m.results.len() as int;
        let action = m.actions[0];
        assert(action == actions[k]);
        start_is_valid(m.client, action);
        let (run, step) = RunModel::start(m.client, action);
        let rest = ProxyModel { actions: m.actions.skip(1), ..m };
        assert(rest.actions =~= actions.skip(k + 1));
        let none = Seq::<RunEvent<Seq<char>>>::empty();
        run_laws::values_come_first(m.client, action, none);
        let len = events.len() as int;
        match step {
            RunStep::Do(_) => {
                assert(events.skip(len) =~= none);
                assert(came_to(m.client, action, events.skip(len), run));
            },
            RunStep::Finish(result) => {
                assert(events.subrange(len, len) =~= none);
                assert(ended_with(m.client, action, events.subrange(len, len), result));
                finished_is_sound(rest, result, actions, events);
            },
        }
    }
}

proof fn finished_is_sound(
    m: ProxyModel,
    result: ActionResult<Seq<char>>,
    actions: Seq<ActionModel>,
    events: Seq<RunEvent<Seq<char>>>,
)
    requires
        m.results.len() < actions.len(),
        m.actions == actions.skip(m.results.len() as int + 1),
        all_good(m.results),
        are_results_of(m.client, actions, events, m.results),
        is_result_of(m.client, actions[m.results.len() as int], events, result),
    ensures
        sound(m.finished(result), actions, events),
    decreases m.actions.len(), 1nat,
{
    let after = ProxyModel {
        results: m.results.push(result),
        phase: ProxyPhase::Ended,
        ..m
    };
    assert forall|i: int| 0 <= i < m.results.len() implies (
    #[trigger] after.results[i]).success by {
        assert(m.results[i].success);
    }
    assert forall|i: int| 0 <= i < after.results.len() implies is_result_of(
        m.client,
        actions[i],
        events,
        #[trigger] after.results[i],
    ) by {
        if i < m.results.len() {
            assert(m.results[i] == after.results[i]);
        }
    }
    if result.success {
        proceed_is_sound(after, actions, events);
    }
}

proof fn sound_always(
    base_url: Seq<char>,
    actions: Seq<ActionModel>,
    events: Seq<RunEvent<Seq<char>>>,
)
    requires
        all_expected(at_start(base_url, actions), events),
    ensures
        sound(progress(at_start(base_url, actions), events), actions, events),
    decreases events.len(),
{
    if events.len() > 0 {
        let event = events.last();
        let before = events.drop_last();
        sound_always(base_url, actions, before);
        let (m, _) = progress(at_start(base_url, actions), before);
        assert(before.push(event) =~= events);
        more_events(m.client, actions, before, event, m.results);
        match m.phase {
            ProxyPhase::Running(run) => {
                let k = m.results.len() as int;
                let action = actions[k];
                next_is_valid(m.client, run, event);
                let from = choose|from: int|
                    0 <= from <= before.len() && #[trigger] came_to(
                        m.client,
                        action,
                        before.skip(from),
                        run,
                    );
                let own = before.skip(from);
                assert(own.push(event) =~= events.skip(from));
                assert(events.skip(from) =~= events.subrange(from, events.len() as int));
                run_laws::one_more_expected(m.client, action, own, event);
                run_laws::values_come_first(m.client, action, own.push(event));
                let (next, step) = run.next(m.client, event);
                match step {
                    RunStep::Do(_) => {
                        assert(came_to(m.client, action, events.skip(from), next));
                    },
                    RunStep::Finish(result) => {
                        assert(ended_with(
                            m.client,
                            action,
                            events.subrange(from, events.len() as int),
                            result,
                        ));
                        finished_is_sound(m, result, actions, events);
                    },
                }
            },
            ProxyPhase::ReadingSecret { key } => {
                if let Ok(secret) = komodo::read_value(API_SECRET@, event->Param_0) {
                    let ready = ProxyModel {
                        client: KomodoClient { api_key: key, api_secret: secret, ..m.client },
                        phase: ProxyPhase::Ended,
                        ..m
                    };
                    assert(actions.skip(0) =~= actions);
                    proceed_is_sound(ready, actions, events);
                }
            },
            _ => {},
        }
    }
}

/// Whatever comes of the calls: the results are those of the actions in their
/// order, and an action under way is the next one. One that fails is the last
/// to be carried out, and where none fails all of them are. Every call of a
/// service on the network is in the allowed range. A request always has
/// something to do until it has ended.
pub proof fn first_failure_is_last(
    base_url: Seq<char>,
    actions: Seq<ActionModel>,
    events: Seq<RunEvent<Seq<char>>>,
)
    requires
        all_expected(at_start(base_url, actions), events),
    ensures
        ({
            let (m, step) = progress(at_start(base_url, actions), events);
            let k = m.results.len() as int;
            &&& in_range(step)
            &&& step is Do <==> !(m.phase is Ended)
            &&& m.phase matches ProxyPhase::Running(run) ==> {
                &&& k < actions.len()
                &&& are_results_of(m.client, actions, events, m.results)
                &&& forall|i: int| 0 <= i < k ==> (#[trigger] m.results[i]).success
                &&& is_under_way(m.client, actions[k], events, run)
                &&& m.actions == actions.skip(k + 1)
            }
            &&& step matches ProxyStep::Finish(results) ==> {
                &&& are_results_of(m.client, actions, events, results)
                &&& only_last_failed(results)
                &&& results.len() < actions.len() ==> results.len() > 0 && !results.last().success
            }
        }),
{
    sound_always(base_url, actions, events);
}

} // verus!
