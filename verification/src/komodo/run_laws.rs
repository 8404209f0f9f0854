//! What an action does from its start to its end.

use vstd::prelude::*;

use super::run::{RunActionModel, RunEvent, RunModel, RunPhase, RunStep, RunStepModel};
use super::{ActionModel, KomodoAction, KomodoClient, ParamRead, ResultBody};
use crate::komodo;
use crate::komodo::run;

verus! {

/// The action after some events, and what it has to do.
pub open spec fn progress(
    client: KomodoClient<Seq<char>>,
    action: ActionModel,
    events: Seq<RunEvent<Seq<char>>>,
) -> (RunModel, RunStepModel)
    decreases events.len(),
{
    if events.len() == 0 {
        RunModel::start(client, action)
    } else {
        progress(client, action, events.drop_last()).0.next(client, events.last())
    }
}

/// Whether each event is one that the action waits for when it comes.
pub open spec fn all_expected(
    client: KomodoClient<Seq<char>>,
    action: ActionModel,
    events: Seq<RunEvent<Seq<char>>>,
) -> bool {
    forall|i: int|
        0 <= i < events.len() ==> progress(client, action, events.take(i)).0.expects(
            #[trigger] events[i],
        )
}

/// Whether a pair holds what another one says, but for the value where that is
/// the name of a parameter.
pub open spec fn stands_for(known: (Seq<char>, Seq<char>), pair: (Seq<char>, Seq<char>)) -> bool {
    known.0 == pair.0 && (komodo::param_of(pair.1) is None ==> known.1 == pair.1)
}

/// Whether the pairs that are known are the first ones of the action, all of
/// them where something was sent, and the parameter that is being read is that
/// of the next one.
pub open spec fn in_step(m: RunModel) -> bool {
    let pairs = run::pairs_of(m.action);
    &&& m.resolved.len() <= pairs.len()
    &&& forall|i: int|
        0 <= i < m.resolved.len() ==> stands_for(#[trigger] m.resolved[i], pairs[i])
    &&& m.phase matches RunPhase::Resolving { name } ==> m.resolved.len() < pairs.len()
        && komodo::param_of(pairs[m.resolved.len() as int].1) == Some(name)
    &&& m.phase is Creating || m.phase is Updating || m.phase is Calling ==> m.resolved.len()
        == pairs.len()
}

/// Whether a step sends something.
pub open spec fn sends(step: RunStepModel) -> bool {
    step matches RunStep::Do(action) && !(action is ReadParam)
}

spec fn ordered(action: ActionModel, r: (RunModel, RunStepModel)) -> bool {
    &&& in_step(r.0)
    &&& r.0.action == action
    &&& sends(r.1) ==> r.0.resolved.len() == run::pairs_of(action).len()
    &&& r.1 matches RunStep::Finish(result) ==> result.action == run::label_of(action)
}

proof fn resolve_in_order(client: KomodoClient<Seq<char>>, m: RunModel)
    requires
        in_step(RunModel { phase: RunPhase::Ended, ..m }),
    ensures
        ordered(m.action, m.resolve(client)),
    decreases run::pairs_of(m.action).len() - m.resolved.len(),
{
    let pairs = run::pairs_of(m.action);
    let n = m.resolved.len() as int;
    if n < pairs.len() && komodo::param_of(pairs[n].1) is None {
        resolve_in_order(client, RunModel { resolved: m.resolved.push(pairs[n]), ..m });
    }
}

/// Whatever comes of the calls: nothing is sent before the value of every pair
/// is known, and what is known of a pair is what the action says of it, but for
/// a value that is the name of a parameter. The result is called as the action.
pub proof fn values_come_first(
    client: KomodoClient<Seq<char>>,
    action: ActionModel,
    events: Seq<RunEvent<Seq<char>>>,
)
    requires
        all_expected(client, action, events),
    ensures
        ({
            let (m, step) = progress(client, action, events);
            &&& m.action == action
            &&& in_step(m)
            &&& sends(step) ==> m.resolved.len() == run::pairs_of(action).len()
            &&& step matches RunStep::Finish(result) ==> result.action == run::label_of(action)
        }),
    decreases events.len(),
{
    if events.len() == 0 {
        resolve_in_order(client, RunModel::new(action, run::method_of(action)));
    } else {
        let before = events.drop_last();
        assert forall|i: int| 0 <= i < before.len() implies progress(
            client,
            action,
            before.take(i),
        ).0.expects(#[trigger] before[i]) by {
            assert(before.take(i) =~= events.take(i));
            assert(before[i] == events[i]);
        }
        values_come_first(client, action, before);
        let m = progress(client, action, before).0;
        let event = events.last();
        assert(events.take(events.len() - 1) =~= before);
        assert(m.expects(events[events.len() - 1]));
        if let RunPhase::Resolving { name } = m.phase {
            if let Ok(value) = komodo::read_value(name, event->Param_0) {
                let key = run::pairs_of(action)[m.resolved.len() as int].0;
                let after = RunModel {
                    resolved: m.resolved.push((key, value)),
                    phase: RunPhase::Ended,
                    ..m
                };
                resolve_in_order(client, after);
            }
        }
    }
}

/// One more event that is waited for.
pub proof fn one_more_expected(
    client: KomodoClient<Seq<char>>,
    action: ActionModel,
    events: Seq<RunEvent<Seq<char>>>,
    event: RunEvent<Seq<char>>,
)
    requires
        all_expected(client, action, events),
        progress(client, action, events).0.expects(event),
    ensures
        all_expected(client, action, events.push(event)),
        progress(client, action, events.push(event)) == progress(
            client,
            action,
            events,
        ).0.next(client, event),
{
    let more = events.push(event);
    assert(more.drop_last() =~= events);
    assert forall|i: int| 0 <= i < more.len() implies progress(
        client,
        action,
        more.take(i),
    ).0.expects(#[trigger] more[i]) by {
        assert(more.take(i) =~= events.take(i));
        if i < events.len() {
            assert(more[i] == events[i]);
        } else {
            assert(events.take(i) =~= events);
        }
    }
}

/// What comes of reading the parameters and setting the variables, each by its
/// place.
pub struct Answers {
    pub param: spec_fn(int) -> ParamRead<Seq<char>>,
    pub created: spec_fn(int) -> RunEvent<Seq<char>>,
    pub updated: spec_fn(int) -> RunEvent<Seq<char>>,
}

/// Whether an event can come of a call.
pub open spec fn is_answer(event: RunEvent<Seq<char>>) -> bool {
    match event {
        RunEvent::Param(_) => false,
        RunEvent::Answered { status, .. } => 100 <= status <= 999,
        RunEvent::Failed(_) => true,
    }
}

/// What the Komodo server says in an event.
pub open spec fn said(event: RunEvent<Seq<char>>) -> Result<komodo::Reply<Seq<char>>, Seq<char>> {
    run::answered(event, run::shown_of(event), run::json_of(event))
}

impl Answers {
    /// Whether calls are answered as calls can be.
    pub open spec fn valid(self) -> bool {
        forall|i: int|
            #![trigger (self.created)(i)]
            #![trigger (self.updated)(i)]
            is_answer((self.created)(i)) && is_answer((self.updated)(i))
    }

    /// The event that the action waits for.
    pub open spec fn reply(self, m: RunModel) -> RunEvent<Seq<char>> {
        match m.phase {
            RunPhase::Resolving { .. } => RunEvent::Param((self.param)(m.resolved.len() as int)),
            RunPhase::Creating { index } => (self.created)(index as int),
            RunPhase::Updating { index, .. } => (self.updated)(index as int),
            _ => arbitrary(),
        }
    }

    /// The value of the pair at `i`, or why there is none.
    pub open spec fn value_of(self, pairs: Seq<(Seq<char>, Seq<char>)>, i: int) -> Result<
        Seq<char>,
        Seq<char>,
    > {
        match komodo::param_of(pairs[i].1) {
            Some(name) => komodo::read_value(name, (self.param)(i)),
            None => Ok(pairs[i].1),
        }
    }

    /// The first `n` pairs with their values.
    pub open spec fn known(self, pairs: Seq<(Seq<char>, Seq<char>)>, n: nat) -> Seq<
        (Seq<char>, Seq<char>),
    > {
        Seq::new(n, |i: int| (pairs[i].0, self.value_of(pairs, i)->Ok_0))
    }

    /// Whether the variable at `i` was created, or else updated.
    pub open spec fn is_set(self, i: int) -> bool {
        said((self.created)(i)) is Ok || said((self.updated)(i)) is Ok
    }

    /// Whether the first `n` pairs have values.
    pub open spec fn all_known(self, pairs: Seq<(Seq<char>, Seq<char>)>, n: int) -> bool {
        forall|i: int| 0 <= i < n ==> #[trigger] self.value_of(pairs, i) is Ok
    }

    /// Whether the first `n` variables were created or else updated.
    pub open spec fn all_set(self, n: int) -> bool {
        forall|i: int| 0 <= i < n ==> #[trigger] self.is_set(i)
    }

    /// The calls for the first `n` variables: each is created, and updated where
    /// it could not be.
    pub open spec fn calls(
        self,
        client: KomodoClient<Seq<char>>,
        pairs: Seq<(Seq<char>, Seq<char>)>,
        secret: bool,
        n: int,
    ) -> Seq<RunActionModel>
        decreases n,
    {
        if n <= 0 {
            Seq::empty()
        } else {
            let before = self.calls(client, pairs, secret, n - 1);
            let name = pairs[n - 1].0;
            let value = self.value_of(pairs, n - 1)->Ok_0;
            let create = run::post_of(
                client,
                "/write/CreateVariable"@,
                komodo::create_variable(name, value, secret),
            );
            let update = run::post_of(
                client,
                "/write/UpdateVariableValue"@,
                komodo::update_variable(name, value),
            );
            if said((self.created)(n - 1)) is Ok {
                before.push(create)
            } else {
                before.push(create).push(update)
            }
        }
    }
}

/// How an action goes on with these answers and ends after at most `fuel` of
/// them, and what was sent.
pub open spec fn set_run(
    client: KomodoClient<Seq<char>>,
    m: RunModel,
    step: RunStepModel,
    answers: Answers,
    sent: Seq<RunActionModel>,
    fuel: nat,
) -> (RunStepModel, Seq<RunActionModel>)
    decreases fuel,
{
    match step {
        RunStep::Do(action) => if fuel > 0 {
            let event = answers.reply(m);
            if m.expects(event) {
                let (next, step) = m.next(client, event);
                let sent = if sends(RunStep::Do(action)) {
                    sent.push(action)
                } else {
                    sent
                };
                set_run(client, next, step, answers, sent, (fuel - 1) as nat)
            } else {
                arbitrary()
            }
        } else {
            (step, sent)
        },
        RunStep::Finish(_) => (step, sent),
    }
}

/// How the setting of variables ends, with what was sent.
pub open spec fn ends_as(
    client: KomodoClient<Seq<char>>,
    variables: Seq<(Seq<char>, Seq<char>)>,
    secret: bool,
    answers: Answers,
    ended: (RunStepModel, Seq<RunActionModel>),
) -> bool {
    let n = variables.len() as int;
    let label = "SetVariables"@;
    if answers.all_known(variables, n) {
        if answers.all_set(n) {
            ended == (
                RunStep::<RunActionModel, _>::Finish(
                    komodo::succeeded(label, ResultBody::Count(n as usize)),
                ),
                answers.calls(client, variables, secret, n),
            )
        } else {
            exists|i: int| #[trigger]
                unset_at(answers, n, i) && ended == (
                    RunStep::<RunActionModel, _>::Finish(
                        komodo::failed(
                            label,
                            "Create: "@ + said((answers.created)(i))->Err_0 + ", Update: "@ + said(
                                (answers.updated)(i),
                            )->Err_0,
                        ),
                    ),
                    answers.calls(client, variables, secret, i + 1),
                )
        }
    } else {
        exists|i: int| #[trigger]
            unknown_at(answers, variables, i) && ended == (
                RunStep::<RunActionModel, _>::Finish(
                    komodo::failed(label, answers.value_of(variables, i)->Err_0),
                ),
                Seq::<RunActionModel>::empty(),
            )
    }
}

/// Whether the variable at `i` is the first that was neither created nor updated.
pub open spec fn unset_at(answers: Answers, n: int, i: int) -> bool {
    0 <= i < n && answers.all_set(i) && !answers.is_set(i)
}

/// Whether the pair at `i` is the first that has no value.
pub open spec fn unknown_at(
    answers: Answers,
    pairs: Seq<(Seq<char>, Seq<char>)>,
    i: int,
) -> bool {
    0 <= i < pairs.len() && answers.all_known(pairs, i) && answers.value_of(pairs, i) is Err
}

/// The setting of the variables from the index on.
proof fn set_from(
    client: KomodoClient<Seq<char>>,
    m: RunModel,
    index: usize,
    answers: Answers,
    fuel: nat,
)
    requires
        m.action is SetVariables,
        answers.valid(),
        ({
            let pairs = m.action->SetVariables_variables;
            &&& index <= pairs.len() <= usize::MAX
            &&& m.resolved == answers.known(pairs, pairs.len())
            &&& answers.all_known(pairs, pairs.len() as int)
            &&& answers.all_set(index as int)
            &&& fuel >= 2 * (pairs.len() - index)
        }),
    ensures
        ({
            let pairs = m.action->SetVariables_variables;
            let secret = m.action->secret;
            let sent = answers.calls(client, pairs, secret, index as int);
            let (next, step) = m.set_variable(client, index);
            ends_as(
                client,
                pairs,
                secret,
                answers,
                set_run(client, next, step, answers, sent, fuel),
            )
        }),
    decreases m.action->SetVariables_variables.len() - index,
{
    reveal_with_fuel(set_run, 3);
    let pairs = m.action->SetVariables_variables;
    let n = pairs.len() as int;
    let i = index as int;
    if index < n {
        let created = (answers.created)(i);
        let updated = (answers.updated)(i);
        assert(is_answer(created) && is_answer(updated));
        let (first, _) = m.set_variable(client, index);
        if said(created) is Ok {
            assert(answers.is_set(i));
            set_from(client, first, (index + 1) as usize, answers, (fuel - 1) as nat);
        } else {
            let (second, _) = first.next(client, created);
            if said(updated) is Ok {
                assert(answers.is_set(i));
                set_from(client, second, (index + 1) as usize, answers, (fuel - 2) as nat);
            } else {
                assert(unset_at(answers, n, i));
            }
        }
    }
}

/// The reading of the values from those that are known on, and what follows.
proof fn resolve_from(client: KomodoClient<Seq<char>>, m: RunModel, answers: Answers, fuel: nat)
    requires
        m.action is SetVariables,
        answers.valid(),
        ({
            let pairs = m.action->SetVariables_variables;
            &&& m.resolved.len() <= pairs.len() <= usize::MAX
            &&& m.resolved == answers.known(pairs, m.resolved.len())
            &&& answers.all_known(pairs, m.resolved.len() as int)
            &&& fuel >= 3 * pairs.len() - m.resolved.len()
        }),
    ensures
        ({
            let (next, step) = m.resolve(client);
            ends_as(
                client,
                m.action->SetVariables_variables,
                m.action->secret,
                answers,
                set_run(client, next, step, answers, Seq::empty(), fuel),
            )
        }),
    decreases m.action->SetVariables_variables.len() - m.resolved.len(),
{
    reveal_with_fuel(set_run, 2);
    let pairs = m.action->SetVariables_variables;
    let n = m.resolved.len();
    if n < pairs.len() {
        let i = n as int;
        if let Ok(value) = answers.value_of(pairs, i) {
            let more = m.resolved.push((pairs[i].0, value));
            assert(more =~= answers.known(pairs, n + 1));
            assert(pairs[i] == (pairs[i].0, pairs[i].1));
            if komodo::param_of(pairs[i].1) is None {
                resolve_from(client, RunModel { resolved: more, ..m }, answers, fuel);
            } else {
                let after = RunModel { resolved: more, phase: RunPhase::Ended, ..m };
                resolve_from(client, after, answers, (fuel - 1) as nat);
            }
        } else {
            assert(unknown_at(answers, pairs, i));
        }
    } else {
        set_from(client, m, 0, answers, fuel);
    }
}

/// The setting of variables ends. Where a value cannot be read nothing is sent,
/// and the error is that of the first such value. Otherwise each variable is
/// created, or else updated, in order, up to the first that is neither: the
/// error tells of both. It succeeds if and only if there is no such variable
/// and no such value.
pub proof fn variables_are_set(
    client: KomodoClient<Seq<char>>,
    variables: Seq<(Seq<char>, Seq<char>)>,
    secret: bool,
    answers: Answers,
    fuel: nat,
)
    requires
        variables.len() <= usize::MAX,
        answers.valid(),
        fuel >= 3 * variables.len(),
    ensures
        ({
            let action: ActionModel = KomodoAction::SetVariables { variables, secret };
            let n = variables.len() as int;
            let (first, step) = RunModel::start(client, action);
            let ended = set_run(client, first, step, answers, Seq::empty(), fuel);
            &&& ends_as(client, variables, secret, answers, ended)
            &&& ended.0 is Finish
            &&& ended.0->Finish_0.success <==> answers.all_known(variables, n) && answers.all_set(n)
        }),
{
    let action: ActionModel = KomodoAction::SetVariables { variables, secret };
    let m = RunModel::new(action, run::method_of(action));
    assert(m.resolved =~= answers.known(variables, 0));
    resolve_from(client, m, answers, fuel);
}

} // verus!
