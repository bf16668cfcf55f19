//! What the conversation loop does over several events, proved from the
//! transitions that the orchestrator's methods follow.

use vstd::prelude::*;
use crate::backend::{EXPIRED_KEY_MESSAGE, classified};
use crate::content::{AgentRole, ContentView, FunctionCall, PartView, text_turn};
use crate::errors::ToolError;
use crate::orchestrator::{
    Outcome,
    OrchestratorView,
    Phase,
    Request,
    Resume,
    StepView,
    after_delay,
    after_model_error,
    after_reply,
    after_tool_failure,
    after_tool_output,
    calls_in_parts,
    calls_of,
    dispatch,
    feedback_turns,
    plain,
    request_turn,
    texts_in_parts,
    texts_of,
    tool_failure_text,
};
use crate::retry::RetryView;
use crate::text::occurs_in;

verus! {

proof fn lemma_no_parts_no_calls(parts: Seq<PartView>)
    requires
        parts.len() == 0,
    ensures
        calls_in_parts(parts) == Seq::<FunctionCall>::empty(),
        texts_in_parts(parts) == Seq::<Seq<char>>::empty(),
{
}

proof fn lemma_partless_reply(reply: Seq<ContentView>)
    requires
        forall|i: int| 0 <= i < reply.len() ==> (#[trigger] reply[i]).parts.len() == 0,
    ensures
        calls_of(reply) == Seq::<FunctionCall>::empty(),
        texts_of(reply) == Seq::<Seq<char>>::empty(),
    decreases reply.len(),
{
    if reply.len() > 0 {
        lemma_partless_reply(reply.drop_last());
        lemma_no_parts_no_calls(reply.last().parts);
        assert(calls_of(reply) =~= Seq::<FunctionCall>::empty());
        assert(texts_of(reply) =~= Seq::<Seq<char>>::empty());
    }
}

/// A reply whose turns carry no parts dispatches nothing, shows nothing,
/// reports no failure, leaves the history as it was, and returns to awaiting input.
pub proof fn lemma_empty_reply_is_quiet(
    s: OrchestratorView,
    h: Seq<ContentView>,
    tools: Set<Seq<char>>,
    reply: Seq<ContentView>,
)
    requires
        forall|i: int| 0 <= i < reply.len() ==> (#[trigger] reply[i]).parts.len() == 0,
    ensures
        after_reply(s, h, tools, reply).state.phase == Phase::AwaitingInput,
        after_reply(s, h, tools, reply).log == h,
        after_reply(s, h, tools, reply).step == (StepView {
            request: Request::ReadInput,
            shown: Seq::empty(),
            failure: None,
        }),
{
    lemma_partless_reply(reply);
    assert(h + feedback_turns(texts_of(reply)) =~= h);
}

/// A backend failure whose message holds the expiry text ends the session at
/// once: no retry, no further request but to stop, the history unchanged.
pub proof fn lemma_expired_credential_ends_session(
    s: OrchestratorView,
    h: Seq<ContentView>,
    message: String,
)
    requires
        occurs_in(message@, EXPIRED_KEY_MESSAGE@),
    ensures
        after_model_error(s, h, classified(message)).state.phase == Phase::Terminated,
        after_model_error(s, h, classified(message)).state.retry == s.retry,
        after_model_error(s, h, classified(message)).log == h,
        after_model_error(s, h, classified(message)).step.request == Request::Stop,
{
}

/// One failed attempt of a tool and, when the budget allows another, the
/// delay that precedes it.
pub open spec fn failed_attempt(
    s: OrchestratorView,
    h: Seq<ContentView>,
    tools: Set<Seq<char>>,
    e: ToolError,
) -> Outcome {
    let o = after_tool_failure(s, h, e);
    if o.state.phase == Phase::Recovering {
        after_delay(o.state, o.log, tools)
    } else {
        o
    }
}

/// The loop after the tool being dispatched failed with each of `errs` in turn.
pub open spec fn failed_attempts(
    s: OrchestratorView,
    h: Seq<ContentView>,
    tools: Set<Seq<char>>,
    errs: Seq<ToolError>,
) -> Outcome
    decreases errs.len(),
{
    if errs.len() == 0 {
        Outcome { state: s, log: h, step: plain(Request::RunTool(s.pending[s.next as int])) }
    } else {
        let o = failed_attempts(s, h, tools, errs.drop_last());
        failed_attempt(o.state, o.log, tools, errs.last())
    }
}

/// A registered tool that fails every time is run exactly `max_retry` times
/// (`max_retry >= 1`): after each of the first `max_retry - 1` failures the
/// same call is run again and the history is untouched; the `max_retry`-th
/// failure is fed back as one user turn, and the loop awaits input.
pub proof fn lemma_failing_tool_gives_up(
    s: OrchestratorView,
    h: Seq<ContentView>,
    tools: Set<Seq<char>>,
    errs: Seq<ToolError>,
)
    requires
        s.phase == Phase::DispatchTools,
        s.inv(),
        s.next < s.pending.len(),
        tools.contains(s.pending[s.next as int].name@),
        s.retry.attempts == 0,
        s.retry.max_retry >= 1,
        1 <= errs.len() <= s.retry.max_retry,
    ensures
        errs.len() < s.retry.max_retry ==> {
            &&& failed_attempts(s, h, tools, errs).state == (OrchestratorView {
                resume: Resume::Tool,
                retry: RetryView { attempts: errs.len(), ..s.retry },
                ..s
            })
            &&& failed_attempts(s, h, tools, errs).log == h
            &&& failed_attempts(s, h, tools, errs).step == plain(
                Request::RunTool(s.pending[s.next as int]),
            )
        },
        errs.len() == s.retry.max_retry ==> {
            &&& failed_attempts(s, h, tools, errs).state.phase == Phase::AwaitingInput
            &&& failed_attempts(s, h, tools, errs).state.retry.attempts == 0
            &&& failed_attempts(s, h, tools, errs).log == h.push(
                text_turn(AgentRole::User, tool_failure_text(errs.last())),
            )
            &&& failed_attempts(s, h, tools, errs).step.request == Request::ReadInput
        },
    decreases errs.len(),
{
    let n = errs.len();
    if n > 1 {
        lemma_failing_tool_gives_up(s, h, tools, errs.drop_last());
    }
    let o = failed_attempts(s, h, tools, errs.drop_last());
    assert(o.state.pending == s.pending && o.state.next == s.next && o.log == h);
    assert(o.state.retry == (RetryView { attempts: (n - 1) as nat, ..s.retry }));
    let f = after_tool_failure(o.state, o.log, errs.last());
    if n < s.retry.max_retry {
        assert(f.state.phase == Phase::Recovering);
        assert(f.state.resume == Resume::Tool);
        let d = dispatch(f.state, f.log, tools);
        assert(d == after_delay(f.state, f.log, tools));
        assert(d.step == plain(Request::RunTool(s.pending[s.next as int])));
        assert(d.state =~= (OrchestratorView {
            resume: Resume::Tool,
            retry: RetryView { attempts: n, ..s.retry },
            ..s
        }));
    } else {
        assert(f.state.phase == Phase::AwaitingInput);
    }
}

/// The loop after each of `outputs` was fed back in turn.
pub open spec fn fed(o: Outcome, tools: Set<Seq<char>>, outputs: Seq<Seq<char>>) -> Outcome
    decreases outputs.len(),
{
    if outputs.len() == 0 {
        o
    } else {
        let p = fed(o, tools, outputs.drop_last());
        after_tool_output(p.state, p.log, tools, outputs.last())
    }
}

/// One dispatch round: a reply, then the outputs of its calls, in order.
pub open spec fn round(
    s: OrchestratorView,
    h: Seq<ContentView>,
    tools: Set<Seq<char>>,
    reply: Seq<ContentView>,
    outputs: Seq<Seq<char>>,
) -> Outcome {
    fed(after_reply(s, h, tools, reply), tools, outputs)
}

/// Every call of the reply names a registered tool, and there is one output per call.
pub open spec fn complete_round(
    tools: Set<Seq<char>>,
    reply: Seq<ContentView>,
    outputs: Seq<Seq<char>>,
) -> bool {
    &&& calls_of(reply).len() >= 1
    &&& outputs.len() == calls_of(reply).len()
    &&& forall|i: int| 0 <= i < calls_of(reply).len() ==> tools.contains(#[trigger] calls_of(reply)[i].name@)
}

proof fn lemma_round_prefix(
    s: OrchestratorView,
    h: Seq<ContentView>,
    tools: Set<Seq<char>>,
    reply: Seq<ContentView>,
    outputs: Seq<Seq<char>>,
    m: nat,
)
    requires
        complete_round(tools, reply, outputs),
        m <= outputs.len(),
    ensures
        ({
            let calls = calls_of(reply);
            let o = fed(after_reply(s, h, tools, reply), tools, outputs.take(m as int));
            &&& o.state == (OrchestratorView {
                phase: if m < calls.len() {
                    Phase::DispatchTools
                } else {
                    Phase::QueryModel
                },
                pending: calls,
                next: m,
                retry: s.retry.reset(),
                ..s
            })
            &&& o.log == h.push(request_turn(calls)) + feedback_turns(outputs.take(m as int))
            &&& o.step == if m < calls.len() {
                plain(Request::RunTool(calls[m as int]))
            } else {
                plain(Request::QueryModel)
            }
        }),
    decreases m,
{
    let calls = calls_of(reply);
    if m == 0 {
        assert(outputs.take(0) =~= Seq::<Seq<char>>::empty());
        assert(h.push(request_turn(calls)) + feedback_turns(Seq::<Seq<char>>::empty()) =~= h.push(
            request_turn(calls),
        ));
        let s0 = OrchestratorView {
            phase: Phase::DispatchTools,
            pending: calls,
            next: 0,
            retry: s.retry.reset(),
            ..s
        };
        assert(tools.contains(calls[0].name@));
    } else {
        lemma_round_prefix(s, h, tools, reply, outputs, (m - 1) as nat);
        assert(outputs.take(m as int).drop_last() =~= outputs.take(m - 1));
        assert(outputs.take(m as int).last() == outputs[m - 1]);
        let p = fed(after_reply(s, h, tools, reply), tools, outputs.take(m - 1));
        assert(feedback_turns(outputs.take(m as int)) =~= feedback_turns(outputs.take(m - 1)).push(
            text_turn(AgentRole::User, outputs[m - 1]),
        ));
        assert(p.log.push(text_turn(AgentRole::User, outputs[m - 1])) =~= h.push(
            request_turn(calls),
        ) + feedback_turns(outputs.take(m as int)));
        if m < calls.len() {
            assert(tools.contains(calls[m as int].name@));
        }
    }
}

/// A round ends with the model queried again, never awaiting input: the
/// history holds one more model turn with the calls, then one user turn per
/// output, in order.
pub proof fn lemma_round(
    s: OrchestratorView,
    h: Seq<ContentView>,
    tools: Set<Seq<char>>,
    reply: Seq<ContentView>,
    outputs: Seq<Seq<char>>,
)
    requires
        complete_round(tools, reply, outputs),
    ensures
        after_reply(s, h, tools, reply).state.phase == Phase::DispatchTools,
        round(s, h, tools, reply, outputs).state.phase == Phase::QueryModel,
        round(s, h, tools, reply, outputs).state.inv(),
        round(s, h, tools, reply, outputs).state.exit_command == s.exit_command,
        round(s, h, tools, reply, outputs).step == plain(Request::QueryModel),
        round(s, h, tools, reply, outputs).log == h.push(request_turn(calls_of(reply)))
            + feedback_turns(outputs),
        round(s, h, tools, reply, outputs).log.len() == h.len() + 1 + outputs.len(),
{
    lemma_round_prefix(s, h, tools, reply, outputs, 0);
    lemma_round_prefix(s, h, tools, reply, outputs, outputs.len());
    assert(outputs.take(outputs.len() as int) =~= outputs);
    assert(outputs.take(0) =~= Seq::<Seq<char>>::empty());
}

/// The loop after each round of `rounds` in turn: a reply and the outputs of its calls.
pub open spec fn rounds_run(
    s: OrchestratorView,
    h: Seq<ContentView>,
    tools: Set<Seq<char>>,
    rounds: Seq<(Seq<ContentView>, Seq<Seq<char>>)>,
) -> Outcome
    decreases rounds.len(),
{
    if rounds.len() == 0 {
        Outcome { state: s, log: h, step: plain(Request::QueryModel) }
    } else {
        let o = rounds_run(s, h, tools, rounds.drop_last());
        round(o.state, o.log, tools, rounds.last().0, rounds.last().1)
    }
}

/// How much the history grows over `rounds`: per round, one model turn and one
/// user turn per output.
pub open spec fn rounds_growth(rounds: Seq<(Seq<ContentView>, Seq<Seq<char>>)>) -> int
    decreases rounds.len(),
{
    if rounds.len() == 0 {
        0
    } else {
        rounds_growth(rounds.drop_last()) + 1 + rounds.last().1.len()
    }
}

proof fn lemma_rounds_run(
    s: OrchestratorView,
    h: Seq<ContentView>,
    tools: Set<Seq<char>>,
    rounds: Seq<(Seq<ContentView>, Seq<Seq<char>>)>,
)
    requires
        s.phase == Phase::QueryModel,
        s.inv(),
        forall|i: int| 0 <= i < rounds.len() ==> complete_round(tools, (#[trigger] rounds[i]).0, rounds[i].1),
    ensures
        rounds_run(s, h, tools, rounds).state.phase == Phase::QueryModel,
        rounds_run(s, h, tools, rounds).state.inv(),
        rounds_run(s, h, tools, rounds).log.len() == h.len() + rounds_growth(rounds),
    decreases rounds.len(),
{
    if rounds.len() > 0 {
        let prev = rounds.drop_last();
        assert forall|i: int| 0 <= i < prev.len() implies complete_round(
            tools,
            (#[trigger] prev[i]).0,
            prev[i].1,
        ) by {
            assert(prev[i] == rounds[i]);
        }
        lemma_rounds_run(s, h, tools, prev);
        let o = rounds_run(s, h, tools, prev);
        assert(complete_round(tools, rounds[rounds.len() - 1].0, rounds[rounds.len() - 1].1));
        lemma_round(o.state, o.log, tools, rounds.last().0, rounds.last().1);
    }
}

/// Round `i` of `rounds` dispatches, ends with the model queried again, and
/// grows the history by one model turn plus one turn per output.
pub open spec fn round_advances(
    s: OrchestratorView,
    h: Seq<ContentView>,
    tools: Set<Seq<char>>,
    rounds: Seq<(Seq<ContentView>, Seq<Seq<char>>)>,
    i: int,
) -> bool {
    let before = rounds_run(s, h, tools, rounds.take(i));
    &&& after_reply(before.state, before.log, tools, rounds[i].0).state.phase == Phase::DispatchTools
    &&& rounds_run(s, h, tools, rounds.take(i + 1)).state.phase == Phase::QueryModel
    &&& rounds_run(s, h, tools, rounds.take(i + 1)).log.len() == before.log.len() + 1 + rounds[i].1.len()
}

proof fn lemma_rounds_step(
    s: OrchestratorView,
    h: Seq<ContentView>,
    tools: Set<Seq<char>>,
    rounds: Seq<(Seq<ContentView>, Seq<Seq<char>>)>,
    i: int,
)
    requires
        s.phase == Phase::QueryModel,
        s.inv(),
        forall|k: int| 0 <= k < rounds.len() ==> complete_round(tools, (#[trigger] rounds[k]).0, rounds[k].1),
        0 <= i < rounds.len(),
    ensures
        round_advances(s, h, tools, rounds, i),
{
    let pre = rounds.take(i);
    assert forall|k: int| 0 <= k < pre.len() implies complete_round(
        tools,
        (#[trigger] pre[k]).0,
        pre[k].1,
    ) by {
        assert(pre[k] == rounds[k]);
    }
    assert(rounds.take(i + 1).drop_last() =~= pre);
    assert(rounds.take(i + 1).last() == rounds[i]);
    lemma_rounds_run(s, h, tools, pre);
    let before = rounds_run(s, h, tools, pre);
    assert(complete_round(tools, rounds[i].0, rounds[i].1));
    lemma_round(before.state, before.log, tools, rounds[i].0, rounds[i].1);
}

proof fn lemma_text_reply_ends(
    s: OrchestratorView,
    h: Seq<ContentView>,
    tools: Set<Seq<char>>,
    last: Seq<ContentView>,
)
    requires
        calls_of(last).len() == 0,
    ensures
        after_reply(s, h, tools, last).state.phase == Phase::AwaitingInput,
        after_reply(s, h, tools, last).log == h + feedback_turns(texts_of(last)),
        after_reply(s, h, tools, last).step.request == Request::ReadInput,
{
}

/// From a model query, `N` replies that carry function calls (all of them to
/// registered tools, each answered by an output), followed by one reply without
/// calls: each of the `N` replies starts a dispatch round and none returns to
/// awaiting input; each round grows the history by exactly one model turn plus
/// one turn per tool output; the reply without calls then returns to awaiting
/// input after feeding back its texts.
pub proof fn lemma_dispatch_rounds(
    s: OrchestratorView,
    h: Seq<ContentView>,
    tools: Set<Seq<char>>,
    rounds: Seq<(Seq<ContentView>, Seq<Seq<char>>)>,
    last: Seq<ContentView>,
)
    requires
        s.phase == Phase::QueryModel,
        s.inv(),
        forall|i: int| 0 <= i < rounds.len() ==> complete_round(tools, (#[trigger] rounds[i]).0, rounds[i].1),
        calls_of(last).len() == 0,
    ensures
        forall|i: int| 0 <= i < rounds.len() ==> #[trigger] round_advances(s, h, tools, rounds, i),
        rounds_run(s, h, tools, rounds).state.phase == Phase::QueryModel,
        rounds_run(s, h, tools, rounds).log.len() == h.len() + rounds_growth(rounds),
        ({
            let o = rounds_run(s, h, tools, rounds);
            let end = after_reply(o.state, o.log, tools, last);
            &&& end.state.phase == Phase::AwaitingInput
            &&& end.log == o.log + feedback_turns(texts_of(last))
            &&& end.step.request == Request::ReadInput
        }),
{
    assert forall|i: int| 0 <= i < rounds.len() implies #[trigger] round_advances(s, h, tools, rounds, i) by {
        lemma_rounds_step(s, h, tools, rounds, i);
    }
    lemma_rounds_run(s, h, tools, rounds);
    let o = rounds_run(s, h, tools, rounds);
    lemma_text_reply_ends(o.state, o.log, tools, last);
}

} // verus!
