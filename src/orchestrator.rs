//! The conversation loop as a state machine. Each event that the surrounding
//! program observes (a line of input, a model reply or failure, a tool result,
//! a delay that elapsed) is handed to one method, which updates the state and
//! the history and says what to do next. The program performs that request and
//! reports back; only it waits, reads or talks to the network.

use vstd::prelude::*;
use crate::content::{
    AgentRole,
    Content,
    ContentView,
    FunctionCall,
    Part,
    PartView,
    call_part,
    contents_view,
    parts_view,
    text_turn,
};
use crate::errors::{AgentError, ToolError};
use crate::history::{ConversationHistory, appended};
use crate::json::{encode_json_string, json_string};
use crate::retry::{RetryDecision, RetryPolicy, RetryView};
use crate::text::{begins_with, starts_with_text};
use crate::tools::ToolRegistry;

verus! {

/// The line that ends a session when input begins with it.
pub const EXIT_COMMAND: &'static str = "exit";

/// Where the conversation stands.
#[derive(Debug, Clone, Copy, PartialEq, Eq, Structural)]
pub enum Phase {
    /// Waiting for a line of user input.
    AwaitingInput,
    /// One model query is in flight.
    QueryModel,
    /// Tool calls of a model reply are being run, one at a time.
    DispatchTools,
    /// A recoverable failure happened; the retry delay is running.
    Recovering,
    /// The session ended; nothing more is asked of anyone.
    Terminated,
}

/// What a recovering orchestrator tries again once the delay elapsed.
#[derive(Debug, Clone, Copy, PartialEq, Eq, Structural)]
pub enum Resume {
    Query,
    Tool,
}

/// What the surrounding program is asked to do next.
#[derive(Debug)]
pub enum Request {
    /// Read one line of input and report it.
    ReadInput,
    /// Send a snapshot of the history to the model and report the reply.
    QueryModel,
    /// Execute the registered tool named by the call, with the call's arguments.
    RunTool(FunctionCall),
    /// Wait this many milliseconds, then report that the delay elapsed.
    Wait(u64),
    /// End the session.
    Stop,
}

/// A failure to report on the user-facing output.
#[derive(Debug)]
pub enum Failure {
    Agent(AgentError),
    Tool(ToolError),
}

/// The result of one transition: the next request, the texts to show the
/// user, and the failure to report, if any.
#[derive(Debug)]
pub struct Step {
    pub request: Request,
    pub shown: Vec<String>,
    pub failure: Option<Failure>,
}

pub struct StepView {
    pub request: Request,
    pub shown: Seq<Seq<char>>,
    pub failure: Option<Failure>,
}

pub open spec fn strings_view(s: Seq<String>) -> Seq<Seq<char>> {
    s.map_values(|t: String| t@)
}

impl View for Step {
    type V = StepView;

    open spec fn view(&self) -> StepView {
        StepView { request: self.request, shown: strings_view(self.shown@), failure: self.failure }
    }
}

/// A step that only makes a request.
pub open spec fn plain(request: Request) -> StepView {
    StepView { request, shown: Seq::empty(), failure: None }
}

/// A step that makes a request and reports a failure.
pub open spec fn failing(request: Request, failure: Failure) -> StepView {
    StepView { request, shown: Seq::empty(), failure: Some(failure) }
}

/// The state of the conversation loop.
#[derive(Debug)]
pub struct Orchestrator {
    phase: Phase,
    resume: Resume,
    pending: Vec<FunctionCall>,
    next: usize,
    retry: RetryPolicy,
    exit_command: String,
}

pub struct OrchestratorView {
    pub phase: Phase,
    pub resume: Resume,
    /// The function calls of the batch being dispatched, in reply order.
    pub pending: Seq<FunctionCall>,
    /// The position in `pending` of the call being dispatched.
    pub next: nat,
    pub retry: RetryView,
    pub exit_command: Seq<char>,
}

impl OrchestratorView {
    pub open spec fn inv(self) -> bool {
        self.next <= self.pending.len() && self.retry.inv()
    }
}

impl View for Orchestrator {
    type V = OrchestratorView;

    closed spec fn view(&self) -> OrchestratorView {
        OrchestratorView {
            phase: self.phase,
            resume: self.resume,
            pending: self.pending@,
            next: self.next as nat,
            retry: self.retry@,
            exit_command: self.exit_command@,
        }
    }
}

/// The state, the history and the step after a transition.
pub struct Outcome {
    pub state: OrchestratorView,
    pub log: Seq<ContentView>,
    pub step: StepView,
}

/// The calls among `parts`, in order.
pub open spec fn calls_in_parts(parts: Seq<PartView>) -> Seq<FunctionCall>
    decreases parts.len(),
{
    if parts.len() == 0 {
        Seq::empty()
    } else {
        calls_in_parts(parts.drop_last()) + match parts.last().call {
            Some(c) => seq![c],
            None => Seq::empty(),
        }
    }
}

/// The calls of a reply, in the order in which they appear.
pub open spec fn calls_of(reply: Seq<ContentView>) -> Seq<FunctionCall>
    decreases reply.len(),
{
    if reply.len() == 0 {
        Seq::empty()
    } else {
        calls_of(reply.drop_last()) + calls_in_parts(reply.last().parts)
    }
}

/// The texts among `parts`, in order.
pub open spec fn texts_in_parts(parts: Seq<PartView>) -> Seq<Seq<char>>
    decreases parts.len(),
{
    if parts.len() == 0 {
        Seq::empty()
    } else {
        texts_in_parts(parts.drop_last()) + match parts.last().text {
            Some(t) => seq![t],
            None => Seq::empty(),
        }
    }
}

/// The texts of a reply, in the order in which they appear.
pub open spec fn texts_of(reply: Seq<ContentView>) -> Seq<Seq<char>>
    decreases reply.len(),
{
    if reply.len() == 0 {
        Seq::empty()
    } else {
        texts_of(reply.drop_last()) + texts_in_parts(reply.last().parts)
    }
}

/// The model's request for tools, as it is kept in the history.
pub open spec fn request_turn(calls: Seq<FunctionCall>) -> ContentView {
    ContentView { role: AgentRole::Model, parts: calls.map_values(|c: FunctionCall| call_part(c)) }
}

/// Texts fed back into the history, one user turn each.
pub open spec fn feedback_turns(texts: Seq<Seq<char>>) -> Seq<ContentView> {
    texts.map_values(|t: Seq<char>| text_turn(AgentRole::User, t))
}

pub open spec fn not_found_text(name: Seq<char>) -> Seq<char> {
    "ToolNotFound: "@ + name
}

pub open spec fn tool_failure_text(e: ToolError) -> Seq<char> {
    "Error performing function call: "@ + e.spec_describe()
}

/// Resolves the calls of the batch from `s.next` on: a call whose tool is
/// registered is run; one whose tool is not gets a feedback turn and the next
/// call is taken. With no call left, the model is queried again.
pub open spec fn dispatch(s: OrchestratorView, h: Seq<ContentView>, tools: Set<Seq<char>>) -> Outcome
    decreases s.pending.len() - s.next,
{
    if s.next >= s.pending.len() {
        Outcome {
            state: OrchestratorView { phase: Phase::QueryModel, ..s },
            log: h,
            step: plain(Request::QueryModel),
        }
    } else if tools.contains(s.pending[s.next as int].name@) {
        Outcome {
            state: OrchestratorView { phase: Phase::DispatchTools, ..s },
            log: h,
            step: plain(Request::RunTool(s.pending[s.next as int])),
        }
    } else {
        dispatch(
            OrchestratorView { next: s.next + 1, ..s },
            appended(h, text_turn(AgentRole::User, not_found_text(s.pending[s.next as int].name@))),
            tools,
        )
    }
}


/// A line of input: the exit command ends the session; any other line becomes
/// a user turn and the model is queried.
pub open spec fn after_input(s: OrchestratorView, h: Seq<ContentView>, line: Seq<char>) -> Outcome {
    if begins_with(line, s.exit_command) {
        Outcome {
            state: OrchestratorView { phase: Phase::Terminated, ..s },
            log: h,
            step: plain(Request::Stop),
        }
    } else {
        Outcome {
            state: OrchestratorView { phase: Phase::QueryModel, retry: s.retry.reset(), ..s },
            log: appended(h, text_turn(AgentRole::User, line)),
            step: plain(Request::QueryModel),
        }
    }
}

/// Input could not be read: the session ends.
pub open spec fn after_input_failure(s: OrchestratorView, h: Seq<ContentView>, reason: String) -> Outcome {
    Outcome {
        state: OrchestratorView { phase: Phase::Terminated, ..s },
        log: h,
        step: failing(Request::Stop, Failure::Agent(AgentError::UserInputError(reason))),
    }
}

/// A model reply. With a function call anywhere in it, the reply's calls are
/// kept in the history as one model turn and dispatched in order. Without one,
/// every text is shown and fed back as a user turn, and input is awaited.
pub open spec fn after_reply(
    s: OrchestratorView,
    h: Seq<ContentView>,
    tools: Set<Seq<char>>,
    reply: Seq<ContentView>,
) -> Outcome {
    let calls = calls_of(reply);
    if calls.len() > 0 {
        dispatch(
            OrchestratorView {
                phase: Phase::DispatchTools,
                pending: calls,
                next: 0,
                retry: s.retry.reset(),
                ..s
            },
            appended(h, request_turn(calls)),
            tools,
        )
    } else {
        Outcome {
            state: OrchestratorView { phase: Phase::AwaitingInput, retry: s.retry.reset(), ..s },
            log: h + feedback_turns(texts_of(reply)),
            step: StepView { request: Request::ReadInput, shown: texts_of(reply), failure: None },
        }
    }
}

/// A failed model query. A fatal kind ends the session at once. Any other is
/// retried after the delay while the budget lasts; then it is fed back as a
/// user turn and input is awaited.
pub open spec fn after_model_error(s: OrchestratorView, h: Seq<ContentView>, err: AgentError) -> Outcome {
    if err.spec_is_fatal() {
        Outcome {
            state: OrchestratorView { phase: Phase::Terminated, ..s },
            log: h,
            step: failing(Request::Stop, Failure::Agent(err)),
        }
    } else if s.retry.after_failure().1 == RetryDecision::Retry {
        Outcome {
            state: OrchestratorView {
                phase: Phase::Recovering,
                resume: Resume::Query,
                retry: s.retry.after_failure().0,
                ..s
            },
            log: h,
            step: failing(Request::Wait(s.retry.delay_ms as u64), Failure::Agent(err)),
        }
    } else {
        Outcome {
            state: OrchestratorView {
                phase: Phase::AwaitingInput,
                retry: s.retry.after_failure().0,
                ..s
            },
            log: appended(h, text_turn(AgentRole::User, err.spec_describe())),
            step: failing(Request::ReadInput, Failure::Agent(err)),
        }
    }
}

/// The retry delay elapsed: the failed query is sent again, or the failed
/// call is resolved and run again.
pub open spec fn after_delay(s: OrchestratorView, h: Seq<ContentView>, tools: Set<Seq<char>>) -> Outcome {
    if s.resume == Resume::Query {
        Outcome {
            state: OrchestratorView { phase: Phase::QueryModel, ..s },
            log: h,
            step: plain(Request::QueryModel),
        }
    } else {
        dispatch(s, h, tools)
    }
}

/// A tool's output, as it is fed back: it becomes a user turn, and the next
/// call of the batch is dispatched.
pub open spec fn after_tool_output(
    s: OrchestratorView,
    h: Seq<ContentView>,
    tools: Set<Seq<char>>,
    feedback: Seq<char>,
) -> Outcome {
    dispatch(
        OrchestratorView { next: s.next + 1, retry: s.retry.reset(), ..s },
        appended(h, text_turn(AgentRole::User, feedback)),
        tools,
    )
}

/// A tool failed: it is run again after the delay while the budget lasts; then
/// the failure is fed back as a user turn and input is awaited.
pub open spec fn after_tool_failure(s: OrchestratorView, h: Seq<ContentView>, e: ToolError) -> Outcome {
    if s.retry.after_failure().1 == RetryDecision::Retry {
        Outcome {
            state: OrchestratorView {
                phase: Phase::Recovering,
                resume: Resume::Tool,
                retry: s.retry.after_failure().0,
                ..s
            },
            log: h,
            step: failing(Request::Wait(s.retry.delay_ms as u64), Failure::Tool(e)),
        }
    } else {
        Outcome {
            state: OrchestratorView {
                phase: Phase::AwaitingInput,
                retry: s.retry.after_failure().0,
                ..s
            },
            log: appended(h, text_turn(AgentRole::User, tool_failure_text(e))),
            step: failing(Request::ReadInput, Failure::Tool(e)),
        }
    }
}

fn plain_step(request: Request) -> (r: Step)
    ensures
        r@ == plain(request),
{
    let r = Step { request, shown: Vec::new(), failure: None };
    assert(r@.shown =~= Seq::<Seq<char>>::empty());
    r
}

fn failing_step(request: Request, failure: Failure) -> (r: Step)
    ensures
        r@ == failing(request, failure),
{
    let r = Step { request, shown: Vec::new(), failure: Some(failure) };
    assert(r@.shown =~= Seq::<Seq<char>>::empty());
    r
}

fn prefixed(prefix: &str, text: &str) -> (r: String)
    ensures
        r@ == prefix@ + text@,
{
    let mut r = prefix.to_string();
    r.append(text);
    r
}

/// The calls of a reply in order, each also as a call part, and its texts in order.
fn collect_reply(reply: &Vec<Content>) -> (r: (Vec<FunctionCall>, Vec<Part>, Vec<String>))
    ensures
        r.0@ == calls_of(contents_view(reply@)),
        parts_view(r.1@) == calls_of(contents_view(reply@)).map_values(|c: FunctionCall| call_part(c)),
        strings_view(r.2@) == texts_of(contents_view(reply@)),
{
    let ghost cv = contents_view(reply@);
    let mut calls: Vec<FunctionCall> = Vec::new();
    let mut call_parts: Vec<Part> = Vec::new();
    let mut texts: Vec<String> = Vec::new();
    let mut i: usize = 0;
    while i < reply.len()
        invariant
            i <= reply@.len(),
            cv == contents_view(reply@),
            calls@ == calls_of(cv.take(i as int)),
            call_parts@.len() == calls@.len(),
            forall|k: int| 0 <= k < calls@.len() ==> (#[trigger] call_parts@[k])@ == call_part(calls@[k]),
            strings_view(texts@) == texts_of(cv.take(i as int)),
        decreases reply@.len() - i,
    {
        let parts = &reply[i].parts;
        let ghost pv = parts_view(parts@);
        let ghost calls0 = calls@;
        let ghost texts0 = strings_view(texts@);
        assert(pv == cv[i as int].parts);
        let mut j: usize = 0;
        while j < parts.len()
            invariant
                j <= parts@.len(),
                pv == parts_view(parts@),
                calls@ == calls0 + calls_in_parts(pv.take(j as int)),
                call_parts@.len() == calls@.len(),
                forall|k: int| 0 <= k < calls@.len() ==> (#[trigger] call_parts@[k])@ == call_part(calls@[k]),
                strings_view(texts@) == texts0 + texts_in_parts(pv.take(j as int)),
            decreases parts@.len() - j,
        {
            let part = &parts[j];
            assert(pv.take(j + 1).drop_last() =~= pv.take(j as int));
            assert(pv.take(j + 1).last() == part@);
            let ghost calls1 = calls@;
            let ghost parts1 = call_parts@;
            match &part.function_call {
                Some(c) => {
                    calls.push(c.clone());
                    call_parts.push(Part::from_call(c.clone()));
                    assert(calls@ =~= calls0 + calls_in_parts(pv.take(j + 1)));
                    assert forall|k: int| 0 <= k < calls@.len() implies (#[trigger] call_parts@[k])@
                        == call_part(calls@[k]) by {
                        if k < calls1.len() {
                            assert(call_parts@[k] == parts1[k]);
                        }
                    }
                },
                None => {
                    assert(calls@ =~= calls0 + calls_in_parts(pv.take(j + 1)));
                },
            }
            let ghost texts1 = texts@;
            match &part.text {
                Some(t) => {
                    texts.push(t.clone());
                    assert(texts@ =~= texts1.push(*t));
                    assert(strings_view(texts@) =~= strings_view(texts1).push(t@));
                    assert(strings_view(texts@) =~= texts0 + texts_in_parts(pv.take(j + 1)));
                },
                None => {
                    assert(strings_view(texts@) =~= texts0 + texts_in_parts(pv.take(j + 1)));
                },
            }
            j = j + 1;
        }
        assert(pv.take(j as int) =~= pv);
        assert(cv.take(i + 1).drop_last() =~= cv.take(i as int));
        assert(cv.take(i + 1).last() == cv[i as int]);
        i = i + 1;
    }
    assert(cv.take(i as int) =~= cv);
    assert(parts_view(call_parts@) =~= calls@.map_values(|c: FunctionCall| call_part(c)));
    (calls, call_parts, texts)
}

impl Orchestrator {
    /// A loop that awaits input, retries with `policy` from a fresh budget, and
    /// ends on input that begins with `exit_command`.
    pub fn new(policy: RetryPolicy, exit_command: String) -> (r: Self)
        ensures
            r@ == (OrchestratorView {
                phase: Phase::AwaitingInput,
                resume: Resume::Query,
                pending: Seq::empty(),
                next: 0,
                retry: policy@.reset(),
                exit_command: exit_command@,
            }),
            r@.inv(),
    {
        let mut retry = policy;
        retry.reset();
        Orchestrator {
            phase: Phase::AwaitingInput,
            resume: Resume::Query,
            pending: Vec::new(),
            next: 0,
            retry,
            exit_command,
        }
    }

    pub fn phase(&self) -> (r: Phase)
        ensures
            r == self@.phase,
    {
        self.phase
    }

    pub fn retry(&self) -> (r: &RetryPolicy)
        ensures
            r@ == self@.retry,
    {
        &self.retry
    }

    /// The call being dispatched, while the batch has one left.
    pub fn current_call(&self) -> (r: Option<&FunctionCall>)
        ensures
            match r {
                Some(c) => self@.next < self@.pending.len() && *c == self@.pending[self@.next as int],
                None => self@.next >= self@.pending.len(),
            },
    {
        if self.next < self.pending.len() {
            Some(&self.pending[self.next])
        } else {
            None
        }
    }

    fn dispatch<T>(&mut self, history: &mut ConversationHistory, tools: &ToolRegistry<T>) -> (r: Step)
        requires
            old(self)@.inv(),
            tools.wf(),
        ensures
            (Outcome { state: final(self)@, log: final(history)@, step: r@ }) == dispatch(
                old(self)@,
                old(history)@,
                tools@.dom(),
            ),
            final(self)@.inv(),
    {
        loop
            invariant
                self@.inv(),
                tools.wf(),
                dispatch(self@, history@, tools@.dom()) == dispatch(
                    old(self)@,
                    old(history)@,
                    tools@.dom(),
                ),
            decreases self.pending@.len() - self.next,
        {
            if self.next >= self.pending.len() {
                self.phase = Phase::QueryModel;
                return plain_step(Request::QueryModel);
            }
            if tools.contains(&self.pending[self.next].name) {
                self.phase = Phase::DispatchTools;
                return plain_step(Request::RunTool(self.pending[self.next].clone()));
            }
            let text = prefixed("ToolNotFound: ", self.pending[self.next].name.as_str());
            history.append(Content::from_text(text, AgentRole::User));
            self.next = self.next + 1;
        }
    }

    /// Hands over a line of input.
    pub fn on_input(&mut self, history: &mut ConversationHistory, line: String) -> (r: Step)
        requires
            old(self)@.phase == Phase::AwaitingInput,
            old(self)@.inv(),
        ensures
            (Outcome { state: final(self)@, log: final(history)@, step: r@ }) == after_input(
                old(self)@,
                old(history)@,
                line@,
            ),
            final(self)@.inv(),
    {
        if starts_with_text(line.as_str(), self.exit_command.as_str()) {
            self.phase = Phase::Terminated;
            return plain_step(Request::Stop);
        }
        history.append(Content::from_text(line, AgentRole::User));
        self.retry.reset();
        self.phase = Phase::QueryModel;
        plain_step(Request::QueryModel)
    }

    /// Reports that input could not be read.
    pub fn on_input_failed(&mut self, history: &ConversationHistory, reason: String) -> (r: Step)
        requires
            old(self)@.phase == Phase::AwaitingInput,
            old(self)@.inv(),
        ensures
            (Outcome { state: final(self)@, log: history@, step: r@ }) == after_input_failure(
                old(self)@,
                history@,
                reason,
            ),
            final(self)@.inv(),
    {
        self.phase = Phase::Terminated;
        failing_step(Request::Stop, Failure::Agent(AgentError::UserInputError(reason)))
    }

    /// Hands over the failure of the model query in flight.
    pub fn on_model_error(&mut self, history: &mut ConversationHistory, err: AgentError) -> (r: Step)
        requires
            old(self)@.phase == Phase::QueryModel,
            old(self)@.inv(),
        ensures
            (Outcome { state: final(self)@, log: final(history)@, step: r@ }) == after_model_error(
                old(self)@,
                old(history)@,
                err,
            ),
            final(self)@.inv(),
    {
        if err.is_fatal() {
            self.phase = Phase::Terminated;
            return failing_step(Request::Stop, Failure::Agent(err));
        }
        let delay = self.retry.delay_ms();
        match self.retry.record_failure() {
            RetryDecision::Retry => {
                self.phase = Phase::Recovering;
                self.resume = Resume::Query;
                failing_step(Request::Wait(delay), Failure::Agent(err))
            },
            RetryDecision::Exhausted => {
                history.append(Content::from_text(err.describe(), AgentRole::User));
                self.phase = Phase::AwaitingInput;
                failing_step(Request::ReadInput, Failure::Agent(err))
            },
        }
    }

    /// Reports that the retry delay elapsed.
    pub fn on_delay_elapsed<T>(&mut self, history: &mut ConversationHistory, tools: &ToolRegistry<T>) -> (r: Step)
        requires
            old(self)@.phase == Phase::Recovering,
            old(self)@.inv(),
            tools.wf(),
        ensures
            (Outcome { state: final(self)@, log: final(history)@, step: r@ }) == after_delay(
                old(self)@,
                old(history)@,
                tools@.dom(),
            ),
            final(self)@.inv(),
    {
        match self.resume {
            Resume::Query => {
                self.phase = Phase::QueryModel;
                plain_step(Request::QueryModel)
            },
            Resume::Tool => self.dispatch(history, tools),
        }
    }

    /// Feeds back the output of the call being dispatched, exactly as given,
    /// and dispatches the next call of the batch.
    pub fn accept_tool_output<T>(
        &mut self,
        history: &mut ConversationHistory,
        tools: &ToolRegistry<T>,
        feedback: String,
    ) -> (r: Step)
        requires
            old(self)@.phase == Phase::DispatchTools,
            old(self)@.next < old(self)@.pending.len(),
            old(self)@.inv(),
            tools.wf(),
        ensures
            (Outcome { state: final(self)@, log: final(history)@, step: r@ }) == after_tool_output(
                old(self)@,
                old(history)@,
                tools@.dom(),
                feedback@,
            ),
            final(self)@.inv(),
    {
        history.append(Content::from_text(feedback, AgentRole::User));
        self.retry.reset();
        assert(self.next < self.pending.len());
        self.next = self.next + 1;
        self.dispatch(history, tools)
    }

    /// Hands over the result of the call being dispatched. An output is fed back
    /// as its JSON string text (or as it is, should that encoding fail); a
    /// failure goes to the retry policy.
    pub fn on_tool_result<T>(
        &mut self,
        history: &mut ConversationHistory,
        tools: &ToolRegistry<T>,
        result: Result<String, ToolError>,
    ) -> (r: Step)
        requires
            old(self)@.phase == Phase::DispatchTools,
            old(self)@.next < old(self)@.pending.len(),
            old(self)@.inv(),
            tools.wf(),
        ensures
            match result {
                Ok(out) => {
                    ||| (Outcome { state: final(self)@, log: final(history)@, step: r@ })
                        == after_tool_output(old(self)@, old(history)@, tools@.dom(), json_string(out@))
                    ||| (Outcome { state: final(self)@, log: final(history)@, step: r@ })
                        == after_tool_output(old(self)@, old(history)@, tools@.dom(), out@)
                },
                Err(e) => (Outcome { state: final(self)@, log: final(history)@, step: r@ })
                    == after_tool_failure(old(self)@, old(history)@, e),
            },
            final(self)@.inv(),
    {
        match result {
            Ok(out) => {
                let feedback = match encode_json_string(out.as_str()) {
                    Some(encoded) => encoded,
                    None => out,
                };
                self.accept_tool_output(history, tools, feedback)
            },
            Err(e) => {
                let delay = self.retry.delay_ms();
                match self.retry.record_failure() {
                    RetryDecision::Retry => {
                        self.phase = Phase::Recovering;
                        self.resume = Resume::Tool;
                        failing_step(Request::Wait(delay), Failure::Tool(e))
                    },
                    RetryDecision::Exhausted => {
                        let text = prefixed("Error performing function call: ", e.describe().as_str());
                        history.append(Content::from_text(text, AgentRole::User));
                        self.phase = Phase::AwaitingInput;
                        failing_step(Request::ReadInput, Failure::Tool(e))
                    },
                }
            },
        }
    }

    /// Hands over the reply to the model query in flight.
    pub fn on_model_reply<T>(
        &mut self,
        history: &mut ConversationHistory,
        tools: &ToolRegistry<T>,
        reply: Vec<Content>,
    ) -> (r: Step)
        requires
            old(self)@.phase == Phase::QueryModel,
            old(self)@.inv(),
            tools.wf(),
        ensures
            (Outcome { state: final(self)@, log: final(history)@, step: r@ }) == after_reply(
                old(self)@,
                old(history)@,
                tools@.dom(),
                contents_view(reply@),
            ),
            final(self)@.inv(),
    {
        let (calls, call_parts, texts) = collect_reply(&reply);
        self.retry.reset();
        if calls.len() > 0 {
            history.append(Content::new(call_parts, AgentRole::Model));
            self.pending = calls;
            self.next = 0;
            self.phase = Phase::DispatchTools;
            return self.dispatch(history, tools);
        }
        let ghost h0 = history@;
        let mut k: usize = 0;
        while k < texts.len()
            invariant
                k <= texts@.len(),
                history@ == h0 + feedback_turns(strings_view(texts@).take(k as int)),
            decreases texts@.len() - k,
        {
            let ghost before = history@;
            history.append(Content::from_text(texts[k].clone(), AgentRole::User));
            assert(strings_view(texts@).take(k + 1) =~= strings_view(texts@).take(k as int).push(
                texts@[k as int]@,
            ));
            assert(history@ =~= h0 + feedback_turns(strings_view(texts@).take(k + 1)));
            k = k + 1;
        }
        assert(strings_view(texts@).take(k as int) =~= strings_view(texts@));
        self.phase = Phase::AwaitingInput;
        Step { request: Request::ReadInput, shown: texts, failure: None }
    }
}

} // verus!
