//! The agent's turn loop as a state machine.
//!
//! The engine keeps the conversation and decides what happens next; whoever
//! drives it reads the user's input, sends the requests, runs the tools, and
//! hands each outcome back as the next event.
//!
//! The loop: read a line (a quit command ends everything); send the
//! conversation; record the answer and count the turn; when the model asked
//! for tools, run them one by one, each output answering the call it came
//! from, and send the conversation again; otherwise read the next line.
use vstd::prelude::*;
use crate::llm::client::{ApiClient, ClientView};
use crate::llm::engine::conversation::{Conversation, ConversationView, Message};
use crate::llm::response::{FinishReason, ParsedResponse};
use crate::text::{concat2, concat3, decimal_string, str_eq, trim, trim_spec};
use crate::tool_call::bash::BashTool;
use crate::tool_call::edit_file::EditFileTool;
use crate::tool_call::function_type::ToolFunctionType;
use crate::tool_call::glob_file::GlobFileTool;
use crate::tool_call::read_file::ReadFileTool;
use crate::tool_call::tool::{
    clone_tool_calls, schema_spec, RegistryView, ToolCall, ToolRegistry, ToolResult,
};
use crate::tool_call::write_file::WriteFileTool;

verus! {

/// The agent: the client, the conversation, the tools, the number of turns
/// so far, the workspace it works in, and the tool calls of the last answer
/// that still wait for their output.
#[derive(Debug)]
pub struct Engine {
    client: ApiClient,
    conversation: Conversation,
    tool_registry: ToolRegistry,
    turn_count: u16,
    work_dir: String,
    pending: Vec<ToolCall>,
}

/// An engine, as the specifications see it.
pub struct EngineView {
    pub client: ClientView,
    pub conversation: ConversationView,
    pub tools: RegistryView,
    pub turn_count: u16,
    pub work_dir: Seq<char>,
    pub pending: Seq<ToolCall>,
}

impl View for Engine {
    type V = EngineView;

    closed spec fn view(&self) -> EngineView {
        EngineView {
            client: self.client@,
            conversation: self.conversation@,
            tools: self.tool_registry@,
            turn_count: self.turn_count,
            work_dir: self.work_dir@,
            pending: self.pending@,
        }
    }
}

/// What the driver of the engine does next.
#[derive(Debug)]
pub enum EngineAction {
    /// Read a line from the user and hand it to `on_user_input`.
    PromptUser,
    /// Send the conversation and hand the answer to `on_response`.
    SendRequest,
    /// Run the first of these tool calls and hand its output to
    /// `on_tool_output`; the others follow, in order.
    RunTools(Vec<ToolCall>),
    /// Stop.
    Finish,
}

/// The system prompt for a workspace.
pub open spec fn system_prompt(work_dir: Seq<char>) -> Seq<char> {
    "You are a coding agent at "@ + work_dir
        + ". Use tools to solve tasks. Act first, then report clearly"@
}

/// The inputs that end the session.
pub open spec fn is_quit(s: Seq<char>) -> bool {
    s == "/q"@ || s == "/exit"@ || s == "/quit"@
}

/// `e` with `m` appended to its conversation.
pub open spec fn engine_with_message(e: EngineView, m: Message) -> EngineView {
    EngineView {
        conversation: ConversationView { messages: e.conversation.messages.push(m), ..e.conversation },
        ..e
    }
}

/// The message that answers a tool call with its output.
pub open spec fn tool_answer(call: ToolCall, content: String) -> Message {
    Message::Tool { content, tool_call_id: call.id }
}

/// `e` after the output of its next pending call: a tool message answers
/// that call, which no longer waits.  With no call pending nothing changes.
pub open spec fn engine_after_output(e: EngineView, content: String) -> EngineView {
    if e.pending.len() == 0 {
        e
    } else {
        EngineView {
            pending: e.pending.drop_first(),
            ..engine_with_message(e, tool_answer(e.pending[0], content))
        }
    }
}

/// `e` after the outputs, handed over one at a time, in order.
pub open spec fn engine_after_outputs(e: EngineView, outputs: Seq<String>) -> EngineView
    decreases outputs.len(),
{
    if outputs.len() == 0 {
        e
    } else {
        engine_after_outputs(engine_after_output(e, outputs[0]), outputs.drop_first())
    }
}

/// The tool messages that answer `calls` with `outputs`, pair by pair.
pub open spec fn answers(calls: Seq<ToolCall>, outputs: Seq<String>) -> Seq<Message> {
    Seq::new(outputs.len(), |k: int| tool_answer(calls[k], outputs[k]))
}

/// Handing over outputs for the first calls that wait appends one tool
/// message per output, in order, each carrying the id of the call at the
/// same position, and leaves the later calls waiting; nothing else changes.
pub proof fn law_outputs_answer_pending_calls(e: EngineView, outputs: Seq<String>)
    requires
        outputs.len() <= e.pending.len(),
    ensures
        engine_after_outputs(e, outputs) == (EngineView {
            pending: e.pending.skip(outputs.len() as int),
            conversation: ConversationView {
                messages: e.conversation.messages + answers(e.pending, outputs),
                ..e.conversation
            },
            ..e
        }),
    decreases outputs.len(),
{
    if outputs.len() == 0 {
        assert(e.pending.skip(0) =~= e.pending);
        assert(e.conversation.messages + answers(e.pending, outputs) =~= e.conversation.messages);
    } else {
        let e1 = engine_after_output(e, outputs[0]);
        let rest = outputs.drop_first();
        law_outputs_answer_pending_calls(e1, rest);
        assert(e1.pending.skip(rest.len() as int) =~= e.pending.skip(outputs.len() as int));
        assert(e1.conversation.messages + answers(e1.pending, rest) =~= e.conversation.messages
            + answers(e.pending, outputs));
    }
}

/// Once every call of an answer has its output, the conversation holds one
/// tool message per call, in call order, with the call's id, and no call
/// waits any more.
pub proof fn law_every_call_answered_in_order(e: EngineView, outputs: Seq<String>)
    requires
        outputs.len() == e.pending.len(),
    ensures
        engine_after_outputs(e, outputs).pending.len() == 0,
        engine_after_outputs(e, outputs).conversation.messages == e.conversation.messages
            + answers(e.pending, outputs),
        forall|k: int|
            0 <= k < outputs.len() ==> (#[trigger] engine_after_outputs(
                e,
                outputs,
            ).conversation.messages[e.conversation.messages.len() + k] matches Message::Tool {
                content,
                tool_call_id,
            } && content == outputs[k] && tool_call_id == e.pending[k].id),
{
    law_outputs_answer_pending_calls(e, outputs);
}

/// The message that records the model's answer.
pub open spec fn answer_message(response: ParsedResponse) -> Message {
    Message::Assistant {
        content: response.message.content,
        reasoning_content: response.message.reasoning_content,
        tool_calls: response.message.tool_calls,
    }
}

/// `e` after the model's answer: the answer is recorded, the turn counted,
/// and the calls it makes (when it stopped to call tools) wait for their
/// outputs.
pub open spec fn engine_after_response(e: EngineView, response: ParsedResponse) -> EngineView {
    EngineView {
        turn_count: (e.turn_count + 1) as u16,
        pending: if response.finish_reason == FinishReason::ToolCalls {
            response.tool_calls@
        } else {
            seq![]
        },
        ..engine_with_message(e, answer_message(response))
    }
}

/// One round of tool use: after an answer that stops to call tools and one
/// output per call, handed over in order, the conversation holds the answer
/// followed by one tool message per call, in call order, each with the
/// call's id and its output; the turn is counted once and no call waits.
pub proof fn law_tool_round(e: EngineView, response: ParsedResponse, outputs: Seq<String>)
    requires
        e.turn_count < u16::MAX,
        response.finish_reason == FinishReason::ToolCalls,
        outputs.len() == response.tool_calls@.len(),
    ensures
        engine_after_outputs(engine_after_response(e, response), outputs) == (EngineView {
            turn_count: (e.turn_count + 1) as u16,
            pending: seq![],
            conversation: ConversationView {
                messages: e.conversation.messages.push(answer_message(response)) + answers(
                    response.tool_calls@,
                    outputs,
                ),
                ..e.conversation
            },
            ..e
        }),
{
    let r = engine_after_response(e, response);
    law_outputs_answer_pending_calls(r, outputs);
    assert(r.pending.skip(outputs.len() as int) =~= Seq::<ToolCall>::empty());
}

/// An event the driver hands to the engine, as the specifications see it.
pub enum RunEvent {
    /// A line the user typed, and the text the engine keeps of it.
    Line { typed: Seq<char>, kept: String },
    /// The model's answer.
    Reply(ParsedResponse),
    /// The output of the next tool call that waits.
    Output(String),
}

/// What the engine waits for, as the specifications see it.
pub enum Phase {
    /// A line from the user.
    Prompt,
    /// The model's answer to the conversation sent.
    Send,
    /// The output of the next pending tool call.
    Run,
    /// Nothing: the session is over.
    Done,
}

/// The phase an action puts the driver in.
pub open spec fn phase_of(a: EngineAction) -> Phase {
    match a {
        EngineAction::PromptUser => Phase::Prompt,
        EngineAction::SendRequest => Phase::Send,
        EngineAction::RunTools(_) => Phase::Run,
        EngineAction::Finish => Phase::Done,
    }
}

/// One step of the loop: what the engine becomes and waits for next when
/// `ev` arrives while it waits in phase `p`; `None` when the event is not
/// the one awaited (or the kept line is not the typed line trimmed, or the
/// turn count is exhausted).
pub open spec fn run_step(e: EngineView, p: Phase, ev: RunEvent) -> Option<(EngineView, Phase)> {
    match (p, ev) {
        (Phase::Prompt, RunEvent::Line { typed, kept }) => if kept@ != trim_spec(typed) {
            None
        } else if is_quit(kept@) {
            Some((e, Phase::Done))
        } else {
            Some((engine_with_message(e, Message::User { content: kept }), Phase::Send))
        },
        (Phase::Send, RunEvent::Reply(response)) => if e.turn_count >= u16::MAX {
            None
        } else {
            let f = engine_after_response(e, response);
            Some((
                f,
                if f.pending.len() > 0 {
                    Phase::Run
                } else {
                    Phase::Prompt
                },
            ))
        },
        (Phase::Run, RunEvent::Output(content)) => if e.pending.len() == 0 {
            None
        } else {
            let f = engine_after_output(e, content);
            Some((
                f,
                if f.pending.len() > 0 {
                    Phase::Run
                } else {
                    Phase::Send
                },
            ))
        },
        _ => None,
    }
}

/// A run of the loop: the events handed over one after another, each in the
/// phase the one before left; `None` when one of them is not awaited.
pub open spec fn run_events(e: EngineView, p: Phase, evs: Seq<RunEvent>) -> Option<
    (EngineView, Phase),
>
    decreases evs.len(),
{
    if evs.len() == 0 {
        Some((e, p))
    } else {
        match run_step(e, p, evs[0]) {
            None => None,
            Some((f, q)) => run_events(f, q, evs.drop_first()),
        }
    }
}

/// Tool calls wait exactly while the driver is to run them: in the phases
/// that read a line or send a request no call is pending.
pub open spec fn calls_match_phase(e: EngineView, p: Phase) -> bool {
    match p {
        Phase::Run => e.pending.len() > 0,
        Phase::Prompt | Phase::Send => e.pending.len() == 0,
        Phase::Done => true,
    }
}

/// Whether an event is a model's answer.
pub open spec fn is_reply(ev: RunEvent) -> bool {
    ev matches RunEvent::Reply(_)
}

/// Whether an event adds a message: every answer and tool output, and every
/// line that is not a quit command.
pub open spec fn adds_message(ev: RunEvent) -> bool {
    match ev {
        RunEvent::Line { kept, .. } => !is_quit(kept@),
        _ => true,
    }
}

/// The number of answers among the events.
pub open spec fn count_replies(evs: Seq<RunEvent>) -> nat
    decreases evs.len(),
{
    if evs.len() == 0 {
        0
    } else {
        (if is_reply(evs[0]) { 1nat } else { 0nat }) + count_replies(evs.drop_first())
    }
}

/// The number of events that add a message.
pub open spec fn count_added(evs: Seq<RunEvent>) -> nat
    decreases evs.len(),
{
    if evs.len() == 0 {
        0
    } else {
        (if adds_message(evs[0]) { 1nat } else { 0nat }) + count_added(evs.drop_first())
    }
}

/// `f` differs from `e` at most in its messages, its turn count and its
/// pending calls.
pub open spec fn same_setup(e: EngineView, f: EngineView) -> bool {
    f == EngineView {
        conversation: ConversationView { messages: f.conversation.messages, ..e.conversation },
        turn_count: f.turn_count,
        pending: f.pending,
        ..e
    }
}

/// Over any run of the loop that starts with no call pending while a line
/// is awaited (as a new engine is): tool calls wait exactly while the
/// driver is to run them, so every request goes out with every call of the
/// last answer answered; the history only grows, by one message per answer,
/// per tool output and per line that is not a quit command; the turn count
/// grows by one per answer; nothing else of the engine changes; and once a
/// quit command has ended the session no further event is taken.
pub proof fn law_run(e: EngineView, p: Phase, evs: Seq<RunEvent>)
    requires
        calls_match_phase(e, p),
        run_events(e, p, evs) is Some,
    ensures
        ({
            let (f, q) = run_events(e, p, evs)->Some_0;
            &&& calls_match_phase(f, q)
            &&& f.conversation.messages.len() == e.conversation.messages.len() + count_added(evs)
            &&& f.conversation.messages.take(e.conversation.messages.len() as int)
                == e.conversation.messages
            &&& f.turn_count == e.turn_count + count_replies(evs)
            &&& same_setup(e, f)
            &&& (q is Done ==> forall|ev: RunEvent| #[trigger] run_step(f, q, ev) is None)
        }),
    decreases evs.len(),
{
    if evs.len() > 0 {
        let (f1, q1) = run_step(e, p, evs[0])->Some_0;
        let rest = evs.drop_first();
        law_run(f1, q1, rest);
        let (f, q) = run_events(f1, q1, rest)->Some_0;
        let n = e.conversation.messages.len() as int;
        let n1 = f1.conversation.messages.len() as int;
        assert(f1.conversation.messages.take(n) == e.conversation.messages);
        assert(f.conversation.messages.take(n1) == f1.conversation.messages);
        assert(f.conversation.messages.take(n) =~= f.conversation.messages.take(n1).take(n));
    } else {
        assert(e.conversation.messages.take(e.conversation.messages.len() as int)
            =~= e.conversation.messages);
    }
}

/// The line printed before running a tool call.
pub open spec fn describe_spec(tc: ToolCall) -> Seq<char> {
    "the idx="@ + crate::text::decimal(tc.index as nat) + " "@ + tc.function.name.name_spec() + " "@
        + tc.call_type.name_spec() + " arguments: "@ + tc.function.arguments@
}

/// The registry of all tools: bash, read_file, write_file, edit_file, glob.
pub fn default_tool_registry() -> (r: ToolRegistry)
    ensures
        r@.kinds == seq![
            ToolFunctionType::Bash,
            ToolFunctionType::ReadFile,
            ToolFunctionType::WriteFile,
            ToolFunctionType::EditFile,
            ToolFunctionType::Glob,
        ],
        r@.schemas == r@.kinds.map_values(|k: ToolFunctionType| schema_spec(k)),
{
    let mut registry = ToolRegistry::new();
    registry.register(BashTool);
    registry.register(ReadFileTool);
    registry.register(WriteFileTool);
    registry.register(EditFileTool);
    registry.register(GlobFileTool);
    assert(registry@.kinds =~= seq![
        ToolFunctionType::Bash,
        ToolFunctionType::ReadFile,
        ToolFunctionType::WriteFile,
        ToolFunctionType::EditFile,
        ToolFunctionType::Glob,
    ]);
    assert(registry@.schemas =~= registry@.kinds.map_values(|k: ToolFunctionType| schema_spec(k)));
    registry
}

impl Engine {
    /// An engine for `model`, working in `work_dir`, whose conversation starts
    /// with the system prompt and offers the registry's tools.
    pub fn with_deps(client: ApiClient, tool_registry: ToolRegistry, model: String, work_dir: String) -> (r:
        Engine)
        ensures
            r@.client == client@,
            r@.tools == tool_registry@,
            r@.turn_count == 0,
            r@.work_dir == work_dir@,
            r@.pending.len() == 0,
            r@.conversation.model == model@,
            r@.conversation.thinking == "enabled"@,
            r@.conversation.reasoning_effort == "high"@,
            !r@.conversation.stream,
            r@.conversation.tools == tool_registry@.schemas,
            r@.conversation.messages.len() == 1,
            r@.conversation.messages[0] matches Message::System { content } && content@
                == system_prompt(work_dir@),
    {
        let schemas = tool_registry.schemas();
        let conversation = Conversation::new(model, schemas);
        let head = concat3("You are a coding agent at ", work_dir.as_str(), ". Use tools to solve tasks. Act first, then report clearly");
        let mut e = Engine {
            client,
            conversation,
            tool_registry,
            turn_count: 0,
            work_dir,
            pending: Vec::new(),
        };
        e.conversation.push_system(head);
        e
    }

    /// The conversation so far.
    pub fn conversation(&self) -> (r: &Conversation)
        ensures
            r@ == self@.conversation,
    {
        &self.conversation
    }

    /// The client.
    pub fn client(&self) -> (r: &ApiClient)
        ensures
            r@ == self@.client,
    {
        &self.client
    }

    /// The tools on offer.
    pub fn tool_registry(&self) -> (r: &ToolRegistry)
        ensures
            r@ == self@.tools,
    {
        &self.tool_registry
    }

    /// The number of answers received so far.
    pub fn turn_count(&self) -> (r: u16)
        ensures
            r == self@.turn_count,
    {
        self.turn_count
    }

    /// The workspace.
    pub fn work_dir(&self) -> (r: &str)
        ensures
            r@ == self@.work_dir,
    {
        self.work_dir.as_str()
    }

    /// What to do first: read the user's input.
    pub fn start(&self) -> (r: EngineAction)
        ensures
            r is PromptUser,
            phase_of(r) == Phase::Prompt,
    {
        EngineAction::PromptUser
    }

    /// Takes a line the user typed.  A quit command (`/q`, `/exit`, `/quit`,
    /// around white space) ends the session and changes nothing; any other
    /// line, trimmed, is added as a user message and sent.
    pub fn on_user_input(&mut self, line: &str) -> (r: EngineAction)
        ensures
            is_quit(trim_spec(line@)) ==> r is Finish && final(self)@ == old(self)@,
            !is_quit(trim_spec(line@)) ==> r is SendRequest && exists|m: Message|
                final(self)@ == engine_with_message(old(self)@, m) && (m matches Message::User {
                    content,
                } && content@ == trim_spec(line@)),
            exists|kept: String|
                run_step(old(self)@, Phase::Prompt, RunEvent::Line { typed: line@, kept })
                    == Some((final(self)@, phase_of(r))),
    {
        let msg = trim(line);
        if str_eq(msg.as_str(), "/q") || str_eq(msg.as_str(), "/exit") || str_eq(
            msg.as_str(),
            "/quit",
        ) {
            assert(run_step(old(self)@, Phase::Prompt, RunEvent::Line { typed: line@, kept: msg })
                == Some((self@, Phase::Done)));
            EngineAction::Finish
        } else {
            let ghost m = Message::User { content: msg };
            self.conversation.push_user(msg);
            assert(self@ == engine_with_message(old(self)@, m));
            assert(run_step(old(self)@, Phase::Prompt, RunEvent::Line { typed: line@, kept: msg })
                == Some((self@, Phase::Send)));
            EngineAction::SendRequest
        }
    }

    /// Takes the model's answer: records it and counts the turn.  When the
    /// model stopped to call tools (and named some), those calls are to be
    /// run and now wait for their outputs; otherwise the user is asked again.
    pub fn on_response(&mut self, response: ParsedResponse) -> (r: EngineAction)
        requires
            old(self)@.turn_count < u16::MAX,
        ensures
            final(self)@ == engine_after_response(old(self)@, response),
            run_step(old(self)@, Phase::Send, RunEvent::Reply(response)) == Some(
                (final(self)@, phase_of(r)),
            ),
            response.finish_reason == FinishReason::ToolCalls && response.tool_calls@.len() > 0
                ==> r == EngineAction::RunTools(response.tool_calls),
            !(response.finish_reason == FinishReason::ToolCalls && response.tool_calls@.len() > 0)
                ==> r is PromptUser,
    {
        let ParsedResponse { message, finish_reason, tool_calls } = response;
        self.conversation.push_assistant(message);
        self.turn_count = self.turn_count + 1;
        match finish_reason {
            FinishReason::ToolCalls => {
                self.pending = clone_tool_calls(&tool_calls);
                if tool_calls.len() > 0 {
                    EngineAction::RunTools(tool_calls)
                } else {
                    EngineAction::PromptUser
                }
            },
            FinishReason::Stop => {
                self.pending = Vec::new();
                EngineAction::PromptUser
            },
        }
    }

    /// Takes the output of the next pending tool call: it is added as a tool
    /// message carrying that call's id, and the call no longer waits.  While
    /// calls still wait the next one is to be run; after the last one the
    /// conversation is sent again.  With no call pending nothing changes and
    /// the user is asked.
    pub fn on_tool_output(&mut self, content: String) -> (r: EngineAction)
        ensures
            final(self)@ == engine_after_output(old(self)@, content),
            old(self)@.pending.len() > 0 ==> run_step(old(self)@, Phase::Run, RunEvent::Output(content))
                == Some((final(self)@, phase_of(r))),
            old(self)@.pending.len() == 0 ==> r is PromptUser,
            old(self)@.pending.len() == 1 ==> r is SendRequest,
            old(self)@.pending.len() > 1 ==> (r matches EngineAction::RunTools(calls) && calls@
                == old(self)@.pending.drop_first()),
    {
        if self.pending.len() == 0 {
            return EngineAction::PromptUser;
        }
        let ghost before = self@;
        let call = self.pending.remove(0);
        proof {
            assert(self.pending@ =~= before.pending.drop_first());
        }
        self.conversation.push_tool_result(call.id, content);
        if self.pending.len() > 0 {
            EngineAction::RunTools(clone_tool_calls(&self.pending))
        } else {
            EngineAction::SendRequest
        }
    }

    /// Decides how to answer one tool call: `Ok` with the registered tool to
    /// run, or `Err` with the result for a tool that is not registered.
    pub fn resolve_tool(&self, call: &ToolCall) -> (r: Result<ToolFunctionType, ToolResult>)
        ensures
            self@.tools.kinds.contains(call.function.name) ==> r == Ok::<
                ToolFunctionType,
                ToolResult,
            >(call.function.name),
            !self@.tools.kinds.contains(call.function.name) ==> (r matches Err(res) && res.tool_use_id@
                == call.id@ && res.content@ == crate::tool_call::tool::not_found_message(
                call.function.name,
            )),
    {
        self.tool_registry.resolve(call.function.name, call.id.as_str())
    }
}

/// The line printed before running a tool call:
/// `the idx=<index> <name> <type> arguments: <arguments>`.
pub fn describe_tool_call(tc: &ToolCall) -> (r: String)
    ensures
        r@ == describe_spec(*tc),
{
    let idx = decimal_string(tc.index as u64);
    let a = concat3("the idx=", idx.as_str(), " ");
    let b = concat3(a.as_str(), tc.function.name.as_str(), " ");
    let c = concat3(b.as_str(), tc.call_type.as_str(), " arguments: ");
    concat2(c.as_str(), tc.function.arguments.as_str())
}

} // verus!
