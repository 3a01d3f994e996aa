//! The request payload of the chat API together with the message history.
use vstd::prelude::*;
use crate::llm::response::{calls_view, ResponseMessage};
use crate::text::{concat2, concat3};
use crate::tool_call::tool::{clone_tool_calls, SchemaView, ToolCall, ToolSchema};

verus! {

/// One message of the history.
#[derive(Debug)]
pub enum Message {
    System { content: String },
    Assistant { content: String, reasoning_content: String, tool_calls: Option<Vec<ToolCall>> },
    User { content: String },
    Tool { content: String, tool_call_id: String },
}

/// Two messages hold the same text and the same tool calls.
pub open spec fn same_message(a: Message, b: Message) -> bool {
    match (a, b) {
        (Message::System { content: x }, Message::System { content: y }) => x == y,
        (
            Message::Assistant { content: x, reasoning_content: rx, tool_calls: tx },
            Message::Assistant { content: y, reasoning_content: ry, tool_calls: ty },
        ) => x == y && rx == ry && calls_view(tx) == calls_view(ty),
        (Message::User { content: x }, Message::User { content: y }) => x == y,
        (
            Message::Tool { content: x, tool_call_id: ix },
            Message::Tool { content: y, tool_call_id: iy },
        ) => x == y && ix == iy,
        _ => false,
    }
}

impl Clone for Message {
    fn clone(&self) -> (r: Message)
        ensures
            same_message(r, *self),
    {
        match self {
            Message::System { content } => Message::System { content: content.clone() },
            Message::Assistant { content, reasoning_content, tool_calls } => Message::Assistant {
                content: content.clone(),
                reasoning_content: reasoning_content.clone(),
                tool_calls: match tool_calls {
                    Some(v) => Some(clone_tool_calls(v)),
                    None => None,
                },
            },
            Message::User { content } => Message::User { content: content.clone() },
            Message::Tool { content, tool_call_id } => Message::Tool {
                content: content.clone(),
                tool_call_id: tool_call_id.clone(),
            },
        }
    }
}

/// The line that opens a printed message: forty `>`.
pub open spec fn banner_open() -> Seq<char> {
    Seq::new(40, |i: int| '>')
}

/// The line that closes a printed message: forty `<`.
pub open spec fn banner_close() -> Seq<char> {
    Seq::new(40, |i: int| '<')
}

/// How a message is printed.  A tool message shows its call id, not its
/// content.
pub open spec fn render_spec(m: Message) -> Seq<char> {
    let tail = seq!['\n'] + banner_close() + "\n\n"@;
    match m {
        Message::System { content } => banner_open() + "\nsystem:\n"@ + content@ + tail,
        Message::Assistant { content, reasoning_content, .. } => banner_open()
            + "\nreasoning_content:\n"@ + reasoning_content@ + "\nassistant:\n"@ + content@ + tail,
        Message::User { content } => banner_open() + "\nuser:\n"@ + content@ + tail,
        Message::Tool { tool_call_id, .. } => banner_open() + "\ntool("@ + tool_call_id@
            + "):\n"@ + "muted now"@ + tail,
    }
}

/// A run of `n` copies of `c`.
fn repeat_char(c: char, n: usize) -> (r: String)
    ensures
        r@ == Seq::new(n as nat, |i: int| c),
{
    let mut s = String::new();
    let mut i: usize = 0;
    while i < n
        invariant
            i <= n,
            s@ == Seq::new(i as nat, |j: int| c),
        decreases n - i,
    {
        crate::text::push_char(&mut s, c);
        assert(s@ =~= Seq::new((i + 1) as nat, |j: int| c));
        i = i + 1;
    }
    s
}

impl Message {
    /// How the message is printed.
    pub fn render(&self) -> (r: String)
        ensures
            r@ == render_spec(*self),
    {
        let begin = repeat_char('>', 40);
        let end = repeat_char('<', 40);
        let tail = concat3("\n", end.as_str(), "\n\n");
        proof {
            reveal_strlit("\n");
            assert(begin@ =~= banner_open());
            assert(end@ =~= banner_close());
            assert("\n"@ =~= seq!['\n']);
        }
        let head = match self {
            Message::System { content } => {
                let h = concat3(begin.as_str(), "\nsystem:\n", content.as_str());
                h
            },
            Message::Assistant { content, reasoning_content, .. } => {
                let a = concat3(begin.as_str(), "\nreasoning_content:\n", reasoning_content.as_str());
                concat3(a.as_str(), "\nassistant:\n", content.as_str())
            },
            Message::User { content } => concat3(begin.as_str(), "\nuser:\n", content.as_str()),
            Message::Tool { tool_call_id, .. } => {
                let a = concat3(begin.as_str(), "\ntool(", tool_call_id.as_str());
                concat3(a.as_str(), "):\n", "muted now")
            },
        };
        concat2(head.as_str(), tail.as_str())
    }
}

/// The request payload: the model, the message history, and the fixed
/// request options (thinking enabled, high reasoning effort, no streaming,
/// the tool definitions).
#[derive(Debug)]
pub struct Conversation {
    model: String,
    messages: Vec<Message>,
    thinking: String,
    reasoning_effort: String,
    stream: bool,
    tools: Vec<ToolSchema>,
}

/// A conversation, as the specifications see it.
pub struct ConversationView {
    pub model: Seq<char>,
    pub messages: Seq<Message>,
    /// The `type` of the `thinking` option.
    pub thinking: Seq<char>,
    pub reasoning_effort: Seq<char>,
    pub stream: bool,
    pub tools: Seq<SchemaView>,
}

impl View for Conversation {
    type V = ConversationView;

    closed spec fn view(&self) -> ConversationView {
        ConversationView {
            model: self.model@,
            messages: self.messages@,
            thinking: self.thinking@,
            reasoning_effort: self.reasoning_effort@,
            stream: self.stream,
            tools: self.tools@.map_values(|t: ToolSchema| t@),
        }
    }
}

/// `c` with one more message; everything else unchanged.
pub open spec fn with_message(c: ConversationView, m: Message) -> ConversationView {
    ConversationView { messages: c.messages.push(m), ..c }
}

impl Conversation {
    /// A conversation with no messages, for `model`, offering `tool_schemas`.
    pub fn new(model: String, tool_schemas: Vec<ToolSchema>) -> (r: Conversation)
        ensures
            r@.model == model@,
            r@.messages == Seq::<Message>::empty(),
            r@.thinking == "enabled"@,
            r@.reasoning_effort == "high"@,
            !r@.stream,
            r@.tools == tool_schemas@.map_values(|t: ToolSchema| t@),
    {
        Conversation {
            model,
            messages: Vec::new(),
            thinking: String::from_str("enabled"),
            reasoning_effort: String::from_str("high"),
            stream: false,
            tools: tool_schemas,
        }
    }

    /// Appends a message.
    pub fn push_message(&mut self, message: Message)
        ensures
            final(self)@ == with_message(old(self)@, message),
    {
        self.messages.push(message);
    }

    /// Appends a system message.
    pub fn push_system(&mut self, content: String)
        ensures
            final(self)@ == with_message(old(self)@, Message::System { content }),
    {
        self.push_message(Message::System { content });
    }

    /// Appends a user message.
    pub fn push_user(&mut self, content: String)
        ensures
            final(self)@ == with_message(old(self)@, Message::User { content }),
    {
        self.push_message(Message::User { content });
    }

    /// Appends the model's answer.
    pub fn push_assistant(&mut self, msg: ResponseMessage)
        ensures
            final(self)@ == with_message(
                old(self)@,
                Message::Assistant {
                    content: msg.content,
                    reasoning_content: msg.reasoning_content,
                    tool_calls: msg.tool_calls,
                },
            ),
    {
        self.push_message(
            Message::Assistant {
                content: msg.content,
                reasoning_content: msg.reasoning_content,
                tool_calls: msg.tool_calls,
            },
        );
    }

    /// Appends the result of a tool call.
    pub fn push_tool_result(&mut self, tool_call_id: String, content: String)
        ensures
            final(self)@ == with_message(old(self)@, Message::Tool { content, tool_call_id }),
    {
        self.push_message(Message::Tool { content, tool_call_id });
    }

    /// The message history.
    pub fn messages(&self) -> (r: &[Message])
        ensures
            r@ == self@.messages,
    {
        self.messages.as_slice()
    }

    /// The model the requests are for.
    pub fn model(&self) -> (r: &str)
        ensures
            r@ == self@.model,
    {
        self.model.as_str()
    }

    /// The `type` of the `thinking` option.
    pub fn thinking(&self) -> (r: &str)
        ensures
            r@ == self@.thinking,
    {
        self.thinking.as_str()
    }

    /// The reasoning effort asked for.
    pub fn reasoning_effort(&self) -> (r: &str)
        ensures
            r@ == self@.reasoning_effort,
    {
        self.reasoning_effort.as_str()
    }

    /// Whether the answer is streamed.
    pub fn stream(&self) -> (r: bool)
        ensures
            r == self@.stream,
    {
        self.stream
    }

    /// The tool definitions offered to the model.
    pub fn tools(&self) -> (r: &[ToolSchema])
        ensures
            r@.map_values(|t: ToolSchema| t@) == self@.tools,
    {
        self.tools.as_slice()
    }
}

} // verus!
