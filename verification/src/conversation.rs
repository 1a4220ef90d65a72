//! The conversation memory (short term), independent of the language model.
use vstd::prelude::*;
use crate::json::{Json, JsonValue};

verus! {

/// A tool call requested by the language model.
#[derive(Debug)]
pub struct ToolCallReq {
    pub id: String,
    pub name: String,
    pub arguments: JsonValue,
}

/// The model of a tool call.
pub struct ToolCallView {
    pub id: Seq<char>,
    pub name: Seq<char>,
    pub arguments: Json,
}

impl View for ToolCallReq {
    type V = ToolCallView;

    open spec fn view(&self) -> ToolCallView {
        ToolCallView { id: self.id@, name: self.name@, arguments: self.arguments@ }
    }
}

impl ToolCallReq {
    /// A copy of the call.
    pub fn duplicate(&self) -> (r: ToolCallReq)
        ensures
            r@ == self@,
    {
        ToolCallReq {
            id: self.id.clone(),
            name: self.name.clone(),
            arguments: self.arguments.duplicate(),
        }
    }
}

/// The models of a sequence of tool calls.
pub open spec fn calls_view(calls: Seq<ToolCallReq>) -> Seq<ToolCallView> {
    calls.map_values(|c: ToolCallReq| c@)
}

/// Copies of a list of tool calls.
pub fn duplicate_calls(calls: &Vec<ToolCallReq>) -> (r: Vec<ToolCallReq>)
    ensures
        calls_view(r@) == calls_view(calls@),
{
    let mut out: Vec<ToolCallReq> = Vec::new();
    let mut i: usize = 0;
    while i < calls.len()
        invariant
            i <= calls.len(),
            out.len() == i,
            forall|k: int| 0 <= k < i ==> out@[k]@ == calls@[k]@,
        decreases calls.len() - i,
    {
        out.push(calls[i].duplicate());
        i = i + 1;
    }
    assert(calls_view(out@) =~= calls_view(calls@));
    out
}

/// A message of the conversation.
#[derive(Debug)]
pub enum Message {
    System { content: String },
    User { content: String },
    Assistant { content: String },
    /// Tool calls asked for by the language model (kept for multi-turn context).
    ToolCall { calls: Vec<ToolCallReq> },
    /// The result handed back to the language model after running a tool.
    ToolResult { call_id: String, content: String },
}

/// The model of a message.
pub enum MessageView {
    System { content: Seq<char> },
    User { content: Seq<char> },
    Assistant { content: Seq<char> },
    ToolCall { calls: Seq<ToolCallView> },
    ToolResult { call_id: Seq<char>, content: Seq<char> },
}

impl View for Message {
    type V = MessageView;

    open spec fn view(&self) -> MessageView {
        match self {
            Message::System { content } => MessageView::System { content: content@ },
            Message::User { content } => MessageView::User { content: content@ },
            Message::Assistant { content } => MessageView::Assistant { content: content@ },
            Message::ToolCall { calls } => MessageView::ToolCall { calls: calls_view(calls@) },
            Message::ToolResult { call_id, content } => MessageView::ToolResult {
                call_id: call_id@,
                content: content@,
            },
        }
    }
}

/// The models of a sequence of messages.
pub open spec fn messages_view(ms: Seq<Message>) -> Seq<MessageView> {
    ms.map_values(|m: Message| m@)
}

/// The sliding window: how many of the latest messages are sent to the
/// language model.
pub const CONTEXT_WINDOW: usize = 20;

/// Where the window starts in a history of `len` messages.
pub open spec fn window_start(len: nat) -> nat {
    if len > CONTEXT_WINDOW {
        (len - CONTEXT_WINDOW) as nat
    } else {
        0
    }
}

/// The latest messages of `history`, at most `CONTEXT_WINDOW` of them.
pub open spec fn window(history: Seq<MessageView>) -> Seq<MessageView> {
    history.subrange(window_start(history.len()) as int, history.len() as int)
}

/// Short-term conversation memory.
#[derive(Debug)]
pub struct Conversation {
    messages: Vec<Message>,
}

impl View for Conversation {
    type V = Seq<MessageView>;

    closed spec fn view(&self) -> Seq<MessageView> {
        messages_view(self.messages@)
    }
}

impl Conversation {
    /// An empty conversation.
    pub fn new() -> (r: Self)
        ensures
            r@ == Seq::<MessageView>::empty(),
    {
        let r = Conversation { messages: Vec::new() };
        assert(r@ =~= Seq::<MessageView>::empty());
        r
    }

    /// The number of messages.
    pub fn len(&self) -> (r: usize)
        ensures
            r == self@.len(),
    {
        self.messages.len()
    }

    /// Appends a message.
    pub fn push(&mut self, msg: Message)
        ensures
            final(self)@ == old(self)@.push(msg@),
    {
        self.messages.push(msg);
        assert(self@ =~= old(self)@.push(msg@));
    }

    /// The latest messages, at most `CONTEXT_WINDOW`: the whole history is
    /// not sent back to the language model.
    pub fn context(&self) -> (r: &[Message])
        ensures
            messages_view(r@) == window(self@),
    {
        let len = self.messages.len();
        let start = len.saturating_sub(CONTEXT_WINDOW);
        let r = &self.messages.as_slice()[start..len];
        assert(messages_view(r@) =~= window(self@));
        r
    }

    /// Forgets the whole conversation.
    pub fn reset(&mut self)
        ensures
            final(self)@ == Seq::<MessageView>::empty(),
    {
        self.messages.clear();
        assert(self@ =~= Seq::<MessageView>::empty());
    }
}

impl Default for Conversation {
    fn default() -> (r: Self)
        ensures
            r@ == Seq::<MessageView>::empty(),
    {
        Conversation::new()
    }
}

/// The window never holds more than `CONTEXT_WINDOW` messages, and holds the
/// whole history while it is no longer than that.
pub proof fn law_window_size(history: Seq<MessageView>)
    ensures
        window(history).len() <= CONTEXT_WINDOW,
        history.len() <= CONTEXT_WINDOW ==> window(history) == history,
        history.len() >= CONTEXT_WINDOW ==> window(history).len() == CONTEXT_WINDOW,
{
    if history.len() <= CONTEXT_WINDOW {
        assert(window(history) =~= history);
    }
}

/// The message just pushed is always the last one the language model sees,
/// and the window keeps the order of the history: it is its suffix.
pub proof fn law_latest_message_in_window(history: Seq<MessageView>, msg: MessageView)
    ensures
        window(history.push(msg)).len() > 0,
        window(history.push(msg)).last() == msg,
        window(history) =~= history.skip(window_start(history.len()) as int),
{
}

} // verus!
