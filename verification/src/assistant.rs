//! Edith's main loop, as a state machine: language model, then tools (with
//! permissions), then the answer. The caller performs each action — asking
//! the model, running a tool — and hands back what came of it.
use vstd::prelude::*;
use crate::brain::{BrainReply, ToolDef, defs_view};
use crate::conversation::{
    Conversation, Message, MessageView, ToolCallReq, ToolCallView, calls_view, duplicate_calls,
    messages_view, window,
};
use crate::security::{Verdict, check, requires_confirmation};
use crate::tools::{EntryView, Registry, ToolInfo, lists_tools};
use crate::text::{str_eq, trim, trimmed};

verus! {

/// The largest number of language-model rounds for a single request.
pub const MAX_TOOL_ROUNDS: usize = 5;

/// The answer once the rounds are used up.
pub const ROUND_LIMIT_REPLY: &'static str = "J'ai atteint la limite d'actions pour cette demande, je m'arrête là.";

/// What a line typed by the user asks for.
pub enum InputCommand {
    /// Nothing was typed.
    Empty,
    /// Leave.
    Exit,
    /// Forget the conversation.
    Reset,
    /// A request for the assistant, trimmed.
    Request(String),
}

/// The model of what a typed line asks for.
pub enum InputCommandView {
    Empty,
    Exit,
    Reset,
    Request(Seq<char>),
}

impl View for InputCommand {
    type V = InputCommandView;

    open spec fn view(&self) -> InputCommandView {
        match self {
            InputCommand::Empty => InputCommandView::Empty,
            InputCommand::Exit => InputCommandView::Exit,
            InputCommand::Reset => InputCommandView::Reset,
            InputCommand::Request(t) => InputCommandView::Request(t@),
        }
    }
}

/// What a typed line asks for, once trimmed: nothing, `exit`, `reset`, or a
/// request.
pub open spec fn command_of_line(line: Seq<char>) -> InputCommandView {
    let t = trimmed(line);
    if t.len() == 0 {
        InputCommandView::Empty
    } else if t == "exit"@ {
        InputCommandView::Exit
    } else if t == "reset"@ {
        InputCommandView::Reset
    } else {
        InputCommandView::Request(t)
    }
}

/// What a typed line asks for.
pub fn command_of(line: &str) -> (r: InputCommand)
    ensures
        r@ == command_of_line(line@),
{
    let t = trim(line);
    if t.as_str().is_empty() {
        InputCommand::Empty
    } else if str_eq(t.as_str(), "exit") {
        InputCommand::Exit
    } else if str_eq(t.as_str(), "reset") {
        InputCommand::Reset
    } else {
        InputCommand::Request(t)
    }
}

/// What the caller must do next.
pub enum Action {
    /// Ask the language model, with `context()` and `definitions()`, then
    /// hand its reply to `on_reply`.
    Chat,
    /// Run the registered tool named by the call with its arguments, then
    /// hand the outcome to `tool_done`.
    RunTool(ToolCallReq),
    /// The answer to the user's request.
    Reply(String),
}

/// The model of an action.
pub enum ActionView {
    Chat,
    RunTool(ToolCallView),
    Reply(Seq<char>),
}

impl View for Action {
    type V = ActionView;

    open spec fn view(&self) -> ActionView {
        match self {
            Action::Chat => ActionView::Chat,
            Action::RunTool(c) => ActionView::RunTool(c@),
            Action::Reply(t) => ActionView::Reply(t@),
        }
    }
}

/// Whether the tool `name` may run right away: it is registered and its
/// level needs no confirmation.
pub open spec fn runnable<T>(tools: Map<Seq<char>, EntryView<T>>, name: Seq<char>) -> bool {
    tools.contains_key(name) && !requires_confirmation(tools[name].level)
}

/// The result given for a call of a tool that does not exist.
pub open spec fn unknown_tool_text(name: Seq<char>) -> Seq<char> {
    "Erreur : l'outil '"@ + name + "' n'existe pas."@
}

/// The result given for a call of a tool that needs the user's confirmation.
pub open spec fn refused_text(name: Seq<char>) -> Seq<char> {
    "Refusé : confirmation requise pour '"@ + name + "'."@
}

/// The result given for a call that does not run.
pub open spec fn not_run_text<T>(tools: Map<Seq<char>, EntryView<T>>, name: Seq<char>) -> Seq<
    char,
> {
    if tools.contains_key(name) {
        refused_text(name)
    } else {
        unknown_tool_text(name)
    }
}

/// The result given once a tool ran: its output, or its error.
pub open spec fn outcome_text(name: Seq<char>, outcome: Result<Seq<char>, Seq<char>>) -> Seq<char> {
    match outcome {
        Ok(out) => out,
        Err(e) => "Erreur pendant '"@ + name + "': "@ + e,
    }
}

/// The first call, from position `i` on, that may run (the number of calls
/// when none may).
pub open spec fn first_runnable<T>(
    calls: Seq<ToolCallView>,
    i: nat,
    tools: Map<Seq<char>, EntryView<T>>,
) -> nat
    decreases calls.len() - i,
{
    if i >= calls.len() {
        calls.len()
    } else if runnable(tools, calls[i as int].name) {
        i
    } else {
        first_runnable(calls, i + 1, tools)
    }
}

/// The results of the calls, from position `i` on, that are answered
/// without running, up to the first one that may run.
pub open spec fn skipped_results<T>(
    calls: Seq<ToolCallView>,
    i: nat,
    tools: Map<Seq<char>, EntryView<T>>,
) -> Seq<MessageView>
    decreases calls.len() - i,
{
    if i >= calls.len() || runnable(tools, calls[i as int].name) {
        Seq::empty()
    } else {
        seq![
            MessageView::ToolResult {
                call_id: calls[i as int].id,
                content: not_run_text(tools, calls[i as int].name),
            },
        ] + skipped_results(calls, i + 1, tools)
    }
}

/// What follows once the calls before position `from` are handled: run the
/// next call that may run; else ask the model again while rounds are left;
/// else give up with `ROUND_LIMIT_REPLY`.
pub open spec fn next_action<T>(
    calls: Seq<ToolCallView>,
    from: nat,
    tools: Map<Seq<char>, EntryView<T>>,
    chats: nat,
) -> ActionView {
    let j = first_runnable(calls, from, tools);
    if j < calls.len() {
        ActionView::RunTool(calls[j as int])
    } else if chats < MAX_TOOL_ROUNDS {
        ActionView::Chat
    } else {
        ActionView::Reply(ROUND_LIMIT_REPLY@)
    }
}

proof fn lemma_first_runnable<T>(calls: Seq<ToolCallView>, i: nat, tools: Map<Seq<char>, EntryView<T>>)
    requires
        i <= calls.len(),
    ensures
        i <= first_runnable(calls, i, tools) <= calls.len(),
        first_runnable(calls, i, tools) < calls.len() ==> runnable(
            tools,
            calls[first_runnable(calls, i, tools) as int].name,
        ),
        forall|k: int|
            i <= k < first_runnable(calls, i, tools) ==> !runnable(tools, #[trigger] calls[k].name),
    decreases calls.len() - i,
{
    if i < calls.len() && !runnable(tools, calls[i as int].name) {
        lemma_first_runnable(calls, i + 1, tools);
    }
}

/// The phase of a request.
pub enum Phase {
    /// No request under way.
    Idle,
    /// Waiting for the language model's reply.
    AwaitingReply,
    /// Waiting for the outcome of the tool call at the cursor.
    AwaitingTool,
}

/// The assistant: its tools, its conversation, and where the current
/// request stands.
pub struct Assistant<T: ToolInfo> {
    tools: Registry<T>,
    conversation: Conversation,
    /// Language-model rounds used by the current request.
    chats: usize,
    /// The tool calls of the latest reply.
    pending: Vec<ToolCallReq>,
    /// The next call of `pending` to handle.
    cursor: usize,
    phase: Phase,
}

impl<T: ToolInfo> Assistant<T> {
    /// The registered tools.
    pub closed spec fn tools(&self) -> Map<Seq<char>, EntryView<T>> {
        self.tools@
    }

    /// The whole conversation.
    pub closed spec fn history(&self) -> Seq<MessageView> {
        self.conversation@
    }

    /// Language-model rounds used by the current request.
    pub closed spec fn chats(&self) -> nat {
        self.chats as nat
    }

    /// The tool calls of the latest reply.
    pub closed spec fn pending(&self) -> Seq<ToolCallView> {
        calls_view(self.pending@)
    }

    /// The next call of `pending()` to handle.
    pub closed spec fn cursor(&self) -> nat {
        self.cursor as nat
    }

    /// Whether the assistant waits for the outcome of the call at the cursor.
    pub closed spec fn awaits_tool(&self) -> bool {
        self.phase is AwaitingTool
    }

    /// The assistant's invariant: the rounds stay within the limit, the
    /// cursor within the calls, and a call awaited is one that may run.
    #[verifier::type_invariant]
    spec fn wf(&self) -> bool {
        &&& self.chats <= MAX_TOOL_ROUNDS
        &&& self.cursor <= self.pending.len()
        &&& self.phase is AwaitingTool ==> {
            &&& self.cursor < self.pending.len()
            &&& runnable(self.tools@, self.pending@[self.cursor as int].name@)
        }
    }

    /// A new assistant with the given tools and an empty conversation.
    pub fn new(tools: Registry<T>) -> (r: Self)
        ensures
            r.tools() == tools@,
            r.history() == Seq::<MessageView>::empty(),
            r.chats() == 0,
            !r.awaits_tool(),
    {
        Assistant {
            tools,
            conversation: Conversation::new(),
            chats: 0,
            pending: Vec::new(),
            cursor: 0,
            phase: Phase::Idle,
        }
    }

    /// The latest messages, for the language model.
    pub fn context(&self) -> (r: &[Message])
        ensures
            messages_view(r@) == window(self.history()),
    {
        self.conversation.context()
    }

    /// The definitions of the registered tools, for the language model.
    pub fn definitions(&self) -> (r: Vec<ToolDef>)
        ensures
            lists_tools(self.tools(), defs_view(r@)),
    {
        self.tools.definitions()
    }

    /// The registered tool named `name`.
    pub fn tool(&self, name: &str) -> (r: Option<&T>)
        ensures
            r is None <==> !self.tools().contains_key(name@),
            r matches Some(t) ==> *t == self.tools()[name@].tool,
    {
        self.tools.get(name)
    }

    /// Whether the assistant waits for the outcome of a tool.
    pub fn awaiting_tool(&self) -> (r: bool)
        ensures
            r == self.awaits_tool(),
    {
        match self.phase {
            Phase::AwaitingTool => true,
            _ => false,
        }
    }

    /// Starts handling the user's request `input`: it joins the conversation
    /// and the language model is asked.
    pub fn start(&mut self, input: &str) -> (r: Action)
        ensures
            final(self).tools() == old(self).tools(),
            final(self).history() == old(self).history().push(
                MessageView::User { content: input@ },
            ),
            final(self).chats() == 1,
            !final(self).awaits_tool(),
            r@ == ActionView::Chat,
    {
        proof {
            use_type_invariant(&*self);
        }
        self.phase = Phase::AwaitingReply;
        self.record(Message::User { content: input.to_owned() });
        self.cursor = 0;
        self.pending = Vec::new();
        self.chats = 1;
        Action::Chat
    }

    /// Takes the language model's reply. An answer ends the request; tool
    /// calls join the conversation, those that cannot run are answered at
    /// once, and the first one that may run is to be run.
    pub fn on_reply(&mut self, reply: BrainReply) -> (r: Action)
        ensures
            final(self).tools() == old(self).tools(),
            match reply@ {
                crate::brain::BrainReplyView::Answer(text) => {
                    &&& r@ == ActionView::Reply(text)
                    &&& final(self).history() == old(self).history().push(
                        MessageView::Assistant { content: text },
                    )
                    &&& final(self).chats() == old(self).chats()
                    &&& !final(self).awaits_tool()
                },
                crate::brain::BrainReplyView::ToolCalls(calls) => {
                    &&& r@ == next_action(calls, 0, old(self).tools(), old(self).chats())
                    &&& final(self).history() == old(self).history().push(
                        MessageView::ToolCall { calls },
                    ) + skipped_results(calls, 0, old(self).tools())
                    &&& final(self).pending() == calls
                    &&& final(self).chats() == if r@ is Chat {
                        old(self).chats() + 1
                    } else {
                        old(self).chats()
                    }
                    &&& (r@ is RunTool) == final(self).awaits_tool()
                    &&& final(self).awaits_tool() ==> final(self).cursor() == first_runnable(
                        calls,
                        0,
                        old(self).tools(),
                    )
                },
            },
    {
        proof {
            use_type_invariant(&*self);
        }
        self.phase = Phase::Idle;
        match reply {
            BrainReply::Answer(text) => {
                self.record(Message::Assistant { content: text.clone() });
                Action::Reply(text)
            },
            BrainReply::ToolCalls(calls) => {
                let copy = duplicate_calls(&calls);
                self.record(Message::ToolCall { calls: copy });
                self.cursor = 0;
                self.pending = calls;
                self.advance()
            },
        }
    }

    /// Takes the outcome of the tool awaited: it joins the conversation as
    /// that call's result, then the remaining calls are handled.
    pub fn tool_done(&mut self, outcome: Result<String, String>) -> (r: Action)
        requires
            old(self).awaits_tool(),
        ensures
            final(self).tools() == old(self).tools(),
            final(self).pending() == old(self).pending(),
            ({
                let calls = old(self).pending();
                let c = calls[old(self).cursor() as int];
                let out = match outcome {
                    Ok(o) => Ok(o@),
                    Err(e) => Err(e@),
                };
                &&& r@ == next_action(calls, old(self).cursor() + 1, old(self).tools(), old(self).chats())
                &&& final(self).history() == old(self).history().push(
                    MessageView::ToolResult { call_id: c.id, content: outcome_text(c.name, out) },
                ) + skipped_results(calls, old(self).cursor() + 1, old(self).tools())
                &&& final(self).chats() == if r@ is Chat {
                    old(self).chats() + 1
                } else {
                    old(self).chats()
                }
                &&& (r@ is RunTool) == final(self).awaits_tool()
                &&& final(self).awaits_tool() ==> final(self).cursor() == first_runnable(
                    calls,
                    old(self).cursor() + 1,
                    old(self).tools(),
                )
            }),
    {
        proof {
            use_type_invariant(&*self);
        }
        let i = self.cursor;
        let content = match outcome {
            Ok(out) => out,
            Err(e) => {
                let mut s = String::from_str("Erreur pendant '");
                s.append(self.pending[i].name.as_str());
                s.append("': ");
                s.append(e.as_str());
                s
            },
        };
        let id = self.pending[i].id.clone();
        self.phase = Phase::Idle;
        self.record(Message::ToolResult { call_id: id, content });
        self.cursor = i + 1;
        self.advance()
    }

    /// Adds a message to the conversation.
    fn record(&mut self, msg: Message)
        ensures
            final(self).history() == old(self).history().push(msg@),
            final(self).tools == old(self).tools,
            final(self).pending == old(self).pending,
            final(self).cursor == old(self).cursor,
            final(self).chats == old(self).chats,
            final(self).phase == old(self).phase,
    {
        proof {
            use_type_invariant(&*self);
        }
        let mut conversation = Conversation::new();
        std::mem::swap(&mut conversation, &mut self.conversation);
        conversation.push(msg);
        self.conversation = conversation;
    }

    /// Answers the pending calls that cannot run, from the cursor on, up to
    /// the first one that may; then runs it, or asks the model again, or
    /// gives up.
    fn advance(&mut self) -> (r: Action)
        requires
            !(old(self).phase is AwaitingTool),
        ensures
            final(self).tools == old(self).tools,
            final(self).pending == old(self).pending,
            r@ == next_action(old(self).pending(), old(self).cursor(), old(self).tools(), old(self).chats()),
            final(self).history() == old(self).history() + skipped_results(
                old(self).pending(),
                old(self).cursor(),
                old(self).tools(),
            ),
            final(self).chats() == if r@ is Chat {
                old(self).chats() + 1
            } else {
                old(self).chats()
            },
            (r@ is RunTool) == final(self).awaits_tool(),
            final(self).awaits_tool() ==> final(self).cursor() == first_runnable(
                old(self).pending(),
                old(self).cursor(),
                old(self).tools(),
            ),
    {
        proof {
            use_type_invariant(&*self);
        }
        let ghost calls = self.pending();
        let ghost tools = self.tools();
        let ghost start = self.cursor as nat;
        let ghost h0 = self.history();
        proof {
            lemma_first_runnable(calls, start, tools);
        }
        while self.cursor < self.pending.len()
            invariant
                calls == old(self).pending(),
                tools == old(self).tools(),
                start == old(self).cursor(),
                h0 == old(self).history(),
                calls == calls_view(self.pending@),
                tools == self.tools@,
                self.tools == old(self).tools,
                self.pending == old(self).pending,
                self.chats == old(self).chats,
                self.chats <= MAX_TOOL_ROUNDS,
                !(self.phase is AwaitingTool),
                start <= self.cursor <= self.pending.len(),
                first_runnable(calls, start, tools) == first_runnable(calls, self.cursor as nat, tools),
                self.history() + skipped_results(calls, self.cursor as nat, tools) == h0
                    + skipped_results(calls, start, tools),
            decreases self.pending.len() - self.cursor,
        {
            let i = self.cursor;
            let level = self.tools.level_of(self.pending[i].name.as_str());
            let content = match level {
                None => {
                    let mut s = String::from_str("Erreur : l'outil '");
                    s.append(self.pending[i].name.as_str());
                    s.append("' n'existe pas.");
                    s
                },
                Some(l) => match check(l, self.pending[i].name.as_str()) {
                    Verdict::Allowed => {
                        self.phase = Phase::AwaitingTool;
                        proof {
                            assert(calls[i as int] == self.pending@[i as int]@);
                            assert(runnable(tools, calls[i as int].name));
                            assert(first_runnable(calls, i as nat, tools) == i);
                            assert(skipped_results(calls, i as nat, tools) =~= Seq::empty());
                            assert(self.history() =~= h0 + skipped_results(calls, start, tools));
                        }
                        return Action::RunTool(self.pending[i].duplicate());
                    },
                    Verdict::NeedsConfirmation { .. } => {
                        let mut s = String::from_str("Refusé : confirmation requise pour '");
                        s.append(self.pending[i].name.as_str());
                        s.append("'.");
                        s
                    },
                },
            };
            let id = self.pending[i].id.clone();
            let ghost before = self.history();
            self.record(Message::ToolResult { call_id: id, content });
            proof {
                assert(!runnable(tools, calls[i as int].name));
                let m = MessageView::ToolResult {
                    call_id: calls[i as int].id,
                    content: not_run_text(tools, calls[i as int].name),
                };
                assert(self.history() == before.push(m));
                assert(skipped_results(calls, i as nat, tools) == seq![m] + skipped_results(
                    calls,
                    (i + 1) as nat,
                    tools,
                ));
                assert(self.history() + skipped_results(calls, (i + 1) as nat, tools) =~= before
                    + skipped_results(calls, i as nat, tools));
            }
            self.cursor = i + 1;
        }
        proof {
            assert(skipped_results(calls, self.cursor as nat, tools) =~= Seq::empty());
            assert(self.history() =~= h0 + skipped_results(calls, start, tools));
        }
        if self.chats < MAX_TOOL_ROUNDS {
            self.chats = self.chats + 1;
            self.phase = Phase::AwaitingReply;
            Action::Chat
        } else {
            self.phase = Phase::Idle;
            Action::Reply(String::from_str(ROUND_LIMIT_REPLY))
        }
    }
}

/// Nothing runs without passing the guard: whatever the calls, the tools and
/// the rounds used, a tool the assistant asks to run is a registered one
/// whose level needs no confirmation, and it is one of the calls from the
/// cursor on.
pub proof fn law_only_permitted_tools_run<T>(
    calls: Seq<ToolCallView>,
    from: nat,
    tools: Map<Seq<char>, EntryView<T>>,
    chats: nat,
)
    requires
        from <= calls.len(),
    ensures
        next_action(calls, from, tools, chats) matches ActionView::RunTool(c) ==> {
            &&& runnable(tools, c.name)
            &&& tools.contains_key(c.name)
            &&& !requires_confirmation(tools[c.name].level)
            &&& exists|j: int| from <= j < calls.len() && calls[j] == c
        },
{
    lemma_first_runnable(calls, from, tools);
    let j = first_runnable(calls, from, tools);
    if j < calls.len() {
        assert(calls[j as int] == calls[j as int]);
    }
}

/// The language model is asked at most `MAX_TOOL_ROUNDS` times per request:
/// a request starts with one round, and another round is only asked for
/// while fewer than `MAX_TOOL_ROUNDS` were used.
pub proof fn law_round_budget<T>(
    calls: Seq<ToolCallView>,
    from: nat,
    tools: Map<Seq<char>, EntryView<T>>,
    chats: nat,
)
    ensures
        next_action(calls, from, tools, chats) is Chat ==> chats + 1 <= MAX_TOOL_ROUNDS,
        chats >= MAX_TOOL_ROUNDS && first_runnable(calls, from, tools) >= calls.len()
            ==> next_action(calls, from, tools, chats) == ActionView::Reply(ROUND_LIMIT_REPLY@),
{
}

/// A call that cannot run is answered at once, under its id: with an error
/// when the tool does not exist, with a refusal when it needs confirmation.
pub proof fn law_refused_calls_are_answered<T>(
    calls: Seq<ToolCallView>,
    i: nat,
    tools: Map<Seq<char>, EntryView<T>>,
)
    requires
        i < calls.len(),
        !runnable(tools, calls[i as int].name),
    ensures
        skipped_results(calls, i, tools).len() > 0,
        skipped_results(calls, i, tools)[0] == (MessageView::ToolResult {
            call_id: calls[i as int].id,
            content: if tools.contains_key(calls[i as int].name) {
                refused_text(calls[i as int].name)
            } else {
                unknown_tool_text(calls[i as int].name)
            },
        }),
        tools.contains_key(calls[i as int].name) ==> requires_confirmation(
            tools[calls[i as int].name].level,
        ),
{
}

/// The result a call receives: what its tool gave when it may run, else
/// the error or the refusal.
pub open spec fn result_for<T>(
    c: ToolCallView,
    tools: Map<Seq<char>, EntryView<T>>,
    outcome: Result<Seq<char>, Seq<char>>,
) -> MessageView {
    MessageView::ToolResult {
        call_id: c.id,
        content: if runnable(tools, c.name) {
            outcome_text(c.name, outcome)
        } else {
            not_run_text(tools, c.name)
        },
    }
}

/// The results of the calls from position `i` on, one per call and in
/// order, given the outcome of each tool that runs.
pub open spec fn all_results<T>(
    calls: Seq<ToolCallView>,
    i: nat,
    tools: Map<Seq<char>, EntryView<T>>,
    outcomes: Seq<Result<Seq<char>, Seq<char>>>,
) -> Seq<MessageView>
    decreases calls.len() - i,
{
    if i >= calls.len() {
        Seq::empty()
    } else {
        seq![result_for(calls[i as int], tools, outcomes[i as int])] + all_results(
            calls,
            i + 1,
            tools,
            outcomes,
        )
    }
}

/// Every call of a reply is answered exactly once, in order, under its id:
/// the results that `on_reply` and each `tool_done` add (the calls that
/// cannot run, then the outcome of the one that ran, then the next ones)
/// make up, step after step, one result per call.
pub proof fn law_each_call_answered_once<T>(
    calls: Seq<ToolCallView>,
    i: nat,
    tools: Map<Seq<char>, EntryView<T>>,
    outcomes: Seq<Result<Seq<char>, Seq<char>>>,
)
    requires
        i <= calls.len(),
    ensures
        ({
            let j = first_runnable(calls, i, tools);
            all_results(calls, i, tools, outcomes) == skipped_results(calls, i, tools) + if j
                < calls.len() {
                seq![
                    MessageView::ToolResult {
                        call_id: calls[j as int].id,
                        content: outcome_text(calls[j as int].name, outcomes[j as int]),
                    },
                ] + all_results(calls, j + 1, tools, outcomes)
            } else {
                Seq::empty()
            }
        }),
        all_results(calls, i, tools, outcomes).len() == calls.len() - i,
        forall|k: int|
            0 <= k < calls.len() - i ==> (#[trigger] all_results(calls, i, tools, outcomes)[k])
                is ToolResult && all_results(calls, i, tools, outcomes)[k]->ToolResult_call_id
                == calls[i + k].id,
    decreases calls.len() - i,
{
    if i < calls.len() {
        law_each_call_answered_once(calls, i + 1, tools, outcomes);
        let rest = all_results(calls, i + 1, tools, outcomes);
        let head = result_for(calls[i as int], tools, outcomes[i as int]);
        assert(all_results(calls, i, tools, outcomes) == seq![head] + rest);
        if runnable(tools, calls[i as int].name) {
            assert(skipped_results(calls, i, tools) =~= Seq::<MessageView>::empty());
            assert(all_results(calls, i, tools, outcomes) =~= skipped_results(calls, i, tools) + (
            seq![head] + rest));
        } else {
            let sk = skipped_results(calls, i + 1, tools);
            assert(skipped_results(calls, i, tools) == seq![head] + sk);
        }
        assert forall|k: int| 0 <= k < calls.len() - i implies (#[trigger] all_results(
            calls,
            i,
            tools,
            outcomes,
        )[k]) is ToolResult && all_results(calls, i, tools, outcomes)[k]->ToolResult_call_id
            == calls[i + k].id by {
            if k > 0 {
                assert(all_results(calls, i, tools, outcomes)[k] == rest[k - 1]);
            }
        }
    } else {
        assert(all_results(calls, i, tools, outcomes) =~= Seq::<MessageView>::empty());
        assert(skipped_results(calls, i, tools) =~= Seq::<MessageView>::empty());
    }
}

} // verus!
