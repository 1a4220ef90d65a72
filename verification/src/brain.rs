//! The language model side: what it answers, how tools are described to it,
//! and the Ollama chat format (request body and reply).
use vstd::prelude::*;
use crate::conversation::{Message, MessageView, ToolCallReq, ToolCallView, calls_view, messages_view};
use crate::json::{Json, JsonValue, member, object, array, find_member};
use crate::text::{decimal, decimal_string};

verus! {

/// The model's reply: either a final answer, or tool calls.
#[derive(Debug)]
pub enum BrainReply {
    Answer(String),
    ToolCalls(Vec<ToolCallReq>),
}

/// The model of a reply.
pub enum BrainReplyView {
    Answer(Seq<char>),
    ToolCalls(Seq<ToolCallView>),
}

impl View for BrainReply {
    type V = BrainReplyView;

    open spec fn view(&self) -> BrainReplyView {
        match self {
            BrainReply::Answer(t) => BrainReplyView::Answer(t@),
            BrainReply::ToolCalls(calls) => BrainReplyView::ToolCalls(calls_view(calls@)),
        }
    }
}

/// A tool as the language model sees it.
#[derive(Debug)]
pub struct ToolDef {
    pub name: String,
    pub description: String,
    /// JSON schema of the parameters.
    pub parameters: JsonValue,
}

/// The model of a tool definition.
pub struct ToolDefView {
    pub name: Seq<char>,
    pub description: Seq<char>,
    pub parameters: Json,
}

impl View for ToolDef {
    type V = ToolDefView;

    open spec fn view(&self) -> ToolDefView {
        ToolDefView {
            name: self.name@,
            description: self.description@,
            parameters: self.parameters@,
        }
    }
}

impl ToolDef {
    /// A copy of the definition.
    pub fn duplicate(&self) -> (r: ToolDef)
        ensures
            r@ == self@,
    {
        ToolDef {
            name: self.name.clone(),
            description: self.description.clone(),
            parameters: self.parameters.duplicate(),
        }
    }
}

/// The system prompt: Edith, in French, tools only, no direct commands.
pub const SYSTEM_PROMPT: &'static str = "Tu es Edith, l'assistante vocale personnelle de l'utilisateur. \
Réponds en français, de façon concise et naturelle (la réponse sera lue à voix haute). \
Quand une demande correspond à un outil disponible, appelle cet outil plutôt que de deviner la réponse.";

/// The answer given when the model's reply holds no text.
pub const NO_ANSWER: &'static str = "Je n'ai pas réussi à formuler une réponse.";

/// `{"role": role, "content": content}`.
pub open spec fn role_message(role: Seq<char>, content: Seq<char>) -> Json {
    Json::Object(seq![("role"@, Json::Str(role)), ("content"@, Json::Str(content))])
}

/// `{"function": {"name": .., "arguments": ..}}`.
pub open spec fn call_json(c: ToolCallView) -> Json {
    Json::Object(
        seq![
            ("function"@, Json::Object(
                seq![("name"@, Json::Str(c.name)), ("arguments"@, c.arguments)],
            )),
        ],
    )
}

/// A message in Ollama's chat format.
pub open spec fn ollama_message(m: MessageView) -> Json {
    match m {
        MessageView::System { content } => role_message("system"@, content),
        MessageView::User { content } => role_message("user"@, content),
        MessageView::Assistant { content } => role_message("assistant"@, content),
        MessageView::ToolCall { calls } => Json::Object(
            seq![
                ("role"@, Json::Str("assistant"@)),
                ("tool_calls"@, Json::Array(calls.map_values(|c: ToolCallView| call_json(c)))),
            ],
        ),
        MessageView::ToolResult { call_id, content } => Json::Object(
            seq![
                ("role"@, Json::Str("tool"@)),
                ("tool_name"@, Json::Str(call_id)),
                ("content"@, Json::Str(content)),
            ],
        ),
    }
}

/// A tool in Ollama's chat format.
pub open spec fn tool_json(t: ToolDefView) -> Json {
    Json::Object(
        seq![
            ("type"@, Json::Str("function"@)),
            ("function"@, Json::Object(
                seq![
                    ("name"@, Json::Str(t.name)),
                    ("description"@, Json::Str(t.description)),
                    ("parameters"@, t.parameters),
                ],
            )),
        ],
    )
}

/// The body of a chat request: the model, the system prompt followed by the
/// context, no streaming, and the tools.
pub open spec fn chat_body_of(
    model: Seq<char>,
    context: Seq<MessageView>,
    tools: Seq<ToolDefView>,
) -> Json {
    Json::Object(
        seq![
            ("model"@, Json::Str(model)),
            ("messages"@, Json::Array(
                seq![role_message("system"@, SYSTEM_PROMPT@)] + context.map_values(
                    |m: MessageView| ollama_message(m),
                ),
            )),
            ("stream"@, Json::Bool(false)),
            ("tools"@, Json::Array(tools.map_values(|t: ToolDefView| tool_json(t)))),
        ],
    )
}

/// The text of a string, or the empty text.
pub open spec fn str_or_empty(s: Option<Seq<char>>) -> Seq<char> {
    match s {
        Some(t) => t,
        None => Seq::empty(),
    }
}

/// The tool call read from the `i`-th element of `message.tool_calls`.
pub open spec fn call_of(c: Json, i: nat) -> ToolCallView {
    ToolCallView {
        id: "call_"@ + decimal(i),
        name: str_or_empty(c.field("function"@).field("name"@).as_str()),
        arguments: c.field("function"@).field("arguments"@),
    }
}

/// What an Ollama chat reply means: the tool calls of `message.tool_calls`
/// when there is at least one, else the text of `message.content`, else
/// `NO_ANSWER`.
pub open spec fn reply_of(resp: Json) -> BrainReplyView {
    let msg = resp.field("message"@);
    let calls = msg.field("tool_calls"@).as_array();
    if calls is Some && calls->0.len() > 0 {
        BrainReplyView::ToolCalls(
            Seq::new(calls->0.len(), |i: int| call_of(calls->0[i], i as nat)),
        )
    } else {
        match msg.field("content"@).as_str() {
            Some(t) => BrainReplyView::Answer(t),
            None => BrainReplyView::Answer(NO_ANSWER@),
        }
    }
}

fn role_message_value(role: &str, content: &String) -> (r: JsonValue)
    ensures
        r@ == role_message(role@, content@),
{
    let r = object(
        vec![member("role", JsonValue::from_str(role)), member("content", JsonValue::Str(content.clone()))],
    );
    assert(r@->Object_0 =~= role_message(role@, content@)->Object_0);
    r
}

fn call_value(c: &ToolCallReq) -> (r: JsonValue)
    ensures
        r@ == call_json(c@),
{
    let f = object(
        vec![member("name", JsonValue::Str(c.name.clone())), member("arguments", c.arguments.duplicate())],
    );
    assert(f@->Object_0 =~= seq![("name"@, Json::Str(c@.name)), ("arguments"@, c@.arguments)]);
    let r = object(vec![member("function", f)]);
    assert(r@->Object_0 =~= call_json(c@)->Object_0);
    r
}

/// A message in Ollama's chat format.
pub fn to_ollama_message(msg: &Message) -> (r: JsonValue)
    ensures
        r@ == ollama_message(msg@),
{
    match msg {
        Message::System { content } => role_message_value("system", content),
        Message::User { content } => role_message_value("user", content),
        Message::Assistant { content } => role_message_value("assistant", content),
        Message::ToolCall { calls } => {
            let mut items: Vec<JsonValue> = Vec::new();
            let mut i: usize = 0;
            while i < calls.len()
                invariant
                    i <= calls.len(),
                    items.len() == i,
                    forall|k: int| 0 <= k < i ==> items@[k]@ == call_json(calls@[k]@),
                decreases calls.len() - i,
            {
                items.push(call_value(&calls[i]));
                i = i + 1;
            }
            let a = array(items);
            assert(a@->Array_0 =~= calls_view(calls@).map_values(|c: ToolCallView| call_json(c)));
            let r = object(vec![member("role", JsonValue::from_str("assistant")), member("tool_calls", a)]);
            assert(r@->Object_0 =~= ollama_message(msg@)->Object_0);
            r
        },
        Message::ToolResult { call_id, content } => {
            let r = object(
                vec![
                    member("role", JsonValue::from_str("tool")),
                    member("tool_name", JsonValue::Str(call_id.clone())),
                    member("content", JsonValue::Str(content.clone())),
                ],
            );
            assert(r@->Object_0 =~= ollama_message(msg@)->Object_0);
            r
        },
    }
}

fn tool_value(t: &ToolDef) -> (r: JsonValue)
    ensures
        r@ == tool_json(t@),
{
    let f = object(
        vec![
            member("name", JsonValue::Str(t.name.clone())),
            member("description", JsonValue::Str(t.description.clone())),
            member("parameters", t.parameters.duplicate()),
        ],
    );
    assert(f@->Object_0 =~= seq![
        ("name"@, Json::Str(t@.name)),
        ("description"@, Json::Str(t@.description)),
        ("parameters"@, t@.parameters),
    ]);
    let r = object(vec![member("type", JsonValue::from_str("function")), member("function", f)]);
    assert(r@->Object_0 =~= tool_json(t@)->Object_0);
    r
}

/// The models of a sequence of tool definitions.
pub open spec fn defs_view(tools: Seq<ToolDef>) -> Seq<ToolDefView> {
    tools.map_values(|t: ToolDef| t@)
}

/// Ollama's local chat API, spoken to over HTTP (no data leaves the network).
pub struct Ollama {
    url: String,
    model: String,
}

impl Ollama {
    /// A client of the Ollama server at `url`, using `model`.
    pub fn new(url: String, model: String) -> (r: Self)
        ensures
            r.url() == url@,
            r.model() == model@,
    {
        Ollama { url, model }
    }

    /// The server's URL.
    pub closed spec fn url(&self) -> Seq<char> {
        self.url@
    }

    /// The model's name.
    pub closed spec fn model(&self) -> Seq<char> {
        self.model@
    }

    /// The chat endpoint: `{url}/api/chat`.
    pub fn chat_url(&self) -> (r: String)
        ensures
            r@ == self.url() + "/api/chat"@,
    {
        let mut r = self.url.clone();
        r.append("/api/chat");
        r
    }

    /// The body of a chat request for this model.
    pub fn chat_body(&self, context: &[Message], tools: &[ToolDef]) -> (r: JsonValue)
        ensures
            r@ == chat_body_of(self.model(), messages_view(context@), defs_view(tools@)),
    {
        let mut messages: Vec<JsonValue> = Vec::new();
        let sys = String::from_str(SYSTEM_PROMPT);
        messages.push(role_message_value("system", &sys));
        let mut i: usize = 0;
        while i < context.len()
            invariant
                i <= context@.len(),
                messages.len() == i + 1,
                messages@[0]@ == role_message("system"@, SYSTEM_PROMPT@),
                forall|k: int| 0 <= k < i ==> messages@[k + 1]@ == ollama_message(context@[k]@),
            decreases context@.len() - i,
        {
            messages.push(to_ollama_message(&context[i]));
            i = i + 1;
        }
        let ms = array(messages);
        assert(ms@->Array_0 =~= seq![role_message("system"@, SYSTEM_PROMPT@)]
            + messages_view(context@).map_values(|m: MessageView| ollama_message(m)));
        let mut defs: Vec<JsonValue> = Vec::new();
        let mut j: usize = 0;
        while j < tools.len()
            invariant
                j <= tools@.len(),
                defs.len() == j,
                forall|k: int| 0 <= k < j ==> defs@[k]@ == tool_json(tools@[k]@),
            decreases tools@.len() - j,
        {
            defs.push(tool_value(&tools[j]));
            j = j + 1;
        }
        let ts = array(defs);
        assert(ts@->Array_0 =~= defs_view(tools@).map_values(|t: ToolDefView| tool_json(t)));
        let r = object(
            vec![
                member("model", JsonValue::Str(self.model.clone())),
                member("messages", ms),
                member("stream", JsonValue::Bool(false)),
                member("tools", ts),
            ],
        );
        assert(r@->Object_0 =~= chat_body_of(
            self.model(),
            messages_view(context@),
            defs_view(tools@),
        )->Object_0);
        r
    }
}

/// The id given to the `i`-th tool call of a reply: `call_{i}`.
pub fn call_id(i: usize) -> (r: String)
    ensures
        r@ == "call_"@ + decimal(i as nat),
{
    let d = decimal_string(i as u64);
    let mut r = String::from_str("call_");
    r.append(d.as_str());
    r
}

fn call_from(c: &JsonValue, i: usize) -> (r: ToolCallReq)
    ensures
        r@ == call_of(c@, i as nat),
{
    let id = call_id(i);
    match c.get("function") {
        Some(f) => {
            let name = match f.get_str("name") {
                Some(n) => n.to_owned(),
                None => String::new(),
            };
            let arguments = match f.get("arguments") {
                Some(a) => a.duplicate(),
                None => JsonValue::Null,
            };
            ToolCallReq { id, name, arguments }
        },
        None => ToolCallReq { id, name: String::new(), arguments: JsonValue::Null },
    }
}

/// Reads an Ollama chat reply: the tool calls of `message.tool_calls`, with
/// ids `call_0`, `call_1`, ..., when there is at least one; else the text of
/// `message.content`, or `NO_ANSWER` when it is missing.
pub fn parse_reply(resp: &JsonValue) -> (r: BrainReply)
    ensures
        r@ == reply_of(resp@),
{
    let msg = resp.get("message");
    let calls = match msg {
        Some(m) => match m.get("tool_calls") {
            Some(t) => t.as_array(),
            None => None,
        },
        None => None,
    };
    if let Some(calls) = calls {
        let ghost cs = resp@.field("message"@).field("tool_calls"@).as_array()->0;
        let mut parsed: Vec<ToolCallReq> = Vec::new();
        let mut i: usize = 0;
        while i < calls.len()
            invariant
                i <= calls.len(),
                cs == calls@.map_values(|v: JsonValue| v@),
                parsed.len() == i,
                forall|k: int| 0 <= k < i ==> parsed@[k]@ == call_of(cs[k], k as nat),
            decreases calls.len() - i,
        {
            parsed.push(call_from(&calls[i], i));
            i = i + 1;
        }
        if parsed.len() > 0 {
            let r = BrainReply::ToolCalls(parsed);
            assert(calls_view(parsed@) =~= Seq::new(cs.len(), |k: int| call_of(cs[k], k as nat)));
            return r;
        }
    }
    let text = match msg {
        Some(m) => m.get_str("content"),
        None => None,
    };
    match text {
        Some(t) => BrainReply::Answer(t.to_owned()),
        None => BrainReply::Answer(String::from_str(NO_ANSWER)),
    }
}

/// The model's text is its answer: whenever `message.content` is a string
/// and `message.tool_calls` is not a non-empty array (absent, null, empty or
/// anything else), the reply is that text, unchanged.
pub proof fn law_text_reply_is_the_answer(resp: Json, msg: Json, c: Seq<char>)
    requires
        resp.member("message"@) == Some(msg),
        msg.member("content"@) == Some(Json::Str(c)),
        !(msg.member("tool_calls"@) matches Some(Json::Array(a)) && a.len() > 0),
    ensures
        reply_of(resp) == BrainReplyView::Answer(c),
{
}

/// The fixed answer only stands in for a missing text: when `message.content`
/// is not a string and no tool is called, the reply is `NO_ANSWER`.
pub proof fn law_no_text_gives_the_fixed_answer(resp: Json)
    requires
        !(resp.field("message"@).member("content"@) matches Some(Json::Str(_))),
        !(resp.field("message"@).member("tool_calls"@) matches Some(Json::Array(a)) && a.len() > 0),
    ensures
        reply_of(resp) == BrainReplyView::Answer(NO_ANSWER@),
{
}

/// Tool calls come first: a non-empty array `message.tool_calls` gives one
/// call per element, in order, the `i`-th with the id `call_i`, the name of
/// its `function.name` when that is a string, and its `function.arguments`.
pub proof fn law_tool_calls_are_read_in_order(resp: Json, msg: Json, a: Seq<Json>)
    requires
        resp.member("message"@) == Some(msg),
        msg.member("tool_calls"@) == Some(Json::Array(a)),
        a.len() > 0,
    ensures
        reply_of(resp) matches BrainReplyView::ToolCalls(cs) && cs.len() == a.len() && forall|i: int|
            #![trigger cs[i]]
            0 <= i < a.len() ==> {
                &&& cs[i].id == "call_"@ + decimal(i as nat)
                &&& (a[i].field("function"@).member("name"@) matches Some(Json::Str(n)) ==> cs[i].name
                    == n)
                &&& cs[i].arguments == a[i].field("function"@).field("arguments"@)
            },
{
}

/// No argument of an earlier tool call is lost on the way back to the
/// model: in the Ollama form of a tool-call message, the role is
/// `assistant` and the `i`-th element of `tool_calls` has as `function` the
/// name and the arguments of the `i`-th call.
pub proof fn law_tool_call_message_keeps_every_call(calls: Seq<ToolCallView>)
    ensures
        ollama_message(MessageView::ToolCall { calls }).member("role"@) == Some(
            Json::Str("assistant"@),
        ),
        ollama_message(MessageView::ToolCall { calls }).member("tool_calls"@) matches Some(
            Json::Array(a),
        ) && a.len() == calls.len() && forall|i: int|
            #![trigger a[i]]
            0 <= i < calls.len() ==> {
                &&& a[i].member("function"@) is Some
                &&& a[i].field("function"@).member("name"@) == Some(Json::Str(calls[i].name))
                &&& a[i].field("function"@).member("arguments"@) == Some(calls[i].arguments)
            },
{
    reveal_strlit("role");
    reveal_strlit("tool_calls");
    reveal_strlit("function");
    reveal_strlit("name");
    reveal_strlit("arguments");
    reveal_with_fuel(crate::json::find_member, 3);
    let m = ollama_message(MessageView::ToolCall { calls });
    let ms = m->Object_0;
    assert(ms.drop_first() =~= seq![ms[1]]);
    assert(ms.drop_first().drop_first() =~= Seq::<(Seq<char>, Json)>::empty());
    let a = calls.map_values(|c: ToolCallView| call_json(c));
    assert forall|i: int| #![trigger a[i]] 0 <= i < calls.len() implies {
        &&& a[i].member("function"@) is Some
        &&& a[i].field("function"@).member("name"@) == Some(Json::Str(calls[i].name))
        &&& a[i].field("function"@).member("arguments"@) == Some(calls[i].arguments)
    } by {
        assert(a[i] == call_json(calls[i]));
        let fs = a[i]->Object_0;
        assert(fs[0].0 == "function"@);
        let f = fs[0].1;
        assert(a[i].member("function"@) == Some(f));
        let gs = f->Object_0;
        assert(gs[0] == ("name"@, Json::Str(calls[i].name)));
        assert(gs[1] == ("arguments"@, calls[i].arguments));
        assert("name"@ != "arguments"@) by {
            assert("name"@.len() != "arguments"@.len());
        }
        assert(gs.drop_first() =~= seq![gs[1]]);
        assert(find_member(gs.drop_first(), "arguments"@) == Some(calls[i].arguments));
    }
    assert(ms[0].0 == "role"@);
    assert(ms[1].0 == "tool_calls"@);
    assert(ms[1].1 == Json::Array(a));
    assert("role"@ != "tool_calls"@) by {
        assert("role"@.len() != "tool_calls"@.len());
    }
    assert(find_member(ms.drop_first(), "tool_calls"@) == Some(Json::Array(a)));
    assert(m.member("tool_calls"@) == Some(Json::Array(a)));
}

/// A chat request asks the given model, without streaming, with the system
/// prompt first and then each message of the context in its Ollama form, in
/// order, and offers each tool in its Ollama form, in order.
pub proof fn law_chat_body_holds_the_conversation(
    model: Seq<char>,
    context: Seq<MessageView>,
    tools: Seq<ToolDefView>,
)
    ensures
        chat_body_of(model, context, tools).member("model"@) == Some(Json::Str(model)),
        chat_body_of(model, context, tools).member("stream"@) == Some(Json::Bool(false)),
        chat_body_of(model, context, tools).member("messages"@) matches Some(Json::Array(ms))
            && ms.len() == context.len() + 1 && ms[0].member("role"@) == Some(Json::Str("system"@))
            && ms[0].member("content"@) == Some(Json::Str(SYSTEM_PROMPT@)) && forall|k: int|
            0 <= k < context.len() ==> #[trigger] ms[k + 1] == ollama_message(context[k]),
        chat_body_of(model, context, tools).member("tools"@) matches Some(Json::Array(ts))
            && ts.len() == tools.len() && forall|k: int|
            0 <= k < tools.len() ==> #[trigger] ts[k] == tool_json(tools[k]),
{
    reveal_strlit("model");
    reveal_strlit("messages");
    reveal_strlit("stream");
    reveal_strlit("tools");
    reveal_strlit("role");
    reveal_strlit("content");
    reveal_with_fuel(crate::json::find_member, 5);
    let b = chat_body_of(model, context, tools);
    let bs = b->Object_0;
    assert(bs.drop_first() =~= seq![bs[1], bs[2], bs[3]]);
    assert(bs.drop_first().drop_first() =~= seq![bs[2], bs[3]]);
    assert(bs.drop_first().drop_first().drop_first() =~= seq![bs[3]]);
    assert("model"@ != "messages"@) by {
        assert("model"@.len() != "messages"@.len());
    }
    assert("model"@ != "stream"@) by {
        assert("model"@[0] != "stream"@[0]);
    }
    assert("messages"@ != "stream"@) by {
        assert("messages"@.len() != "stream"@.len());
    }
    assert("model"@ != "tools"@) by {
        assert("model"@[0] != "tools"@[0]);
    }
    assert("messages"@ != "tools"@) by {
        assert("messages"@.len() != "tools"@.len());
    }
    assert("stream"@ != "tools"@) by {
        assert("stream"@.len() != "tools"@.len());
    }
    let ms = bs[1].1->Array_0;
    let sys = role_message("system"@, SYSTEM_PROMPT@);
    assert(ms[0] == sys);
    let ss = sys->Object_0;
    assert(ss.drop_first() =~= seq![ss[1]]);
    assert("role"@ != "content"@) by {
        assert("role"@.len() != "content"@.len());
    }
    assert(find_member(ss.drop_first(), "content"@) == Some(Json::Str(SYSTEM_PROMPT@)));
}

/// Text messages keep their role and their text: system, user and assistant
/// messages carry their content under their role, and a tool result carries
/// the role `tool`, the call it answers as `tool_name`, and its content.
pub proof fn law_text_messages_keep_their_text(content: Seq<char>, call_id: Seq<char>)
    ensures
        ollama_message(MessageView::System { content }).member("role"@) == Some(
            Json::Str("system"@),
        ),
        ollama_message(MessageView::System { content }).member("content"@) == Some(
            Json::Str(content),
        ),
        ollama_message(MessageView::User { content }).member("role"@) == Some(Json::Str("user"@)),
        ollama_message(MessageView::User { content }).member("content"@) == Some(Json::Str(content)),
        ollama_message(MessageView::Assistant { content }).member("role"@) == Some(
            Json::Str("assistant"@),
        ),
        ollama_message(MessageView::Assistant { content }).member("content"@) == Some(
            Json::Str(content),
        ),
        ollama_message(MessageView::ToolResult { call_id, content }).member("role"@) == Some(
            Json::Str("tool"@),
        ),
        ollama_message(MessageView::ToolResult { call_id, content }).member("tool_name"@) == Some(
            Json::Str(call_id),
        ),
        ollama_message(MessageView::ToolResult { call_id, content }).member("content"@) == Some(
            Json::Str(content),
        ),
{
    reveal_strlit("role");
    reveal_strlit("content");
    reveal_strlit("tool_name");
    reveal_with_fuel(crate::json::find_member, 4);
    assert("role"@ != "content"@) by {
        assert("role"@.len() != "content"@.len());
    }
    assert("role"@ != "tool_name"@) by {
        assert("role"@.len() != "tool_name"@.len());
    }
    assert("tool_name"@ != "content"@) by {
        assert("tool_name"@.len() != "content"@.len());
    }
    let r = ollama_message(MessageView::ToolResult { call_id, content })->Object_0;
    assert(r.drop_first() =~= seq![r[1], r[2]]);
    assert(r.drop_first().drop_first() =~= seq![r[2]]);
    let texts = seq![
        ollama_message(MessageView::System { content })->Object_0,
        ollama_message(MessageView::User { content })->Object_0,
        ollama_message(MessageView::Assistant { content })->Object_0,
    ];
    assert(texts[0].drop_first() =~= seq![texts[0][1]]);
    assert(texts[1].drop_first() =~= seq![texts[1][1]]);
    assert(texts[2].drop_first() =~= seq![texts[2][1]]);
}

} // verus!
