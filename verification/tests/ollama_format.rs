use edith::brain::{call_id, parse_reply, BrainReply, Ollama, ToolDef, NO_ANSWER, SYSTEM_PROMPT};
use edith::conversation::{Message, ToolCallReq};
use edith::json::JsonValue;

fn s(t: &str) -> JsonValue {
    JsonValue::Str(t.to_string())
}

fn obj(members: Vec<(&str, JsonValue)>) -> JsonValue {
    JsonValue::Object(members.into_iter().map(|(k, v)| (k.to_string(), v)).collect())
}

fn field<'a>(v: &'a JsonValue, key: &str) -> &'a JsonValue {
    v.get(key).expect("missing member")
}

fn text(v: &JsonValue) -> &str {
    v.as_str().expect("not a string")
}

#[test]
fn call_ids_are_numbered() {
    assert_eq!(call_id(0), "call_0");
    assert_eq!(call_id(12), "call_12");
}

#[test]
fn reply_with_tool_calls_gives_the_calls() {
    let resp = obj(vec![(
        "message",
        obj(vec![(
            "tool_calls",
            JsonValue::Array(vec![
                obj(vec![("function", obj(vec![("name", s("get_time")), ("arguments", obj(vec![]))]))]),
                obj(vec![(
                    "function",
                    obj(vec![("name", s("set_volume")), ("arguments", obj(vec![("level", JsonValue::Int(30))]))]),
                )]),
                obj(vec![("function", obj(vec![]))]),
            ]),
        )]),
    )]);
    match parse_reply(&resp) {
        BrainReply::ToolCalls(calls) => {
            assert_eq!(calls.len(), 3);
            assert_eq!(calls[0].id, "call_0");
            assert_eq!(calls[0].name, "get_time");
            assert_eq!(calls[1].id, "call_1");
            assert_eq!(calls[1].name, "set_volume");
            assert_eq!(calls[1].arguments.get_i64("level"), Some(30));
            assert_eq!(calls[2].id, "call_2");
            assert_eq!(calls[2].name, "");
            assert!(calls[2].arguments.is_null());
        }
        BrainReply::Answer(_) => panic!("expected tool calls"),
    }
}

#[test]
fn reply_with_empty_tool_calls_gives_the_content() {
    let resp = obj(vec![(
        "message",
        obj(vec![("tool_calls", JsonValue::Array(vec![])), ("content", s("Bonjour !"))]),
    )]);
    match parse_reply(&resp) {
        BrainReply::Answer(t) => assert_eq!(t, "Bonjour !"),
        BrainReply::ToolCalls(_) => panic!("expected an answer"),
    }
}

#[test]
fn reply_without_content_gives_the_fallback() {
    let resp = obj(vec![("message", obj(vec![("role", s("assistant"))]))]);
    match parse_reply(&resp) {
        BrainReply::Answer(t) => {
            assert_eq!(t, NO_ANSWER);
            assert_eq!(t, "Je n'ai pas réussi à formuler une réponse.");
        }
        BrainReply::ToolCalls(_) => panic!("expected an answer"),
    }
    match parse_reply(&JsonValue::Null) {
        BrainReply::Answer(t) => assert_eq!(t, NO_ANSWER),
        BrainReply::ToolCalls(_) => panic!("expected an answer"),
    }
}

#[test]
fn chat_url_appends_the_api_path() {
    let o = Ollama::new("http://localhost:11434".to_string(), "mistral".to_string());
    assert_eq!(o.chat_url(), "http://localhost:11434/api/chat");
}

#[test]
fn chat_body_has_model_system_prompt_context_and_tools() {
    let o = Ollama::new("http://localhost:11434".to_string(), "mistral".to_string());
    let context = vec![
        Message::User { content: "quelle heure ?".to_string() },
        Message::ToolCall {
            calls: vec![ToolCallReq { id: "call_0".into(), name: "get_time".into(), arguments: obj(vec![]) }],
        },
        Message::ToolResult { call_id: "call_0".into(), content: "lundi".into() },
        Message::Assistant { content: "Il est midi.".into() },
    ];
    let tools = vec![ToolDef {
        name: "get_time".into(),
        description: "Donne l'heure".into(),
        parameters: obj(vec![("type", s("object"))]),
    }];
    let body = o.chat_body(&context, &tools);
    assert_eq!(text(field(&body, "model")), "mistral");
    assert!(matches!(field(&body, "stream"), JsonValue::Bool(false)));
    let messages = field(&body, "messages").as_array().expect("messages");
    assert_eq!(messages.len(), 5);
    assert_eq!(text(field(&messages[0], "role")), "system");
    assert_eq!(text(field(&messages[0], "content")), SYSTEM_PROMPT);
    assert!(SYSTEM_PROMPT.starts_with("Tu es Edith, l'assistante vocale personnelle de l'utilisateur. Réponds"));
    assert_eq!(text(field(&messages[1], "role")), "user");
    assert_eq!(text(field(&messages[1], "content")), "quelle heure ?");
    assert_eq!(text(field(&messages[2], "role")), "assistant");
    let calls = field(&messages[2], "tool_calls").as_array().expect("tool_calls");
    assert_eq!(calls.len(), 1);
    assert_eq!(text(field(field(&calls[0], "function"), "name")), "get_time");
    assert_eq!(text(field(&messages[3], "role")), "tool");
    assert_eq!(text(field(&messages[3], "tool_name")), "call_0");
    assert_eq!(text(field(&messages[3], "content")), "lundi");
    assert_eq!(text(field(&messages[4], "role")), "assistant");
    assert_eq!(text(field(&messages[4], "content")), "Il est midi.");
    let defs = field(&body, "tools").as_array().expect("tools");
    assert_eq!(defs.len(), 1);
    assert_eq!(text(field(&defs[0], "type")), "function");
    let f = field(&defs[0], "function");
    assert_eq!(text(field(f, "name")), "get_time");
    assert_eq!(text(field(f, "description")), "Donne l'heure");
    assert_eq!(text(field(field(f, "parameters"), "type")), "object");
}
