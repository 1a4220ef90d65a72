use edith::assistant::{command_of, Action, Assistant, InputCommand, MAX_TOOL_ROUNDS, ROUND_LIMIT_REPLY};
use edith::brain::{BrainReply, ToolDef};
use edith::conversation::ToolCallReq;
use edith::json::JsonValue;
use edith::security::Permission;
use edith::tools::{CustomTool, Registry};

fn def(name: &str) -> ToolDef {
    ToolDef { name: name.to_string(), description: format!("outil {name}"), parameters: JsonValue::Null }
}

fn call(id: &str, name: &str) -> ToolCallReq {
    ToolCallReq { id: id.to_string(), name: name.to_string(), arguments: JsonValue::Null }
}

fn tool(name: &str, level: Permission, value: u32) -> CustomTool<u32> {
    CustomTool { def: def(name), level, value }
}

fn registry() -> Registry<CustomTool<u32>> {
    let mut r = Registry::new();
    r.register(tool("get_time", Permission::Read, 1));
    r.register(tool("set_volume", Permission::Reversible, 2));
    r.register(tool("delete_files", Permission::Critical, 3));
    r.register(tool("send_mail", Permission::Sensitive, 4));
    r
}

fn run_tool_name(a: &Action) -> String {
    match a {
        Action::RunTool(c) => c.name.clone(),
        _ => panic!("expected a tool to run"),
    }
}

#[test]
fn answer_ends_the_request() {
    let mut a = Assistant::new(registry());
    assert!(matches!(a.start("bonjour"), Action::Chat));
    assert_eq!(a.context().len(), 1);
    match a.on_reply(BrainReply::Answer("Salut !".into())) {
        Action::Reply(t) => assert_eq!(t, "Salut !"),
        _ => panic!("expected the answer"),
    }
    assert_eq!(a.context().len(), 2);
    assert!(!a.awaiting_tool());
}

#[test]
fn allowed_tool_runs_and_its_result_is_recorded() {
    let mut a = Assistant::new(registry());
    a.start("quelle heure ?");
    let act = a.on_reply(BrainReply::ToolCalls(vec![call("call_0", "get_time")]));
    assert_eq!(run_tool_name(&act), "get_time");
    assert!(a.awaiting_tool());
    assert_eq!(a.tool("get_time").map(|t| t.value), Some(1));
    let next = a.tool_done(Ok("lundi 12h".into()));
    assert!(matches!(next, Action::Chat));
    let ctx = a.context();
    assert_eq!(ctx.len(), 3);
    match &ctx[2] {
        edith::conversation::Message::ToolResult { call_id, content } => {
            assert_eq!(call_id, "call_0");
            assert_eq!(content, "lundi 12h");
        }
        _ => panic!("expected a tool result"),
    }
}

#[test]
fn tool_error_is_reported_to_the_model() {
    let mut a = Assistant::new(registry());
    a.start("monte le son");
    a.on_reply(BrainReply::ToolCalls(vec![call("call_0", "set_volume")]));
    a.tool_done(Err("le niveau doit être entre 0 et 100".into()));
    match &a.context()[2] {
        edith::conversation::Message::ToolResult { content, .. } => {
            assert_eq!(content, "Erreur pendant 'set_volume': le niveau doit être entre 0 et 100")
        }
        _ => panic!("expected a tool result"),
    }
}

#[test]
fn unknown_and_unconfirmed_tools_never_run() {
    let mut a = Assistant::new(registry());
    a.start("fais tout");
    let act = a.on_reply(BrainReply::ToolCalls(vec![
        call("call_0", "launch_rocket"),
        call("call_1", "delete_files"),
        call("call_2", "send_mail"),
        call("call_3", "set_volume"),
    ]));
    assert_eq!(run_tool_name(&act), "set_volume");
    let ctx = a.context();
    assert_eq!(ctx.len(), 5);
    let contents: Vec<(String, String)> = ctx[2..]
        .iter()
        .map(|m| match m {
            edith::conversation::Message::ToolResult { call_id, content } => (call_id.clone(), content.clone()),
            _ => panic!("expected tool results"),
        })
        .collect();
    assert_eq!(contents[0], ("call_0".into(), "Erreur : l'outil 'launch_rocket' n'existe pas.".into()));
    assert_eq!(contents[1], ("call_1".into(), "Refusé : confirmation requise pour 'delete_files'.".into()));
    assert_eq!(contents[2], ("call_2".into(), "Refusé : confirmation requise pour 'send_mail'.".into()));
    assert!(matches!(a.tool_done(Ok("ok".into())), Action::Chat));
}

#[test]
fn the_model_is_asked_at_most_five_times() {
    let mut a = Assistant::new(registry());
    let mut chats = 0;
    let mut action = a.start("boucle");
    loop {
        match action {
            Action::Chat => {
                chats += 1;
                action = a.on_reply(BrainReply::ToolCalls(vec![call("call_0", "get_time")]));
            }
            Action::RunTool(_) => action = a.tool_done(Ok("ok".into())),
            Action::Reply(t) => {
                assert_eq!(t, ROUND_LIMIT_REPLY);
                assert_eq!(t, "J'ai atteint la limite d'actions pour cette demande, je m'arrête là.");
                break;
            }
        }
    }
    assert_eq!(chats, MAX_TOOL_ROUNDS);
    assert_eq!(chats, 5);
}

#[test]
fn empty_tool_call_list_asks_again() {
    let mut a = Assistant::new(registry());
    a.start("rien");
    assert!(matches!(a.on_reply(BrainReply::ToolCalls(vec![])), Action::Chat));
}

#[test]
fn definitions_list_tools_by_name() {
    let a = Assistant::new(registry());
    let names: Vec<String> = a.definitions().into_iter().map(|d| d.name).collect();
    assert_eq!(names, vec!["delete_files", "get_time", "send_mail", "set_volume"]);
}

#[test]
fn typed_lines_become_commands() {
    assert!(matches!(command_of("   \n"), InputCommand::Empty));
    assert!(matches!(command_of("exit\n"), InputCommand::Exit));
    assert!(matches!(command_of("  reset "), InputCommand::Reset));
    match command_of(" quelle heure est-il ?\n") {
        InputCommand::Request(t) => assert_eq!(t, "quelle heure est-il ?"),
        _ => panic!("expected a request"),
    }
    assert!(matches!(command_of("exit now"), InputCommand::Request(_)));
}
