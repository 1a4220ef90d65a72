use edith::conversation::{Conversation, Message, ToolCallReq, CONTEXT_WINDOW};
use edith::json::JsonValue;
use edith::security::{check, confirmation_answer, Permission, Verdict};

#[test]
fn read_and_reversible_actions_are_allowed() {
    assert!(matches!(check(Permission::Read, "lire l'heure"), Verdict::Allowed));
    assert!(matches!(check(Permission::Reversible, "ouvrir Safari"), Verdict::Allowed));
}

#[test]
fn sensitive_action_needs_confirmation() {
    match check(Permission::Sensitive, "envoyer un mail") {
        Verdict::NeedsConfirmation { description, critical } => {
            assert_eq!(description, "envoyer un mail");
            assert!(!critical);
        }
        Verdict::Allowed => panic!("sensitive action allowed"),
    }
}

#[test]
fn critical_action_needs_explicit_confirmation() {
    match check(Permission::Critical, "supprimer des fichiers") {
        Verdict::NeedsConfirmation { description, critical } => {
            assert_eq!(description, "supprimer des fichiers");
            assert!(critical);
        }
        Verdict::Allowed => panic!("critical action allowed"),
    }
}

#[test]
fn permission_levels_are_ordered() {
    assert!(Permission::Read < Permission::Reversible);
    assert!(Permission::Reversible < Permission::Sensitive);
    assert!(Permission::Sensitive < Permission::Critical);
    assert_eq!(Permission::Read.level(), 0);
    assert_eq!(Permission::Critical.level(), 3);
}

fn user(text: &str) -> Message {
    Message::User { content: text.to_string() }
}

fn content_of(m: &Message) -> String {
    match m {
        Message::User { content } => content.clone(),
        _ => String::new(),
    }
}

#[test]
fn context_keeps_short_history_whole() {
    let mut c = Conversation::new();
    c.push(user("a"));
    c.push(user("b"));
    let ctx = c.context();
    assert_eq!(ctx.len(), 2);
    assert_eq!(content_of(&ctx[0]), "a");
    assert_eq!(content_of(&ctx[1]), "b");
}

#[test]
fn context_is_a_sliding_window_of_twenty() {
    let mut c = Conversation::new();
    for i in 0..25 {
        c.push(user(&format!("m{i}")));
    }
    let ctx = c.context();
    assert_eq!(CONTEXT_WINDOW, 20);
    assert_eq!(ctx.len(), 20);
    assert_eq!(content_of(&ctx[0]), "m5");
    assert_eq!(content_of(&ctx[19]), "m24");
    assert_eq!(c.len(), 25);
}

#[test]
fn reset_forgets_everything() {
    let mut c = Conversation::new();
    c.push(user("a"));
    c.push(Message::ToolCall {
        calls: vec![ToolCallReq { id: "call_0".into(), name: "get_time".into(), arguments: JsonValue::Null }],
    });
    c.reset();
    assert_eq!(c.len(), 0);
    assert_eq!(c.context().len(), 0);
}

#[test]
fn confirmation_fails_closed() {
    assert!(confirmation_answer(true, Some(true)));
    assert!(!confirmation_answer(true, Some(false)));
    assert!(!confirmation_answer(true, None));
    assert!(!confirmation_answer(false, Some(true)));
    assert!(!confirmation_answer(false, None));
}

#[test]
fn latest_message_is_always_in_context() {
    let mut c = Conversation::new();
    for i in 0..30 {
        c.push(user(&format!("m{i}")));
        let ctx = c.context();
        assert_eq!(content_of(&ctx[ctx.len() - 1]), format!("m{i}"));
        assert!(ctx.len() <= CONTEXT_WINDOW);
    }
}
