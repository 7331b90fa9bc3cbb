use aichat::config::{highlight_value, Config};
use aichat::conversation::Conversation;
use aichat::error::ChatError;
use aichat::message::MessageRole;
use aichat::role::Role;

fn named_role(name: &str, prompt: &str, temperature: Option<u32>) -> Role {
    let mut r = Role::new(prompt, temperature);
    r.name = name.to_string();
    r
}

#[test]
fn build_messages_round_trip() {
    let role = named_role("coder", "You write code.", None);
    let mut cfg = Config::new("key");
    cfg.role = Some(role.clone());
    cfg.conversation = Some(Conversation::new(Some(role)));
    cfg.save_conversation("i1", "o1").unwrap();
    let msgs = cfg.build_messages("i2").unwrap();
    assert_eq!(msgs.len(), 4);
    assert!(matches!(msgs[0].role, MessageRole::System));
    assert_eq!(msgs[0].content, "You write code.");
    assert!(matches!(msgs[1].role, MessageRole::User));
    assert_eq!(msgs[1].content, "i1");
    assert!(matches!(msgs[2].role, MessageRole::Assistant));
    assert_eq!(msgs[2].content, "o1");
    assert!(matches!(msgs[3].role, MessageRole::User));
    assert_eq!(msgs[3].content, "i2");
}

#[test]
fn build_messages_without_role_or_history() {
    let cfg = Config::new("key");
    let msgs = cfg.build_messages("hello").unwrap();
    assert_eq!(msgs.len(), 1);
    assert!(matches!(msgs[0].role, MessageRole::User));
    assert_eq!(msgs[0].content, "hello");
}

#[test]
fn build_messages_with_role_only() {
    let mut cfg = Config::new("key");
    cfg.role = Some(named_role("r", "prompt", None));
    let msgs = cfg.build_messages("q").unwrap();
    assert_eq!(msgs.len(), 2);
    assert!(matches!(msgs[0].role, MessageRole::System));
    assert_eq!(msgs[0].content, "prompt");
    assert_eq!(msgs[1].content, "q");
}

#[test]
fn build_messages_rejects_over_budget() {
    let cfg = Config::new("key");
    let big = "x".repeat(5000);
    match cfg.build_messages(&big) {
        Err(ChatError::ExceedsLimit { estimated, limit }) => {
            assert_eq!(estimated, 5000);
            assert_eq!(limit, 4096);
        }
        other => panic!("expected budget rejection, got {:?}", other),
    }
}

#[test]
fn remaining_tokens_counts_the_history_alone() {
    let mut conv = Conversation::new(Some(named_role("r", "0123456789", None)));
    assert_eq!(conv.remaining_tokens(), 4096);
    conv.add_message("abc", "de");
    assert_eq!(conv.remaining_tokens(), 4096 - 5);
}

#[test]
fn clear_role_rejected_while_budget_remains() {
    let mut cfg = Config::new("key");
    cfg.role = Some(named_role("r", "p", None));
    cfg.start_conversation();
    match cfg.clear_role() {
        Err(ChatError::RoleChangeRejected) => {}
        other => panic!("expected rejection, got {:?}", other),
    }
    assert!(cfg.role.is_some());
    cfg.end_conversation();
    assert!(cfg.clear_role().is_ok());
    assert!(cfg.role.is_none());
}

#[test]
fn change_role_switches_and_updates_conversation() {
    let mut cfg = Config::new("key");
    cfg.roles = vec![named_role("a", "pa", None), named_role("b", "pb", Some(70))];
    cfg.start_conversation();
    let out = cfg.change_role("b").unwrap();
    assert_eq!(out, "name: b\nprompt: pb\ntemperature: 0.70\n");
    assert_eq!(cfg.role.as_ref().unwrap().name, "b");
    let conv_role = cfg.conversation.as_ref().unwrap().role.as_ref().unwrap();
    assert_eq!(conv_role.name, "b");
    match cfg.change_role("zzz") {
        Err(ChatError::UnknownRole) => {}
        other => panic!("expected unknown role, got {:?}", other),
    }
}

#[test]
fn create_temp_role_binds_anonymous_role() {
    let mut cfg = Config::new("key");
    cfg.temperature = Some(120);
    cfg.create_temp_role("be brief").unwrap();
    let role = cfg.role.as_ref().unwrap();
    assert!(role.is_temp());
    assert_eq!(role.prompt, "be brief");
    assert_eq!(role.temperature, Some(120));
}

#[test]
fn get_temperature_prefers_role_override() {
    let mut cfg = Config::new("key");
    cfg.temperature = Some(50);
    assert_eq!(cfg.get_temperature(), Some(50));
    cfg.role = Some(named_role("r", "p", Some(200)));
    assert_eq!(cfg.get_temperature(), Some(200));
    cfg.role = Some(named_role("r", "p", None));
    assert_eq!(cfg.get_temperature(), Some(50));
}

#[test]
fn find_role_returns_first_match() {
    let mut cfg = Config::new("key");
    cfg.roles = vec![named_role("a", "p1", None), named_role("a", "p2", None)];
    assert_eq!(cfg.find_role("a").unwrap().prompt, "p1");
    assert!(cfg.find_role("missing").is_none());
}

#[test]
fn echo_messages_follows_session_state() {
    let mut cfg = Config::new("key");
    assert_eq!(cfg.echo_messages("hi"), "hi");
    cfg.role = Some(named_role("r", "p", None));
    assert_eq!(cfg.echo_messages("hi"), "p\nhi");
    cfg.conversation = Some(Conversation::new(Some(named_role("r", "p", None))));
    cfg.save_conversation("i1", "o1").unwrap();
    assert_eq!(cfg.echo_messages("hi"), "p\ni1\no1\nhi");
}

#[test]
fn update_sets_and_unsets_keys() {
    let mut cfg = Config::new("key");
    cfg.update(".role extra").err().unwrap();
    assert!(matches!(cfg.update("api_key fresh"), Ok(())));
    assert_eq!(cfg.api_key, "fresh");
    assert!(matches!(cfg.update("api_key null"), Err(ChatError::NotAllowed)));
    assert!(matches!(cfg.update("temperature 0.7"), Ok(())));
    assert_eq!(cfg.temperature, Some(70));
    assert!(matches!(cfg.update("temperature 1.25"), Ok(())));
    assert_eq!(cfg.temperature, Some(125));
    assert!(matches!(cfg.update("temperature null"), Ok(())));
    assert_eq!(cfg.temperature, None);
    assert!(matches!(cfg.update("temperature warm"), Err(ChatError::InvalidValue)));
    assert!(matches!(cfg.update("save true"), Ok(())));
    assert!(cfg.save);
    assert!(matches!(cfg.update("highlight false"), Ok(())));
    assert!(!cfg.highlight);
    assert!(matches!(cfg.update("proxy http://localhost:8080"), Ok(())));
    assert_eq!(cfg.proxy.as_deref(), Some("http://localhost:8080"));
    assert!(matches!(cfg.update("proxy null"), Ok(())));
    assert_eq!(cfg.proxy, None);
    assert!(matches!(cfg.update("dry_run true"), Ok(())));
    assert!(cfg.dry_run);
    assert!(matches!(cfg.update("dry_run maybe"), Err(ChatError::InvalidValue)));
    assert!(matches!(cfg.update("volume 11"), Err(ChatError::UnknownKey)));
    assert!(matches!(cfg.update("save\u{2003}true"), Ok(())));
    assert!(cfg.save);
    assert!(matches!(cfg.update("proxy\u{00A0}null"), Ok(())));
    assert_eq!(cfg.proxy, None);
    assert!(matches!(cfg.update("just-one"), Err(ChatError::InvalidCommand)));
}

#[test]
fn repl_completions_lists_roles_then_settings() {
    let mut cfg = Config::new("key");
    cfg.roles = vec![named_role("a", "p", None), named_role("b", "p", None)];
    let c = cfg.repl_completions();
    assert_eq!(c.len(), 11);
    assert_eq!(c[0], ".role a");
    assert_eq!(c[1], ".role b");
    assert_eq!(c[2], ".set api_key");
    assert_eq!(c[10], ".set dry_run false");
}

#[test]
fn render_save_message_formats_entries() {
    let mut cfg = Config::new("key");
    assert!(cfg.render_save_message("in", "out", "t").is_none());
    cfg.save = true;
    assert!(cfg.render_save_message("in", "", "t").is_none());
    assert_eq!(
        cfg.render_save_message("in", "out", "2023").unwrap(),
        "# CHAT:[2023]\nin\n--------\nout\n--------\n\n"
    );
    cfg.role = Some(Role::new("be brief", None));
    assert_eq!(
        cfg.render_save_message("in", "out", "2023").unwrap(),
        "# CHAT:[2023]\nbe brief\nin\n--------\nout\n--------\n\n"
    );
    cfg.role = Some(named_role("coder", "p", None));
    assert_eq!(
        cfg.render_save_message("in", "out", "2023").unwrap(),
        "# CHAT:[2023] (coder)\nin\n--------\nout\n--------\n\n"
    );
}

#[test]
fn info_renders_settings_table() {
    let mut cfg = Config::new("secret");
    cfg.temperature = Some(70);
    let out = cfg.info("/c/config.yaml", true, "/c/roles.yaml", false, "/c/messages.md", true);
    let expected = "config_file         /c/config.yaml\n\
                    roles_file          /c/roles.yaml (missing)\n\
                    messages_file       /c/messages.md\n\
                    api_key             secret\n\
                    temperature         0.70\n\
                    save                false\n\
                    highlight           true\n\
                    proxy               -\n\
                    conversation_first  false\n\
                    dry_run             false\n";
    assert_eq!(out, expected);
}

#[test]
fn defaults_are_as_documented() {
    assert!(highlight_value());
    let cfg = Config::new("k");
    assert!(cfg.highlight);
    assert!(!cfg.save);
    assert!(!cfg.dry_run);
    assert!(cfg.role.is_none());
    assert!(cfg.conversation.is_none());
}

#[test]
fn save_conversation_is_a_no_op_without_a_session() {
    let mut cfg = Config::new("key");
    assert!(cfg.save_conversation("in", "out").is_ok());
    assert!(cfg.conversation.is_none());
}

#[test]
fn end_conversation_clears_the_slot() {
    let mut cfg = Config::new("key");
    cfg.start_conversation();
    assert!(cfg.conversation.is_some());
    cfg.end_conversation();
    assert!(cfg.conversation.is_none());
}

#[test]
fn on_repl_starts_conversation_when_configured() {
    let mut cfg = Config::new("key");
    assert!(cfg.on_repl().is_ok());
    assert!(cfg.conversation.is_none());
    cfg.conversation_first = true;
    assert!(cfg.on_repl().is_ok());
    assert!(cfg.conversation.is_some());
}
