use chatbot_core::session::prompt_checking;
use chatbot_core::session::set_current_prompt_key;
use chatbot_core::session::set_previous_prompt_key;
use chatbot_core::commands::handle_command;
use chatbot_core::catalog::prompt_for_key;
use chatbot_core::history::chat_history;

const START_PROMPT: &str = "You are a helpful assistant answering questions on Discord.";

#[test]
fn resolver_both_absent_is_no_session() {
    assert!(prompt_checking(&None, &None).is_none());
}

#[test]
fn resolver_current_only_restarts() {
    let t = prompt_checking(&Some("start".to_string()), &None).unwrap();
    assert_eq!(t.prompt_key, "start");
    assert_eq!(t.system_prompt, START_PROMPT);
    assert!(t.restart);
    assert_eq!(t.store_write.key, "previous_prompt_key");
    assert_eq!(t.store_write.value, "start");
    assert_eq!(t.store_write.ttl_secs, 300);
}

#[test]
fn resolver_same_mode_continues() {
    let t = prompt_checking(&Some("code".to_string()), &Some("code".to_string())).unwrap();
    assert_eq!(t.prompt_key, "code");
    assert!(!t.restart);
    assert_eq!(t.store_write.value, "code");
}

#[test]
fn resolver_changed_mode_restarts() {
    let t = prompt_checking(&Some("code".to_string()), &Some("medical".to_string())).unwrap();
    assert_eq!(t.prompt_key, "code");
    assert!(t.restart);
    assert_eq!(t.store_write.value, "code");
}

#[test]
fn resolver_previous_only_continues() {
    let t = prompt_checking(&None, &Some("translate".to_string())).unwrap();
    assert_eq!(t.prompt_key, "translate");
    assert!(!t.restart);
    assert_eq!(t.store_write.value, "translate");
    assert_eq!(t.store_write.ttl_secs, 300);
}

#[test]
fn resolver_unknown_key_degrades_to_empty_prompt() {
    let t = prompt_checking(&Some("bogus".to_string()), &None).unwrap();
    assert_eq!(t.prompt_key, "bogus");
    assert_eq!(t.system_prompt, "");
    assert!(t.restart);
}

#[test]
fn second_resolution_continues_after_current_only() {
    let current = Some("qa".to_string());
    let first = prompt_checking(&current, &None).unwrap();
    assert!(first.restart);
    let second = prompt_checking(&current, &Some(first.store_write.value)).unwrap();
    assert!(!second.restart);
}

#[test]
fn second_resolution_continues_after_previous_only() {
    let first = prompt_checking(&None, &Some("qa".to_string())).unwrap();
    assert!(!first.restart);
    let second = prompt_checking(&None, &Some(first.store_write.value)).unwrap();
    assert!(!second.restart);
    assert_eq!(second.prompt_key, "qa");
}

#[test]
fn key_write_builders_carry_ttls() {
    let w = set_current_prompt_key("summarize");
    assert_eq!(w.key, "current_prompt_key");
    assert_eq!(w.value, "summarize");
    assert_eq!(w.ttl_secs, 60);
    let w = set_previous_prompt_key("summarize");
    assert_eq!(w.key, "previous_prompt_key");
    assert_eq!(w.value, "summarize");
    assert_eq!(w.ttl_secs, 300);
}

#[test]
fn catalog_covers_the_six_modes_and_no_more() {
    assert_eq!(prompt_for_key("start"), START_PROMPT);
    assert!(prompt_for_key("summarize").starts_with("You are a helpful assistant trained to summarize"));
    assert!(prompt_for_key("code").starts_with("You are an experienced software developer"));
    assert!(prompt_for_key("medical").starts_with("You are a medical doctor"));
    assert!(prompt_for_key("translate").starts_with("You are an English language translator"));
    assert!(prompt_for_key("reply_tweet").starts_with("You are a social media marketing expert"));
    assert_eq!(prompt_for_key("qa"), "");
    assert_eq!(prompt_for_key("bogus"), "");
}

#[test]
fn help_command_replies_without_arming() {
    let o = handle_command("help", "the help text");
    assert_eq!(o.reply, "the help text");
    assert!(o.arm_current.is_none());
    assert!(o.clear_previous.is_none());
}

#[test]
fn start_command_arms_and_replies_help() {
    let o = handle_command("start", "the help text");
    assert_eq!(o.reply, "the help text");
    let w = o.arm_current.unwrap();
    assert_eq!(w.key, "current_prompt_key");
    assert_eq!(w.value, "start");
    assert_eq!(w.ttl_secs, 60);
    let c = o.clear_previous.unwrap();
    assert_eq!(c.key, "previous_prompt_key");
    assert_eq!(c.value, "");
    assert_eq!(c.ttl_secs, 1);
}

#[test]
fn mode_commands_arm_and_announce_readiness() {
    let cases = [
        ("summarize", "I'm ready to summarize, please input a url or text"),
        ("code", "I'm ready to review source code"),
        ("medical", "I am ready to review and summarize doctor notes or medical test results"),
        ("translate", "I'm ready to translate"),
        ("reply_tweet", "I'm ready to process your tweet"),
        ("qa", "I'm ready for your questions"),
    ];
    for (name, reply) in cases {
        let o = handle_command(name, "unused help");
        assert_eq!(o.reply, reply);
        assert_eq!(o.arm_current.unwrap().value, name);
        assert_eq!(o.clear_previous.unwrap().ttl_secs, 1);
    }
}

#[test]
fn unknown_command_replies_nothing_and_arms_nothing() {
    let o = handle_command("dance", "unused help");
    assert_eq!(o.reply, "");
    assert!(o.arm_current.is_none());
    assert!(o.clear_previous.is_none());
}

#[test]
fn restart_turn_begins_a_fresh_buffer() {
    let prior = vec!["old one".to_string(), "old two".to_string()];
    let h = chat_history(&prior, "fresh question", true);
    assert_eq!(h, vec!["fresh question".to_string()]);
}

#[test]
fn continuing_turn_appends() {
    let prior = vec!["one".to_string(), "two".to_string()];
    let h = chat_history(&prior, "three", false);
    assert_eq!(h, vec!["one".to_string(), "two".to_string(), "three".to_string()]);
}

#[test]
fn nine_turns_keep_the_last_eight_in_order() {
    let turns = ["t1", "t2", "t3", "t4", "t5", "t6", "t7", "t8", "t9"];
    let mut buffer: Vec<String> = Vec::new();
    for turn in turns {
        buffer = chat_history(&buffer, turn, false);
        assert!(buffer.len() <= 8);
    }
    let expected: Vec<String> = turns[1..].iter().map(|t| t.to_string()).collect();
    assert_eq!(buffer, expected);
}
