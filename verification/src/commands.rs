//! Mode-command handler: the decision part of a slash command. A
//! mode-selecting command yields a reply text, a store write that arms the
//! mode for the user's next message, and a write that invalidates
//! `previous_prompt_key`, so the next resolution starts the armed mode
//! fresh. `help` only replies and mutates no state.

use vstd::prelude::*;
use crate::session::KeyWrite;
use crate::session::set_current_prompt_key;
use crate::session::CURRENT_KEY_TTL_SECS;
use crate::text::str_eq;

verus! {

broadcast use vstd::string::group_string_axioms;

/// The mode that a command of this name arms for the next message, or
/// `None` for `help` and for names outside the command set.
pub open spec fn spec_command_arm(name: Seq<char>) -> Option<Seq<char>> {
    if name == "start"@ || name == "summarize"@ || name == "code"@ || name == "medical"@ || name
        == "translate"@ || name == "reply_tweet"@ || name == "qa"@ {
        Some(name)
    } else {
        None
    }
}

/// The reply that a command of this name posts back: the help text for
/// `help` and `start`, a short readiness message for the other modes, and
/// the empty text for an unknown name.
pub open spec fn spec_command_reply(name: Seq<char>, help: Seq<char>) -> Seq<char> {
    if name == "help"@ || name == "start"@ {
        help
    } else if name == "summarize"@ {
        "I'm ready to summarize, please input a url or text"@
    } else if name == "code"@ {
        "I'm ready to review source code"@
    } else if name == "medical"@ {
        "I am ready to review and summarize doctor notes or medical test results"@
    } else if name == "translate"@ {
        "I'm ready to translate"@
    } else if name == "reply_tweet"@ {
        "I'm ready to process your tweet"@
    } else if name == "qa"@ {
        "I'm ready for your questions"@
    } else {
        Seq::<char>::empty()
    }
}

/// What one mode command does: the reply to post and, when a mode is
/// armed, the write that arms it and the write that invalidates the
/// previous-mode marker so the armed mode starts fresh. `help` and unknown
/// names carry no writes.
pub struct CommandOutcome {
    pub reply: String,
    pub arm_current: Option<KeyWrite>,
    pub clear_previous: Option<KeyWrite>,
}

/// The name `help` names none of the seven mode-arming commands.
proof fn lemma_help_arms_nothing()
    ensures
        spec_command_arm("help"@) is None,
{
    reveal_strlit("help");
    reveal_strlit("start");
    reveal_strlit("summarize");
    reveal_strlit("code");
    reveal_strlit("medical");
    reveal_strlit("translate");
    reveal_strlit("reply_tweet");
    reveal_strlit("qa");
    assert("help"@.len() == 4);
    assert("start"@.len() == 5);
    assert("summarize"@.len() == 9);
    assert("code"@.len() == 4);
    assert("medical"@.len() == 7);
    assert("translate"@.len() == 9);
    assert("reply_tweet"@.len() == 11);
    assert("qa"@.len() == 2);
    assert("help"@[0] == 'h' && "code"@[0] == 'c');
}

/// Decides one slash command by name. `help_msg` is the configured help
/// text. A `clear_previous` write sets `previous_prompt_key` to the empty
/// string with a one-second time-to-live, as good as expired for the next
/// resolution; it comes exactly with an arming write.
pub fn handle_command(name: &str, help_msg: &str) -> (o: CommandOutcome)
    ensures
        o.reply@ == spec_command_reply(name@, help_msg@),
        o.arm_current is Some == spec_command_arm(name@) is Some,
        o.arm_current matches Some(w) ==> w.key@ == "current_prompt_key"@ && w.value@ == name@
            && w.ttl_secs == CURRENT_KEY_TTL_SECS,
        o.clear_previous is Some == spec_command_arm(name@) is Some,
        o.clear_previous matches Some(w) ==> w.key@ == "previous_prompt_key"@ && w.value@
            == Seq::<char>::empty() && w.ttl_secs == 1,
{
    proof {
        lemma_help_arms_nothing();
    }
    let reply: String;
    let arm_current: Option<KeyWrite>;
    if str_eq(name, "help") {
        reply = help_msg.to_owned();
        arm_current = None;
    } else if str_eq(name, "start") {
        reply = help_msg.to_owned();
        arm_current = Some(set_current_prompt_key(name));
    } else if str_eq(name, "summarize") {
        reply = String::from_str("I'm ready to summarize, please input a url or text");
        arm_current = Some(set_current_prompt_key(name));
    } else if str_eq(name, "code") {
        reply = String::from_str("I'm ready to review source code");
        arm_current = Some(set_current_prompt_key(name));
    } else if str_eq(name, "medical") {
        reply = String::from_str(
            "I am ready to review and summarize doctor notes or medical test results",
        );
        arm_current = Some(set_current_prompt_key(name));
    } else if str_eq(name, "translate") {
        reply = String::from_str("I'm ready to translate");
        arm_current = Some(set_current_prompt_key(name));
    } else if str_eq(name, "reply_tweet") {
        reply = String::from_str("I'm ready to process your tweet");
        arm_current = Some(set_current_prompt_key(name));
    } else if str_eq(name, "qa") {
        reply = String::from_str("I'm ready for your questions");
        arm_current = Some(set_current_prompt_key(name));
    } else {
        reply = String::new();
        arm_current = None;
    }
    let clear_previous = if arm_current.is_some() {
        Some(
            KeyWrite {
                key: String::from_str("previous_prompt_key"),
                value: String::new(),
                ttl_secs: 1,
            },
        )
    } else {
        None
    };
    CommandOutcome { reply, arm_current, clear_previous }
}

} // verus!
