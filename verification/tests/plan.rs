//! The update-planning step: self-message filtering and the reroll rule.

use shabby::command::BotAction;
use shabby::{plan_update, MessageInfo, UpdateEvent, UpdatePlan};

const ME: i64 = 1000;

fn message(sender_id: Option<i64>, text: &str) -> MessageInfo {
    MessageInfo {
        sender_id,
        chat_id: 55,
        message_id: 7,
        text: text.to_string(),
        reply_to_message_id: None,
        dice_value: None,
    }
}

#[test]
fn only_own_messages_are_dispatched() {
    let senders = [
        (Some(ME), true),
        (Some(ME + 1), false),
        (Some(0), false),
        (Some(-ME), false),
        (None, false),
    ];
    for (sender, expect_processed) in senders {
        let update = UpdateEvent::NewMessage(message(sender, "!ping"));
        let plan = plan_update(ME, &update);
        if expect_processed {
            assert!(matches!(plan, UpdatePlan::Command(_)));
        } else {
            assert!(matches!(plan, UpdatePlan::Skip));
        }
    }
}

#[test]
fn non_message_events_are_skipped() {
    assert!(matches!(plan_update(ME, &UpdateEvent::Other), UpdatePlan::Skip));
}

#[test]
fn plain_text_from_self_asks_for_nothing() {
    let update = UpdateEvent::NewMessage(message(Some(ME), "just chatting"));
    assert!(matches!(plan_update(ME, &update), UpdatePlan::NoAction));
}

#[test]
fn losing_dice_value_triggers_exactly_one_replacement() {
    let mut msg = message(Some(ME), "");
    msg.dice_value = Some(3);
    msg.reply_to_message_id = Some(99);
    let plan = plan_update(ME, &UpdateEvent::NewMessage(msg));
    match plan {
        UpdatePlan::Reroll { replacement } => {
            assert_eq!(replacement.text, "");
            assert_eq!(replacement.dice_emoticon.as_deref(), Some(""));
            assert!(replacement.silent);
            assert!(!replacement.markdown);
            assert_eq!(replacement.reply_to, Some(99));
        }
        _ => panic!("expected a reroll"),
    }
}

#[test]
fn winning_dice_value_triggers_no_action() {
    let mut msg = message(Some(ME), "");
    msg.dice_value = Some(6);
    assert!(matches!(
        plan_update(ME, &UpdateEvent::NewMessage(msg)),
        UpdatePlan::NoAction
    ));
}

#[test]
fn dice_from_someone_else_is_ignored() {
    let mut msg = message(Some(ME + 1), "");
    msg.dice_value = Some(3);
    assert!(matches!(
        plan_update(ME, &UpdateEvent::NewMessage(msg)),
        UpdatePlan::Skip
    ));
}

#[test]
fn command_text_routes_to_the_parser() {
    let update = UpdateEvent::NewMessage(message(Some(ME), "  !quit "));
    match plan_update(ME, &update) {
        UpdatePlan::Command(cmd) => assert!(matches!(cmd.action, BotAction::Quit)),
        _ => panic!("expected a command"),
    }
}

#[test]
fn grammar_errors_report_whether_the_chat_is_the_self_chat() {
    let mut msg = message(Some(ME), "!bogus");
    msg.chat_id = ME;
    match plan_update(ME, &UpdateEvent::NewMessage(msg)) {
        UpdatePlan::CommandError { message, in_self_chat } => {
            assert!(!message.is_empty());
            assert!(in_self_chat);
        }
        _ => panic!("expected a command error"),
    }
    let msg = message(Some(ME), "!bogus");
    match plan_update(ME, &UpdateEvent::NewMessage(msg)) {
        UpdatePlan::CommandError { in_self_chat, .. } => assert!(!in_self_chat),
        _ => panic!("expected a command error"),
    }
}

#[test]
fn tokenization_failures_are_reported_not_sent_to_chat() {
    let update = UpdateEvent::NewMessage(message(Some(ME), "!case u 'unclosed"));
    assert!(matches!(
        plan_update(ME, &update),
        UpdatePlan::CommandFailed(_)
    ));
}
