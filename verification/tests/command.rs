//! The command grammar and dispatcher: parsing, execution, and the grammar's
//! structured errors.

use shabby::command::{
    execute_action, parse_chat_command, ActionResponse, BotAction, BotCommandError,
};
use shabby::Context;

fn bare_context() -> Context {
    Context { chat_id: 100, message_id: 42, reply_to_message_id: None, reply_text: None }
}

fn parse_action(text: &str) -> BotAction {
    parse_chat_command(text).unwrap().action
}

#[test]
fn ping_replies_pong_and_keeps_running() {
    let action = parse_action("!ping");
    assert!(matches!(action, BotAction::Ping));
    let result = execute_action(&action, &bare_context());
    assert!(!result.quit);
    match result.response {
        Some(ActionResponse::Reply(m)) => {
            assert_eq!(m.text, "Pong!");
            assert!(!m.markdown);
            assert!(!m.silent);
            assert!(m.dice_emoticon.is_none());
        }
        other => panic!("expected a reply, got {}", describe(&other)),
    }
}

#[test]
fn quit_terminates_and_deletes_the_trigger() {
    let action = parse_action("!quit");
    assert!(matches!(action, BotAction::Quit));
    let result = execute_action(&action, &bare_context());
    assert!(result.quit);
    assert!(matches!(result.response, Some(ActionResponse::Delete)));
}

#[test]
fn case_upcase_edits_to_upper() {
    let action = parse_action("!case U hello");
    let result = execute_action(&action, &bare_context());
    assert!(!result.quit);
    match result.response {
        Some(ActionResponse::Edit(m)) => assert_eq!(m.text, "HELLO"),
        other => panic!("expected an edit, got {}", describe(&other)),
    }
}

#[test]
fn case_invert_swaps_case() {
    let action = parse_action("!case i HeLLo");
    let result = execute_action(&action, &bare_context());
    match result.response {
        Some(ActionResponse::Edit(m)) => assert_eq!(m.text, "hEllO"),
        other => panic!("expected an edit, got {}", describe(&other)),
    }
}

#[test]
fn case_invert_keeps_caseless_characters() {
    let action = parse_action("!case i a1b!");
    let result = execute_action(&action, &bare_context());
    match result.response {
        Some(ActionResponse::Edit(m)) => assert_eq!(m.text, "A1B!"),
        other => panic!("expected an edit, got {}", describe(&other)),
    }
}

#[test]
fn case_alternate_upper_on_even_positions() {
    let action = parse_action("!case a abcd");
    let result = execute_action(&action, &bare_context());
    match result.response {
        Some(ActionResponse::Edit(m)) => assert_eq!(m.text, "AbCd"),
        other => panic!("expected an edit, got {}", describe(&other)),
    }
}

#[test]
fn case_randomize_maps_each_character_to_a_case_variant() {
    let action = parse_action("!case r abcdefgh");
    let result = execute_action(&action, &bare_context());
    match result.response {
        Some(ActionResponse::Edit(m)) => {
            assert_eq!(m.text.len(), 8);
            for (out, orig) in m.text.chars().zip("abcdefgh".chars()) {
                assert!(out == orig.to_ascii_uppercase() || out == orig);
            }
        }
        other => panic!("expected an edit, got {}", describe(&other)),
    }
}

#[test]
fn case_prefers_replied_to_text_over_inline_arguments() {
    let action = parse_action("!case d IGNORED WORDS");
    let mut context = bare_context();
    context.reply_text = Some("ReplyText".to_string());
    let result = execute_action(&action, &context);
    match result.response {
        Some(ActionResponse::Edit(m)) => assert_eq!(m.text, "replytext"),
        other => panic!("expected an edit, got {}", describe(&other)),
    }
}

#[test]
fn case_mode_names_are_case_insensitive_and_alias_c_works() {
    let action = parse_action("!c UPCASE hi");
    let result = execute_action(&action, &bare_context());
    match result.response {
        Some(ActionResponse::Edit(m)) => assert_eq!(m.text, "HI"),
        other => panic!("expected an edit, got {}", describe(&other)),
    }
}

#[test]
fn case_honours_shell_quoting() {
    let action = parse_action("!case u 'hello  world'");
    let result = execute_action(&action, &bare_context());
    match result.response {
        Some(ActionResponse::Edit(m)) => assert_eq!(m.text, "HELLO  WORLD"),
        other => panic!("expected an edit, got {}", describe(&other)),
    }
}

#[test]
fn msg_id_edits_in_markdown_with_own_id() {
    let action = parse_action("!msg-id");
    let result = execute_action(&action, &bare_context());
    match result.response {
        Some(ActionResponse::Edit(m)) => {
            assert_eq!(m.text, "Message ID: `42`");
            assert!(m.markdown);
        }
        other => panic!("expected an edit, got {}", describe(&other)),
    }
}

#[test]
fn msg_id_prefers_the_replied_to_message() {
    let action = parse_action("!msg-id");
    let mut context = bare_context();
    context.reply_to_message_id = Some(7);
    let result = execute_action(&action, &context);
    match result.response {
        Some(ActionResponse::Edit(m)) => assert_eq!(m.text, "Message ID: `7`"),
        other => panic!("expected an edit, got {}", describe(&other)),
    }
}

#[test]
fn chat_id_edits_in_markdown_with_the_chat() {
    let action = parse_action("!chat-id");
    let mut context = bare_context();
    context.chat_id = -1009876;
    let result = execute_action(&action, &context);
    match result.response {
        Some(ActionResponse::Edit(m)) => {
            assert_eq!(m.text, "Chat ID: `-1009876`");
            assert!(m.markdown);
        }
        other => panic!("expected an edit, got {}", describe(&other)),
    }
}

#[test]
fn dice_replies_silently_with_the_label() {
    let action = parse_action("!dice X");
    let result = execute_action(&action, &bare_context());
    assert!(!result.quit);
    match result.response {
        Some(ActionResponse::Reply(m)) => {
            assert_eq!(m.text, "");
            assert!(m.silent);
            assert_eq!(m.dice_emoticon.as_deref(), Some("X"));
        }
        other => panic!("expected a reply, got {}", describe(&other)),
    }
}

#[test]
fn case_with_no_arguments_edits_to_the_empty_text() {
    let action = parse_action("!case u");
    let result = execute_action(&action, &bare_context());
    match result.response {
        Some(ActionResponse::Edit(m)) => assert_eq!(m.text, ""),
        other => panic!("expected an edit, got {}", describe(&other)),
    }
}

#[test]
fn repeated_prefix_characters_are_stripped() {
    assert!(matches!(parse_action("!!ping"), BotAction::Ping));
}

#[test]
fn surrounding_whitespace_is_trimmed() {
    assert!(matches!(parse_action("   !ping  "), BotAction::Ping));
}

#[test]
fn missing_prefix_is_its_own_error() {
    assert!(matches!(
        parse_chat_command("ping"),
        Err(BotCommandError::MissingPrefix)
    ));
    assert!(matches!(
        parse_chat_command(""),
        Err(BotCommandError::MissingPrefix)
    ));
}

#[test]
fn unclosed_quote_fails_tokenization() {
    assert!(matches!(
        parse_chat_command("!case u 'unclosed"),
        Err(BotCommandError::ParseFailed)
    ));
}

#[test]
fn unknown_command_yields_a_non_empty_grammar_error() {
    match parse_chat_command("!bogus") {
        Err(BotCommandError::Grammar { message }) => {
            assert!(!message.is_empty());
            assert!(message.contains("bogus"));
        }
        other => panic!("expected a grammar error, got {}", describe_parse(&other)),
    }
}

#[test]
fn wrong_arity_yields_a_non_empty_grammar_error() {
    for text in ["!ping extra", "!quit now", "!msg-id 1", "!chat-id x", "!dice", "!dice a b", "!case", "!"] {
        match parse_chat_command(text) {
            Err(BotCommandError::Grammar { message }) => assert!(!message.is_empty()),
            other => panic!("expected a grammar error for {:?}, got {}", text, describe_parse(&other)),
        }
    }
}

#[test]
fn unknown_case_mode_names_the_offender() {
    match parse_chat_command("!case x hello") {
        Err(BotCommandError::Grammar { message }) => {
            assert_eq!(message, "Unknown case mode: x");
        }
        other => panic!("expected a grammar error, got {}", describe_parse(&other)),
    }
}

#[test]
fn error_messages_are_never_empty() {
    assert!(!BotCommandError::MissingPrefix.message().is_empty());
    assert!(!BotCommandError::ParseFailed.message().is_empty());
    let err = BotCommandError::Grammar { message: "no such command".to_string() };
    assert_eq!(err.message(), "no such command");
}

fn describe(response: &Option<ActionResponse>) -> &'static str {
    match response {
        None => "no response",
        Some(ActionResponse::Delete) => "a delete",
        Some(ActionResponse::Edit(_)) => "an edit",
        Some(ActionResponse::Reply(_)) => "a reply",
    }
}

fn describe_parse(r: &Result<shabby::command::BotCommand, BotCommandError>) -> &'static str {
    match r {
        Ok(_) => "a parsed command",
        Err(BotCommandError::MissingPrefix) => "a missing-prefix error",
        Err(BotCommandError::ParseFailed) => "a tokenization error",
        Err(BotCommandError::Grammar { .. }) => "a grammar error",
    }
}
