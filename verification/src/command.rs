//! The in-chat command grammar and dispatcher: parses prefixed chat text into
//! a typed action and executes it into a structured response.

pub mod case;
pub mod dice;

use vstd::prelude::*;

use self::case::{CaseArgs, CaseMode};
use self::dice::DiceArgs;
use crate::text::{
    i64_to_string, spec_i64_dec, spec_trim, str_eq, trim,
};
use crate::Context;

verus! {

/// Content of a message the dispatcher asks the platform layer to send, or
/// to set when editing.
pub struct OutMessage {
    /// The message text.
    pub text: String,
    /// Whether the text is to be rendered as markdown.
    pub markdown: bool,
    /// A randomized-value attachment to carry, by its symbolic label.
    pub dice_emoticon: Option<String>,
    /// Whether to send without a notification.
    pub silent: bool,
    /// The message this one replies to, if any.
    pub reply_to: Option<i32>,
}

impl OutMessage {
    /// A plain text message with no styling, attachment or reply target.
    pub fn plain(text: String) -> (r: Self)
        ensures
            r.text == text,
            !r.markdown,
            r.dice_emoticon is None,
            !r.silent,
            r.reply_to is None,
    {
        OutMessage { text, markdown: false, dice_emoticon: None, silent: false, reply_to: None }
    }
}

/// What to do with the triggering message once a command has run.
pub enum ActionResponse {
    /// Delete the triggering message.
    Delete,
    /// Edit the triggering message to the given content.
    Edit(OutMessage),
    /// Reply to the triggering message with the given content.
    Reply(OutMessage),
}

/// The outcome of executing a command: whether the update loop should stop,
/// and the one response to apply to the triggering message.
pub struct ActionResult {
    /// Whether the update loop should terminate.
    pub quit: bool,
    /// The response to apply, if any.
    pub response: Option<ActionResponse>,
}

impl ActionResult {
    /// A terminating result, deleting the triggering message when asked to.
    pub fn quit(delete: bool) -> (r: Self)
        ensures
            r.quit,
            delete ==> r.response == Some(ActionResponse::Delete),
            !delete ==> r.response is None,
    {
        Self {
            quit: true,
            response: if delete {
                Some(ActionResponse::Delete)
            } else {
                None
            },
        }
    }

    /// A non-terminating result that edits the triggering message.
    pub fn edit(new_message: OutMessage) -> (r: Self)
        ensures
            !r.quit,
            r.response is Some,
            r.response->Some_0 is Edit,
            r.response->Some_0->Edit_0 == new_message,
    {
        Self { quit: false, response: Some(ActionResponse::Edit(new_message)) }
    }

    /// A non-terminating result that replies to the triggering message.
    pub fn reply(response: OutMessage) -> (r: Self)
        ensures
            !r.quit,
            r.response is Some,
            r.response->Some_0 is Reply,
            r.response->Some_0->Reply_0 == response,
    {
        Self { quit: false, response: Some(ActionResponse::Reply(response)) }
    }
}

/// The closed set of commands the dispatcher understands.
pub enum BotAction {
    /// Stop the update loop and delete the command message.
    Quit,
    /// Health check: reply with a fixed acknowledgement.
    Ping,
    /// Edit the command message to show a message identifier.
    MsgId,
    /// Edit the command message to show the chat identifier.
    ChatId,
    /// Rewrite a text's case.
    Case(CaseArgs),
    /// Send a randomized-value attachment.
    Dice(DiceArgs),
}

/// A parsed command, as the grammar produces it.
pub struct BotCommand {
    /// The action the command resolves to.
    pub action: BotAction,
}

/// A command described over mathematical values, for contracts.
pub enum ParsedAction {
    Quit,
    Ping,
    MsgId,
    ChatId,
    Case { mode: CaseMode, args: Seq<Seq<char>> },
    Dice { emoji: Seq<char> },
}

/// What parsing a chat text yields, described over mathematical values.
pub enum ParseOutcome {
    /// The text does not start with the command prefix.
    NoPrefix,
    /// Shell-style word splitting failed.
    Tokenize,
    /// The words violate the command grammar.
    Grammar,
    /// A well-formed command.
    Command(ParsedAction),
}

impl BotAction {
    /// The mathematical description of this action.
    pub open spec fn spec_parsed(self) -> ParsedAction {
        match self {
            BotAction::Quit => ParsedAction::Quit,
            BotAction::Ping => ParsedAction::Ping,
            BotAction::MsgId => ParsedAction::MsgId,
            BotAction::ChatId => ParsedAction::ChatId,
            BotAction::Case(args) => ParsedAction::Case {
                mode: args.mode,
                args: args.text.deep_view(),
            },
            BotAction::Dice(args) => ParsedAction::Dice { emoji: args.emoji@ },
        }
    }
}

/// How a chat command can fail before an action runs.
#[derive(Debug)]
pub enum BotCommandError {
    /// The text does not start with the command prefix.
    MissingPrefix,
    /// Shell-style word splitting failed.
    ParseFailed,
    /// The words violate the command grammar; the message is suitable for
    /// showing to the user verbatim.
    Grammar {
        /// The rendered description of the violation.
        message: String,
    },
}

impl BotCommandError {
    /// A human-readable description of the failure; never empty for errors
    /// the parser produces.
    pub fn message(&self) -> (r: String)
        ensures
            *self matches BotCommandError::Grammar { message } ==> r@ == message@,
            *self is MissingPrefix ==> r@.len() > 0,
            *self is ParseFailed ==> r@.len() > 0,
    {
        match self {
            BotCommandError::MissingPrefix => {
                proof {
                    reveal_strlit("Missing required prefix for command");
                }
                String::from_str("Missing required prefix for command")
            },
            BotCommandError::ParseFailed => {
                proof {
                    reveal_strlit("Failed to parse command");
                }
                String::from_str("Failed to parse command")
            },
            BotCommandError::Grammar { message } => message.clone(),
        }
    }
}

/// What shell-style word splitting yields for a text: its words, or `None`
/// where the text cannot be split (a quote left unclosed). Determined by the
/// text alone.
pub uninterp spec fn spec_shell_split(s: Seq<char>) -> Option<Seq<Seq<char>>>;

/// Relies on shell_words::split: splits text into words with shell-style
/// quoting and escaping honoured; a malformed text yields nothing.
#[verifier::external_body]
fn shell_split(s: &str) -> (r: Option<Vec<String>>)
    ensures
        match r {
            Some(v) => spec_shell_split(s@) == Some(v.deep_view()),
            None => spec_shell_split(s@) is None,
        },
{
    match shell_words::split(s) {
        Ok(v) => Some(v),
        Err(_) => None,
    }
}

/// `s` with every leading command-prefix character removed.
pub open spec fn spec_strip_prefix_bangs(s: Seq<char>) -> Seq<char>
    decreases s.len(),
{
    if s.len() > 0 && s[0] == '!' {
        spec_strip_prefix_bangs(s.skip(1))
    } else {
        s
    }
}

proof fn lemma_strip_bangs_at(s: Seq<char>, i: int)
    requires
        0 <= i <= s.len(),
        forall|k: int| 0 <= k < i ==> #[trigger] s[k] == '!',
        i < s.len() ==> s[i] != '!',
    ensures
        spec_strip_prefix_bangs(s) == s.skip(i),
    decreases i,
{
    if i == 0 {
        assert(s.skip(0) =~= s);
    } else {
        lemma_strip_bangs_at(s.skip(1), i - 1);
        assert(s.skip(1).skip(i - 1) =~= s.skip(i));
    }
}

/// Removes every leading command-prefix character.
fn strip_prefix_bangs(s: &str) -> (r: &str)
    ensures
        r@ == spec_strip_prefix_bangs(s@),
{
    let n = s.unicode_len();
    let mut i: usize = 0;
    while i < n
        invariant
            i <= n,
            n == s@.len(),
            forall|k: int| 0 <= k < i ==> #[trigger] s@[k] == '!',
        ensures
            i <= n,
            n == s@.len(),
            forall|k: int| 0 <= k < i ==> #[trigger] s@[k] == '!',
            i < n ==> s@[i as int] != '!',
        decreases n - i,
    {
        if s.get_char(i) != '!' {
            break;
        }
        i += 1;
    }
    proof {
        lemma_strip_bangs_at(s@, i as int);
        assert(s@.subrange(i as int, n as int) =~= s@.skip(i as int));
    }
    s.substring_char(i, n)
}

/// The grammar of the closed command set, over a token list: the first token
/// names the command, and each command fixes the shape of what follows.
pub open spec fn spec_grammar(tokens: Seq<Seq<char>>) -> ParseOutcome {
    if tokens.len() == 0 {
        ParseOutcome::Grammar
    } else if tokens[0] == "quit"@ {
        if tokens.len() == 1 {
            ParseOutcome::Command(ParsedAction::Quit)
        } else {
            ParseOutcome::Grammar
        }
    } else if tokens[0] == "ping"@ {
        if tokens.len() == 1 {
            ParseOutcome::Command(ParsedAction::Ping)
        } else {
            ParseOutcome::Grammar
        }
    } else if tokens[0] == "msg-id"@ {
        if tokens.len() == 1 {
            ParseOutcome::Command(ParsedAction::MsgId)
        } else {
            ParseOutcome::Grammar
        }
    } else if tokens[0] == "chat-id"@ {
        if tokens.len() == 1 {
            ParseOutcome::Command(ParsedAction::ChatId)
        } else {
            ParseOutcome::Grammar
        }
    } else if tokens[0] == "case"@ || tokens[0] == "c"@ {
        if tokens.len() < 2 {
            ParseOutcome::Grammar
        } else {
            match CaseMode::spec_parse(tokens[1]) {
                Some(mode) => ParseOutcome::Command(
                    ParsedAction::Case { mode, args: tokens.skip(2) },
                ),
                None => ParseOutcome::Grammar,
            }
        }
    } else if tokens[0] == "dice"@ {
        if tokens.len() == 2 {
            ParseOutcome::Command(ParsedAction::Dice { emoji: tokens[1] })
        } else {
            ParseOutcome::Grammar
        }
    } else {
        ParseOutcome::Grammar
    }
}

/// What parsing a chat text yields: no prefix, a tokenization failure, a
/// grammar violation, or a command.
pub open spec fn spec_parse_chat_command(text: Seq<char>) -> ParseOutcome {
    let t = spec_trim(text);
    if !(t.len() > 0 && t[0] == '!') {
        ParseOutcome::NoPrefix
    } else {
        match spec_shell_split(spec_strip_prefix_bangs(t)) {
            Some(tokens) => spec_grammar(tokens),
            None => ParseOutcome::Tokenize,
        }
    }
}

/// A grammar error wrapping the given rendered message.
fn grammar_err(message: String) -> (r: Result<BotCommand, BotCommandError>)
    requires
        message@.len() > 0,
    ensures
        r matches Err(BotCommandError::Grammar { message: m }) && m@ == message@,
{
    Err(BotCommandError::Grammar { message })
}

/// Parses a token list against the command grammar.
fn parse_tokens(tokens: &Vec<String>) -> (r: Result<BotCommand, BotCommandError>)
    ensures
        match r {
            Ok(cmd) => spec_grammar(tokens.deep_view()) == ParseOutcome::Command(
                cmd.action.spec_parsed(),
            ),
            Err(e) => {
                &&& e matches BotCommandError::Grammar { message } && message@.len() > 0
                &&& spec_grammar(tokens.deep_view()) == ParseOutcome::Grammar
            },
        },
{
    let ghost tv = tokens.deep_view();
    proof {
        assert(tv.len() == tokens@.len());
    }
    if tokens.len() == 0 {
        proof {
            reveal_strlit("A command name is required");
        }
        return grammar_err(String::from_str("A command name is required"));
    }
    let name = &tokens[0];
    proof {
        assert(tv[0] == tokens@[0]@);
    }
    if str_eq(name.as_str(), "quit") {
        if tokens.len() == 1 {
            Ok(BotCommand { action: BotAction::Quit })
        } else {
            proof {
                reveal_strlit("The quit command takes no arguments");
            }
            grammar_err(String::from_str("The quit command takes no arguments"))
        }
    } else if str_eq(name.as_str(), "ping") {
        if tokens.len() == 1 {
            Ok(BotCommand { action: BotAction::Ping })
        } else {
            proof {
                reveal_strlit("The ping command takes no arguments");
            }
            grammar_err(String::from_str("The ping command takes no arguments"))
        }
    } else if str_eq(name.as_str(), "msg-id") {
        if tokens.len() == 1 {
            Ok(BotCommand { action: BotAction::MsgId })
        } else {
            proof {
                reveal_strlit("The msg-id command takes no arguments");
            }
            grammar_err(String::from_str("The msg-id command takes no arguments"))
        }
    } else if str_eq(name.as_str(), "chat-id") {
        if tokens.len() == 1 {
            Ok(BotCommand { action: BotAction::ChatId })
        } else {
            proof {
                reveal_strlit("The chat-id command takes no arguments");
            }
            grammar_err(String::from_str("The chat-id command takes no arguments"))
        }
    } else if str_eq(name.as_str(), "case") || str_eq(name.as_str(), "c") {
        if tokens.len() < 2 {
            proof {
                reveal_strlit("The case command needs a mode");
            }
            return grammar_err(String::from_str("The case command needs a mode"));
        }
        proof {
            assert(tv[1] == tokens@[1]@);
        }
        match CaseMode::parse(tokens[1].as_str()) {
            Some(mode) => {
                let mut args: Vec<String> = Vec::new();
                let n = tokens.len();
                let mut i: usize = 2;
                while i < n
                    invariant
                        2 <= i <= n,
                        n == tokens.len(),
                        tv == tokens.deep_view(),
                        tv.len() == n,
                        args.deep_view() =~= tv.subrange(2, i as int),
                    decreases n - i,
                {
                    let ghost old_dv = args.deep_view();
                    args.push(tokens[i].clone());
                    proof {
                        assert(tv[i as int] == tokens@[i as int]@);
                        assert(args.deep_view() =~= old_dv.push(tv[i as int]));
                        assert(args.deep_view() =~= tv.subrange(2, i + 1));
                    }
                    i += 1;
                }
                proof {
                    assert(tv.subrange(2, n as int) =~= tv.skip(2));
                }
                Ok(BotCommand { action: BotAction::Case(CaseArgs { mode, text: args }) })
            },
            None => {
                proof {
                    reveal_strlit("Unknown case mode: ");
                }
                let mut message = String::from_str("Unknown case mode: ");
                message.append(tokens[1].as_str());
                grammar_err(message)
            },
        }
    } else if str_eq(name.as_str(), "dice") {
        if tokens.len() == 2 {
            proof {
                assert(tv[1] == tokens@[1]@);
            }
            Ok(BotCommand { action: BotAction::Dice(DiceArgs { emoji: tokens[1].clone() }) })
        } else {
            proof {
                reveal_strlit("The dice command takes exactly one argument");
            }
            grammar_err(String::from_str("The dice command takes exactly one argument"))
        }
    } else {
        proof {
            reveal_strlit("Unrecognized command: ");
        }
        let mut message = String::from_str("Unrecognized command: ");
        message.append(name.as_str());
        grammar_err(message)
    }
}

/// Parses a chat message's text into a command: the text is trimmed, must
/// start with the command prefix, is split into shell-style words, and the
/// words are matched against the grammar. Any failure is reported without
/// executing anything.
pub fn parse_chat_command(text: &str) -> (r: Result<BotCommand, BotCommandError>)
    ensures
        match r {
            Ok(cmd) => spec_parse_chat_command(text@) == ParseOutcome::Command(
                cmd.action.spec_parsed(),
            ),
            Err(e) => match e {
                BotCommandError::MissingPrefix => spec_parse_chat_command(text@)
                    == ParseOutcome::NoPrefix,
                BotCommandError::ParseFailed => spec_parse_chat_command(text@)
                    == ParseOutcome::Tokenize,
                BotCommandError::Grammar { message } => spec_parse_chat_command(text@)
                    == ParseOutcome::Grammar && message@.len() > 0,
            },
        },
{
    let trimmed = trim(text);
    let n = trimmed.unicode_len();
    if n == 0 || trimmed.get_char(0) != '!' {
        return Err(BotCommandError::MissingPrefix);
    }
    let body = strip_prefix_bangs(trimmed);
    match shell_split(body) {
        Some(tokens) => parse_tokens(&tokens),
        None => Err(BotCommandError::ParseFailed),
    }
}

/// The identifier the message-identifier command shows: the replied-to
/// message's identifier when there is one, else the triggering message's own.
pub open spec fn spec_target_message_id(context: Context) -> int {
    match context.reply_to_message_id {
        Some(id) => id as int,
        None => context.message_id as int,
    }
}

/// Executes a parsed action against the triggering message's context,
/// producing the response to apply and whether the loop should stop.
pub fn execute_action(action: &BotAction, context: &Context) -> (r: ActionResult)
    ensures
        action is Quit ==> r.quit && r.response == Some(ActionResponse::Delete),
        action is Ping ==> !r.quit && r.response is Some && r.response->Some_0 is Reply && {
            let m = r.response->Some_0->Reply_0;
            &&& m.text@ == "Pong!"@
            &&& !m.markdown
            &&& m.dice_emoticon is None
            &&& !m.silent
            &&& m.reply_to is None
        },
        action is MsgId ==> !r.quit && r.response is Some && r.response->Some_0 is Edit && {
            let m = r.response->Some_0->Edit_0;
            &&& m.text@ == "Message ID: `"@ + spec_i64_dec(spec_target_message_id(*context))
                + "`"@
            &&& m.markdown
            &&& m.dice_emoticon is None
            &&& !m.silent
            &&& m.reply_to is None
        },
        action is ChatId ==> !r.quit && r.response is Some && r.response->Some_0 is Edit && {
            let m = r.response->Some_0->Edit_0;
            &&& m.text@ == "Chat ID: `"@ + spec_i64_dec(context.chat_id as int) + "`"@
            &&& m.markdown
            &&& m.dice_emoticon is None
            &&& !m.silent
            &&& m.reply_to is None
        },
        action matches BotAction::Case(args) ==> !r.quit && r.response is Some
            && r.response->Some_0 is Edit && {
            let m = r.response->Some_0->Edit_0;
            let source = args.spec_source_text(
                match context.reply_text {
                    Some(t) => Some(t@),
                    None => None,
                },
            );
            &&& !m.markdown
            &&& m.dice_emoticon is None
            &&& !m.silent
            &&& m.reply_to is None
            &&& args.mode == CaseMode::Upcase ==> m.text@ == case::spec_str_upper(source)
            &&& args.mode == CaseMode::Downcase ==> m.text@ == case::spec_str_lower(source)
            &&& args.mode == CaseMode::Invert ==> m.text@ == case::spec_invert(source)
            &&& args.mode == CaseMode::Alternate ==> m.text@ == case::spec_alternate(source, 0)
            &&& args.mode == CaseMode::Randomize ==> case::spec_mixed_case_of(source, m.text@)
        },
        action matches BotAction::Dice(args) ==> !r.quit && r.response is Some
            && r.response->Some_0 is Reply && {
            let m = r.response->Some_0->Reply_0;
            &&& m.text@.len() == 0
            &&& !m.markdown
            &&& m.dice_emoticon matches Some(e) && e@ == args.emoji@
            &&& m.silent
            &&& m.reply_to is None
        },
{
    match action {
        BotAction::Quit => ActionResult::quit(true),
        BotAction::Ping => {
            proof {
                reveal_strlit("Pong!");
            }
            ActionResult::reply(OutMessage::plain(String::from_str("Pong!")))
        },
        BotAction::MsgId => {
            let id: i64 = match context.reply_to_message_id {
                Some(reply_id) => reply_id as i64,
                None => context.message_id as i64,
            };
            proof {
                reveal_strlit("Message ID: `");
                reveal_strlit("`");
            }
            let mut text = String::from_str("Message ID: `");
            text.append(i64_to_string(id).as_str());
            text.append("`");
            ActionResult::edit(
                OutMessage {
                    text,
                    markdown: true,
                    dice_emoticon: None,
                    silent: false,
                    reply_to: None,
                },
            )
        },
        BotAction::ChatId => {
            proof {
                reveal_strlit("Chat ID: `");
                reveal_strlit("`");
            }
            let mut text = String::from_str("Chat ID: `");
            text.append(i64_to_string(context.chat_id).as_str());
            text.append("`");
            ActionResult::edit(
                OutMessage {
                    text,
                    markdown: true,
                    dice_emoticon: None,
                    silent: false,
                    reply_to: None,
                },
            )
        },
        BotAction::Case(args) => {
            let reply: Option<&str> = match &context.reply_text {
                Some(t) => Some(t.as_str()),
                None => None,
            };
            match args.handle(reply) {
                Ok(result) => result,
                Err(_) => {
                    proof {
                        assert(false);
                    }
                    ActionResult { quit: false, response: None }
                },
            }
        },
        BotAction::Dice(args) => {
            match args.handle() {
                Ok(result) => result,
                Err(_) => {
                    proof {
                        assert(false);
                    }
                    ActionResult { quit: false, response: None }
                },
            }
        },
    }
}

} // verus!
