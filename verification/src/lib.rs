//! An automated agent for a remote messaging platform: it watches the
//! authenticated account's own messages and reacts to them, executing small
//! in-chat commands and enforcing a reroll rule on randomized-value messages.
//!
//! This crate holds the verified core: the severity scale and logging policy,
//! the configuration resolver, the command grammar and dispatcher, the
//! update-planning step of the consumption loop, and the session lifecycle's
//! decision table. The surrounding process — terminal flags, file and network
//! transport, the logging backend — drives these from outside.

pub mod cli;
pub mod command;
pub mod config;
pub mod dirs;
pub mod logging;
mod text;

use vstd::prelude::*;

use crate::cli::Cli;
use crate::command::{
    parse_chat_command, BotCommand, BotCommandError, OutMessage, ParseOutcome,
};
use crate::logging::level::spec_default_level;
use crate::logging::LogLevel;
use crate::text::{spec_trim, trim};

verus! {

/// The triggering message's surroundings, handed to the dispatcher as plain
/// values.
pub struct Context {
    /// The chat the message stands in.
    pub chat_id: i64,
    /// The triggering message's own identifier.
    pub message_id: i32,
    /// The identifier of the message it replies to, if any.
    pub reply_to_message_id: Option<i32>,
    /// The text of the message it replies to, if any.
    pub reply_text: Option<String>,
}

/// What the update loop reads out of one new-message event.
pub struct MessageInfo {
    /// The sender's identifier, when the platform names one.
    pub sender_id: Option<i64>,
    /// The chat the message stands in.
    pub chat_id: i64,
    /// The message's own identifier.
    pub message_id: i32,
    /// The message's text.
    pub text: String,
    /// The identifier of the message it replies to, if any.
    pub reply_to_message_id: Option<i32>,
    /// The revealed value of a randomized-value attachment, if one is
    /// attached.
    pub dice_value: Option<i32>,
}

/// One event from the platform's update stream, reduced to what the loop
/// cares about.
pub enum UpdateEvent {
    /// A new message, with the parts the loop reads.
    NewMessage(MessageInfo),
    /// Any other kind of event.
    Other,
}

/// The randomized value that stops the reroll rule.
pub const WINNING_DICE_VALUE: i32 = 6;

/// What the loop should do with one update.
pub enum UpdatePlan {
    /// Not a new message from the account itself: discard with no side
    /// effect.
    Skip,
    /// A well-formed command, to be executed against the message's context.
    Command(BotCommand),
    /// Command parsing failed before the grammar; report it and continue.
    CommandFailed(BotCommandError),
    /// The command violates the grammar; surface the message back into the
    /// chat: reply in place in the account's own chat, else delete the
    /// trigger and forward the text there.
    CommandError {
        /// The rendered grammar error, suitable for showing verbatim.
        message: String,
        /// Whether the triggering chat is the account's own chat.
        in_self_chat: bool,
    },
    /// A losing randomized value: delete the original message and send this
    /// replacement in the same chat.
    Reroll {
        /// The replacement to send: a fresh, unrevealed randomized value.
        replacement: OutMessage,
    },
    /// A qualifying message that asks for nothing.
    NoAction,
}

/// Whether the event is a new message sent by the authenticated account
/// itself.
pub open spec fn spec_is_own_message(me_id: i64, update: UpdateEvent) -> bool {
    update matches UpdateEvent::NewMessage(msg) && msg.sender_id == Some(me_id)
}

/// Whether `m` is the reroll replacement for a message that replied to
/// `reply_to`: an empty text carrying an unrevealed, unlabeled
/// randomized-value attachment, sent silently as a reply to the same target.
pub open spec fn spec_is_reroll_replacement(m: OutMessage, reply_to: Option<i32>) -> bool {
    &&& m.text@.len() == 0
    &&& !m.markdown
    &&& m.dice_emoticon matches Some(e) && e@.len() == 0
    &&& m.silent
    &&& m.reply_to == reply_to
}

/// Decides what to do with one update. Only new messages sent by the account
/// itself are considered at all; of those, text starting with the command
/// prefix goes to the command parser, and anything else is checked against
/// the reroll rule.
pub fn plan_update(me_id: i64, update: &UpdateEvent) -> (r: UpdatePlan)
    ensures
        !spec_is_own_message(me_id, *update) ==> r is Skip,
        spec_is_own_message(me_id, *update) ==> ({
            let msg = update->NewMessage_0;
            let t = spec_trim(msg.text@);
            if t.len() > 0 && t[0] == '!' {
                match r {
                    UpdatePlan::Command(cmd) => command::spec_parse_chat_command(msg.text@)
                        == ParseOutcome::Command(cmd.action.spec_parsed()),
                    UpdatePlan::CommandFailed(e) => e is ParseFailed
                        && command::spec_parse_chat_command(msg.text@) == ParseOutcome::Tokenize,
                    UpdatePlan::CommandError { message, in_self_chat } => {
                        &&& command::spec_parse_chat_command(msg.text@) == ParseOutcome::Grammar
                        &&& message@.len() > 0
                        &&& in_self_chat == (msg.chat_id == me_id)
                    },
                    _ => false,
                }
            } else {
                match msg.dice_value {
                    Some(v) => if v != WINNING_DICE_VALUE {
                        r matches UpdatePlan::Reroll { replacement }
                            && spec_is_reroll_replacement(replacement, msg.reply_to_message_id)
                    } else {
                        r is NoAction
                    },
                    None => r is NoAction,
                }
            }
        }),
{
    match update {
        UpdateEvent::NewMessage(msg) => {
            let is_own = match msg.sender_id {
                Some(sender) => sender == me_id,
                None => false,
            };
            if !is_own {
                return UpdatePlan::Skip;
            }
            let trimmed = trim(msg.text.as_str());
            let n = trimmed.unicode_len();
            if n > 0 && trimmed.get_char(0) == '!' {
                match parse_chat_command(msg.text.as_str()) {
                    Ok(cmd) => UpdatePlan::Command(cmd),
                    Err(e) => match e {
                        BotCommandError::Grammar { message } => UpdatePlan::CommandError {
                            message,
                            in_self_chat: msg.chat_id == me_id,
                        },
                        BotCommandError::ParseFailed => UpdatePlan::CommandFailed(
                            BotCommandError::ParseFailed,
                        ),
                        BotCommandError::MissingPrefix => {
                            proof {
                                assert(false);
                            }
                            UpdatePlan::Skip
                        },
                    },
                }
            } else {
                match msg.dice_value {
                    Some(v) => {
                        if v != WINNING_DICE_VALUE {
                            UpdatePlan::Reroll {
                                replacement: OutMessage {
                                    text: String::new(),
                                    markdown: false,
                                    dice_emoticon: Some(String::new()),
                                    silent: true,
                                    reply_to: msg.reply_to_message_id,
                                },
                            }
                        } else {
                            UpdatePlan::NoAction
                        }
                    },
                    None => UpdatePlan::NoAction,
                }
            }
        },
        UpdateEvent::Other => UpdatePlan::Skip,
    }
}

/// The level the logging subsystem starts with, before any configuration
/// file is read: what the command line chose, or the compiled default.
pub fn initial_log_level(cli: &Cli) -> (r: LogLevel)
    ensures
        r == match cli.spec_log_level() {
            Some(l) => l,
            None => spec_default_level(),
        },
{
    match cli.log_level() {
        Some(level) => level,
        None => LogLevel::default(),
    }
}

/// Where the session lifecycle stands.
#[derive(Copy, Clone, Debug, PartialEq, Eq, Structural)]
pub enum LifecyclePhase {
    /// Nothing has happened yet.
    Disconnected,
    /// The transport is being established.
    Connecting,
    /// The account is signing in; `signed_in` once the platform has accepted
    /// the code and only the session save is outstanding.
    Authorizing { signed_in: bool },
    /// The update loop is racing the interrupt signal.
    Running,
    /// The loop is over; the session is being persisted.
    ShuttingDown,
    /// The run is over; `failed` tells how it ended.
    Terminated { failed: bool },
}

/// What the outside world reports back to the lifecycle.
#[derive(Copy, Clone, Debug, PartialEq, Eq, Structural)]
pub enum SessionEvent {
    /// The driver was asked to begin.
    Started,
    /// The transport is up; `authorized` tells whether the loaded session is
    /// already signed in.
    ConnectSucceeded { authorized: bool },
    /// The transport could not be established.
    ConnectFailed,
    /// The platform accepted the login code.
    SignInSucceeded,
    /// The platform rejected the sign-in.
    SignInFailed,
    /// The session file was written.
    SessionSaved,
    /// The session file could not be written.
    SessionSaveFailed,
    /// The update loop finished, by a terminating command or a transport
    /// error it reported.
    LoopFinished,
    /// The external interrupt signal fired.
    Interrupted,
}

/// What the driver must do next.
#[derive(Copy, Clone, Debug, PartialEq, Eq, Structural)]
pub enum DriverAction {
    /// Establish the transport with the resolved credentials.
    Connect,
    /// Request a login code, prompt for it, and attempt the sign-in.
    BeginSignIn,
    /// Persist the session to its configured path.
    PersistSession,
    /// Revoke the half-authorized session, then report the failure: a signed
    /// in session that could not be persisted must not be left behind.
    SignOutAndFail,
    /// Race the update loop against the interrupt signal.
    RunLoop,
    /// Report success and stop.
    ExitSuccess,
    /// Report the failure and stop.
    ExitFailure,
}

/// The lifecycle's transition table: for each phase and event, the next
/// phase and the action the driver performs on entering it. An event its
/// phase does not expect aborts the run as a failure.
pub open spec fn spec_lifecycle_step(phase: LifecyclePhase, event: SessionEvent) -> (
    LifecyclePhase,
    DriverAction,
) {
    match (phase, event) {
        (LifecyclePhase::Disconnected, SessionEvent::Started) => (
            LifecyclePhase::Connecting,
            DriverAction::Connect,
        ),
        (LifecyclePhase::Connecting, SessionEvent::ConnectSucceeded { authorized }) => if (
        authorized) {
            (LifecyclePhase::Running, DriverAction::RunLoop)
        } else {
            (LifecyclePhase::Authorizing { signed_in: false }, DriverAction::BeginSignIn)
        },
        (LifecyclePhase::Connecting, SessionEvent::ConnectFailed) => (
            LifecyclePhase::Terminated { failed: true },
            DriverAction::ExitFailure,
        ),
        (LifecyclePhase::Authorizing { signed_in: false }, SessionEvent::SignInSucceeded) => (
            LifecyclePhase::Authorizing { signed_in: true },
            DriverAction::PersistSession,
        ),
        (LifecyclePhase::Authorizing { signed_in: false }, SessionEvent::SignInFailed) => (
            LifecyclePhase::Terminated { failed: true },
            DriverAction::ExitFailure,
        ),
        (LifecyclePhase::Authorizing { signed_in: true }, SessionEvent::SessionSaved) => (
            LifecyclePhase::Running,
            DriverAction::RunLoop,
        ),
        (LifecyclePhase::Authorizing { signed_in: true }, SessionEvent::SessionSaveFailed) => (
            LifecyclePhase::Terminated { failed: true },
            DriverAction::SignOutAndFail,
        ),
        (LifecyclePhase::Running, SessionEvent::LoopFinished) => (
            LifecyclePhase::ShuttingDown,
            DriverAction::PersistSession,
        ),
        (LifecyclePhase::Running, SessionEvent::Interrupted) => (
            LifecyclePhase::ShuttingDown,
            DriverAction::PersistSession,
        ),
        (LifecyclePhase::ShuttingDown, SessionEvent::SessionSaved) => (
            LifecyclePhase::Terminated { failed: false },
            DriverAction::ExitSuccess,
        ),
        (LifecyclePhase::ShuttingDown, SessionEvent::SessionSaveFailed) => (
            LifecyclePhase::Terminated { failed: true },
            DriverAction::ExitFailure,
        ),
        _ => (LifecyclePhase::Terminated { failed: true }, DriverAction::ExitFailure),
    }
}

/// Advances the session lifecycle by one reported event.
pub fn lifecycle_step(phase: LifecyclePhase, event: SessionEvent) -> (r: (
    LifecyclePhase,
    DriverAction,
))
    ensures
        r == spec_lifecycle_step(phase, event),
{
    match (phase, event) {
        (LifecyclePhase::Disconnected, SessionEvent::Started) => (
            LifecyclePhase::Connecting,
            DriverAction::Connect,
        ),
        (LifecyclePhase::Connecting, SessionEvent::ConnectSucceeded { authorized }) => {
            if authorized {
                (LifecyclePhase::Running, DriverAction::RunLoop)
            } else {
                (LifecyclePhase::Authorizing { signed_in: false }, DriverAction::BeginSignIn)
            }
        },
        (LifecyclePhase::Connecting, SessionEvent::ConnectFailed) => (
            LifecyclePhase::Terminated { failed: true },
            DriverAction::ExitFailure,
        ),
        (LifecyclePhase::Authorizing { signed_in: false }, SessionEvent::SignInSucceeded) => (
            LifecyclePhase::Authorizing { signed_in: true },
            DriverAction::PersistSession,
        ),
        (LifecyclePhase::Authorizing { signed_in: false }, SessionEvent::SignInFailed) => (
            LifecyclePhase::Terminated { failed: true },
            DriverAction::ExitFailure,
        ),
        (LifecyclePhase::Authorizing { signed_in: true }, SessionEvent::SessionSaved) => (
            LifecyclePhase::Running,
            DriverAction::RunLoop,
        ),
        (LifecyclePhase::Authorizing { signed_in: true }, SessionEvent::SessionSaveFailed) => (
            LifecyclePhase::Terminated { failed: true },
            DriverAction::SignOutAndFail,
        ),
        (LifecyclePhase::Running, SessionEvent::LoopFinished) => (
            LifecyclePhase::ShuttingDown,
            DriverAction::PersistSession,
        ),
        (LifecyclePhase::Running, SessionEvent::Interrupted) => (
            LifecyclePhase::ShuttingDown,
            DriverAction::PersistSession,
        ),
        (LifecyclePhase::ShuttingDown, SessionEvent::SessionSaved) => (
            LifecyclePhase::Terminated { failed: false },
            DriverAction::ExitSuccess,
        ),
        (LifecyclePhase::ShuttingDown, SessionEvent::SessionSaveFailed) => (
            LifecyclePhase::Terminated { failed: true },
            DriverAction::ExitFailure,
        ),
        _ => (LifecyclePhase::Terminated { failed: true }, DriverAction::ExitFailure),
    }
}

} // verus!
