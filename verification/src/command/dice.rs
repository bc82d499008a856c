//! The randomized-value send command.

use vstd::prelude::*;

use crate::command::{ActionResult, BotCommandError, OutMessage};

verus! {

/// The arguments of the randomized-value send command.
pub struct DiceArgs {
    /// The symbolic label that selects the kind of randomized value.
    pub emoji: String,
}

impl DiceArgs {
    /// Builds the reply: an empty text carrying a not-yet-revealed
    /// randomized-value attachment with the requested label, sent silently.
    pub fn handle(&self) -> (r: Result<ActionResult, BotCommandError>)
        ensures
            r is Ok,
            ({
                let result = r->Ok_0;
                &&& !result.quit
                &&& result.response is Some
                &&& result.response->Some_0 is Reply
                &&& {
                    let m = result.response->Some_0->Reply_0;
                    &&& m.text@.len() == 0
                    &&& !m.markdown
                    &&& m.dice_emoticon matches Some(e) && e@ == self.emoji@
                    &&& m.silent
                    &&& m.reply_to is None
                }
            }),
    {
        Ok(
            ActionResult::reply(
                OutMessage {
                    text: String::new(),
                    markdown: false,
                    dice_emoticon: Some(self.emoji.clone()),
                    silent: true,
                    reply_to: None,
                },
            ),
        )
    }
}

} // verus!
