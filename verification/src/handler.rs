//! The contract between the bot and its plugins.

use crate::event::Joined;
use vstd::prelude::*;

verus! {

/// What a plugin says of a message it has seen: whether the plugins after it
/// still get to see the message.
#[derive(Clone, Copy, Debug, PartialEq, Eq, Structural)]
pub enum HandleResult {
    Continue,
    Stop,
}

/// A text message that the bot is to send to a room.
#[derive(Debug, PartialEq, Eq)]
pub struct Outbound {
    pub room_id: String,
    pub body: String,
}

impl Outbound {
    /// A plain-text message for `room`.
    pub fn text_plain(room: &Joined, body: String) -> (out: Outbound)
        ensures
            out.room_id@ == room.room_id@,
            out.body@ == body@,
    {
        Outbound { room_id: room.room_id.clone(), body }
    }
}

impl Clone for Outbound {
    /// The same message once more.
    fn clone(&self) -> (out: Outbound)
        ensures
            out == *self,
    {
        Outbound { room_id: self.room_id.clone(), body: self.body.clone() }
    }
}

/// One text message as a plugin sees it: the joined room it arrived in and
/// its body.
#[derive(Clone, Debug, PartialEq, Eq)]
pub struct MessageContext {
    pub room: Joined,
    pub body: String,
}

/// What a plugin did with a message: its verdict, and the messages it wants
/// sent, in the order in which they are to go out.
#[derive(Clone, Debug, PartialEq, Eq)]
pub struct Reaction {
    pub result: HandleResult,
    pub replies: Vec<Outbound>,
}

impl Reaction {
    /// Lets the message pass to the next plugin, sending nothing.
    pub fn pass() -> (reaction: Reaction)
        ensures
            reaction.result is Continue,
            reaction.replies@.len() == 0,
    {
        Reaction { result: HandleResult::Continue, replies: Vec::new() }
    }

    /// Answers with `reply` and keeps the message from the later plugins.
    pub fn stop_with(reply: Outbound) -> (reaction: Reaction)
        ensures
            reaction.result is Stop,
            reaction.replies@ == seq![reply],
    {
        let mut replies: Vec<Outbound> = Vec::new();
        replies.push(reply);
        Reaction { result: HandleResult::Stop, replies }
    }
}

/// A plugin could not handle a message.
#[derive(Clone, Debug, PartialEq, Eq)]
pub struct PluginFailure {
    pub reason: String,
}

/// How a plugin's handling of one message ended.
pub type Outcome = Result<Reaction, PluginFailure>;

/// The verdict that the chain takes from an outcome. A failure counts as
/// `Continue`: a plugin that fails does not keep the message from the others.
pub open spec fn verdict_of(outcome: Outcome) -> HandleResult {
    match outcome {
        Ok(reaction) => reaction.result,
        Err(_) => HandleResult::Continue,
    }
}

/// Computes [`verdict_of`].
pub fn verdict(outcome: &Outcome) -> (result: HandleResult)
    ensures
        result == verdict_of(*outcome),
{
    match outcome {
        Ok(reaction) => reaction.result,
        Err(_) => HandleResult::Continue,
    }
}

/// A unit of message-handling logic.
pub trait MessageHandler {
    /// The outcomes that this plugin may give for `ctx`. A plugin that says
    /// nothing of itself may give any outcome.
    open spec fn may_answer(&self, ctx: MessageContext, outcome: Outcome) -> bool {
        true
    }

    /// Handles one message.
    fn handle_message(&self, ctx: &MessageContext) -> (outcome: Outcome)
        ensures
            self.may_answer(*ctx, outcome),
    ;
}

} // verus!
