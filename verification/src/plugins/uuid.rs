//! A plugin that answers the message `!uuid` with a random UUID.

use crate::handler::{MessageContext, MessageHandler, Outbound, Outcome, Reaction};
use vstd::prelude::*;

verus! {

/// A digit of lower-case hexadecimal notation.
pub open spec fn is_lower_hex(c: char) -> bool {
    ('0' <= c && c <= '9') || ('a' <= c && c <= 'f')
}

/// The places of the four hyphens in the text of a UUID.
pub open spec fn is_hyphen_position(i: int) -> bool {
    i == 8 || i == 13 || i == 18 || i == 23
}

/// The hyphenated lower-case notation of a random UUID: 32 hexadecimal
/// digits in groups of 8, 4, 4, 4 and 12 with a hyphen between two groups,
/// of which the first digit of the third group is the version, 4, and the
/// first digit of the fourth group holds the variant, binary `10`.
pub open spec fn is_random_uuid_text(text: Seq<char>) -> bool {
    &&& text.len() == 36
    &&& forall|i: int|
        0 <= i < 36 ==> if is_hyphen_position(i) {
            text[i] == '-'
        } else {
            is_lower_hex(#[trigger] text[i])
        }
    &&& text[14] == '4'
    &&& (text[19] == '8' || text[19] == '9' || text[19] == 'a' || text[19] == 'b')
}

/// The command that the plugin answers.
pub open spec fn is_uuid_command(body: Seq<char>) -> bool {
    body == "!uuid"@
}

/// Draws a random UUID with `uuid::Uuid::new_v4` and writes it down with
/// `uuid::Uuid::to_hyphenated`. Of the result only its form is claimed, which
/// is the same for every draw: `new_v4` sets the version to 4 and the variant to
/// RFC 4122, and the hyphenated adapter prints 36 characters in lower case.
/// `new_v4` panics where the operating system hands out no random bytes.
#[verifier::external_body]
fn random_uuid_text() -> (text: String)
    ensures
        is_random_uuid_text(text@),
{
    uuid::Uuid::new_v4().to_hyphenated().to_string()
}

/// Answers `!uuid` with a random UUID and lets every other message pass.
#[derive(Clone, Copy, Debug, Default)]
pub struct UuidHandler {}

impl UuidHandler {
    /// The text of a new random UUID.
    pub fn generate_uuid(&self) -> (text: String)
        ensures
            is_random_uuid_text(text@),
    {
        random_uuid_text()
    }

    /// Whether the message is the command that the plugin answers.
    pub fn is_command(ctx: &MessageContext) -> (yes: bool)
        ensures
            yes == is_uuid_command(ctx.body@),
    {
        let command = "!uuid".to_owned();
        ctx.body == command
    }

    /// The reaction to the command for which `uuid` was drawn: `Stop`, and
    /// `uuid` as the one reply to the room of the message.
    pub fn answer(ctx: &MessageContext, uuid: String) -> (reaction: Reaction)
        ensures
            reaction.result is Stop,
            reaction.replies@.len() == 1,
            reaction.replies@[0].room_id@ == ctx.room.room_id@,
            reaction.replies@[0].body@ == uuid@,
    {
        Reaction::stop_with(Outbound::text_plain(&ctx.room, uuid))
    }
}

impl MessageHandler for UuidHandler {
    /// The plugin never fails. To `!uuid` it says `Stop` and replies once, to
    /// the room of the message, with the text of a random UUID; to anything
    /// else it says `Continue` and replies nothing.
    open spec fn may_answer(&self, ctx: MessageContext, outcome: Outcome) -> bool {
        &&& outcome matches Ok(reaction)
        &&& if is_uuid_command(ctx.body@) {
            &&& reaction.result is Stop
            &&& reaction.replies@.len() == 1
            &&& reaction.replies@[0].room_id@ == ctx.room.room_id@
            &&& is_random_uuid_text(reaction.replies@[0].body@)
        } else {
            &&& reaction.result is Continue
            &&& reaction.replies@.len() == 0
        }
    }

    fn handle_message(&self, ctx: &MessageContext) -> (outcome: Outcome) {
        if UuidHandler::is_command(ctx) {
            Ok(UuidHandler::answer(ctx, self.generate_uuid()))
        } else {
            Ok(Reaction::pass())
        }
    }
}

} // verus!
