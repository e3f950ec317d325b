//! The bot: the handler chain and the auto-join controller behind one
//! entry point for the events of the sync stream.

use crate::autojoin::{qualifies, start, JoinAttemptState, JoinAttemptView};
use crate::chain::{is_run_of, DispatchReport, HandlerChain};
use crate::event::{Joined, MembershipEvent, MessageEvent, MessageType, Room, SyncEvent};
use crate::handler::{MessageContext, MessageHandler, Outbound};
use vstd::prelude::*;

verus! {

/// The context in which the plugins see a message: there is one for a text
/// message in a joined room, and none for any other message.
pub open spec fn context_of(room: Room, event: MessageEvent) -> Option<MessageContext> {
    match (room, event.msgtype) {
        (Room::Joined(joined), MessageType::Text(body)) => Some(
            MessageContext { room: joined, body },
        ),
        _ => None,
    }
}

/// Computes [`context_of`].
pub fn message_context(room: &Room, event: &MessageEvent) -> (ctx: Option<MessageContext>)
    ensures
        ctx == context_of(*room, *event),
{
    match room {
        Room::Joined(joined) => match &event.msgtype {
            MessageType::Text(body) => Some(
                MessageContext {
                    room: Joined { room_id: joined.room_id.clone() },
                    body: body.clone(),
                },
            ),
            MessageType::Other => None,
        },
        _ => None,
    }
}

/// What the bot made of an event.
#[derive(Debug)]
pub enum Routed {
    /// The event was a change of membership. Where it invites the bot, the
    /// state to join the room with is here.
    Membership(Option<JoinAttemptState>),
    /// The event was a message, and this is what the plugins made of it.
    Message(DispatchReport),
}

/// A bot with its plugins.
pub struct MatrixBot<'a, H: MessageHandler> {
    handlers: HandlerChain<'a, H>,
}

impl<'a, H: MessageHandler> View for MatrixBot<'a, H> {
    type V = Seq<&'a H>;

    closed spec fn view(&self) -> Seq<&'a H> {
        self.handlers@
    }
}

impl<'a, H: MessageHandler> Clone for MatrixBot<'a, H> {
    /// A bot with the same plugins in the same order.
    fn clone(&self) -> (bot: Self)
        ensures
            bot@ == self@,
    {
        MatrixBot { handlers: self.handlers.clone() }
    }
}

impl<'a, H: MessageHandler> MatrixBot<'a, H> {
    /// A bot without plugins.
    pub fn new() -> (bot: Self)
        ensures
            bot@ == Seq::<&'a H>::empty(),
    {
        MatrixBot { handlers: HandlerChain::new() }
    }

    /// Registers `handler` behind the plugins that the bot already has.
    pub fn add_handler(&mut self, handler: &'a H)
        ensures
            final(self)@ == old(self)@.push(handler),
    {
        self.handlers.register(handler);
    }

    /// The number of registered plugins.
    pub fn handler_count(&self) -> (n: usize)
        ensures
            n == self@.len(),
    {
        self.handlers.len()
    }

    /// The plain-text message with which to say `msg` in `room`.
    pub fn send(&self, room: &Joined, msg: String) -> (out: Outbound)
        ensures
            out.room_id@ == room.room_id@,
            out.body@ == msg@,
    {
        Outbound::text_plain(room, msg)
    }

    /// Takes a message that arrived in `room`. A text message in a joined
    /// room goes through the handler chain; of any other message no plugin
    /// hears.
    pub fn on_room_message(&self, room: &Room, event: &MessageEvent) -> (report: DispatchReport)
        ensures
            match context_of(*room, *event) {
                Some(ctx) => is_run_of(self@, ctx, report.outcomes@),
                None => report.outcomes@.len() == 0,
            },
    {
        match message_context(room, event) {
            Some(ctx) => self.handlers.dispatch(&ctx),
            None => DispatchReport::empty(),
        }
    }

    /// Takes a change of membership. An invitation of `own_user_id` starts
    /// the joining of the room; nothing follows from any other change.
    pub fn on_membership(&self, own_user_id: &str, event: &MembershipEvent) -> (state: Option<
        JoinAttemptState,
    >)
        ensures
            state is Some <==> qualifies(*event, own_user_id@),
            state matches Some(s) ==> s@ == JoinAttemptView::fresh(event.room_id@),
    {
        start(event, own_user_id)
    }

    /// Takes one event of the sync stream and hands it to the part of the
    /// bot that it concerns: a change of membership to the auto-join
    /// controller, a message to the handler chain.
    pub fn on_event(&self, own_user_id: &str, event: &SyncEvent) -> (routed: Routed)
        ensures
            match *event {
                SyncEvent::Membership(change) => {
                    &&& routed matches Routed::Membership(state)
                    &&& state is Some <==> qualifies(change, own_user_id@)
                    &&& state matches Some(s) ==> s@ == JoinAttemptView::fresh(change.room_id@)
                },
                SyncEvent::Message(room, message) => {
                    &&& routed matches Routed::Message(report)
                    &&& match context_of(room, message) {
                        Some(ctx) => is_run_of(self@, ctx, report.outcomes@),
                        None => report.outcomes@.len() == 0,
                    }
                },
            },
    {
        match event {
            SyncEvent::Membership(change) => Routed::Membership(
                self.on_membership(own_user_id, change),
            ),
            SyncEvent::Message(room, message) => Routed::Message(
                self.on_room_message(room, message),
            ),
        }
    }
}

} // verus!
