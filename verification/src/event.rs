//! What the bot reads of the rooms and events that the protocol client
//! hands to it, as plain values.

use vstd::prelude::*;

verus! {

/// A room that the bot is a member of.
#[derive(Clone, Debug, PartialEq, Eq)]
pub struct Joined {
    pub room_id: String,
}

/// A room that the bot has been invited to and has not joined yet.
#[derive(Clone, Debug, PartialEq, Eq)]
pub struct Invited {
    pub room_id: String,
}

/// A room that the bot has left.
#[derive(Clone, Debug, PartialEq, Eq)]
pub struct Left {
    pub room_id: String,
}

/// A room as the bot stands to it.
#[derive(Clone, Debug, PartialEq, Eq)]
pub enum Room {
    Joined(Joined),
    Left(Left),
    Invited(Invited),
}

/// The content of a room message: plain text with its body, or anything
/// else (images, files, locations, ...), of which the bot reads nothing.
#[derive(Clone, Debug, PartialEq, Eq)]
pub enum MessageType {
    Text(String),
    Other,
}

/// A message that arrived in a room.
#[derive(Clone, Debug, PartialEq, Eq)]
pub struct MessageEvent {
    pub msgtype: MessageType,
}

/// The membership that a membership event gives to its target.
#[derive(Clone, Copy, Debug, PartialEq, Eq, Structural)]
pub enum MembershipState {
    Ban,
    Invite,
    Join,
    Knock,
    Leave,
}

/// A change of somebody's membership in a room.
#[derive(Clone, Debug, PartialEq, Eq)]
pub struct MembershipEvent {
    /// The room in which the membership changes.
    pub room_id: String,
    /// The user whose membership changes.
    pub state_key: String,
    /// The membership that the user now has.
    pub membership: MembershipState,
}

/// One item of the event stream.
#[derive(Clone, Debug, PartialEq, Eq)]
pub enum SyncEvent {
    Membership(MembershipEvent),
    Message(Room, MessageEvent),
}

} // verus!
