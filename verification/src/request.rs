//! What a transport is asked to do. The library decides which request an
//! operation makes and what it carries; sending it is the caller's part.

use vstd::prelude::*;
use crate::id::{ChannelId, GuildId, MessageId, UserId};
use crate::json::{JsonMap, MapView};
use crate::reaction::ReactionType;

verus! {

/// One request to the remote service.
#[derive(Clone, Debug, PartialEq)]
pub enum Request {
    /// Publish a message to the channels that follow its channel.
    Crosspost { channel_id: ChannelId, message_id: MessageId },
    /// Delete a message.
    DeleteMessage { channel_id: ChannelId, message_id: MessageId },
    /// Delete every reaction to a message.
    DeleteReactions { channel_id: ChannelId, message_id: MessageId },
    /// Delete every reaction of one emoji to a message.
    DeleteReactionEmoji { channel_id: ChannelId, message_id: MessageId, reaction_type: ReactionType },
    /// Replace parts of a message by what the payload holds.
    EditMessage { channel_id: ChannelId, message_id: MessageId, payload: JsonMap },
    /// React to a message as the current user.
    CreateReaction { channel_id: ChannelId, message_id: MessageId, reaction_type: ReactionType },
    /// Pin a message to its channel.
    Pin { channel_id: ChannelId, message_id: MessageId },
    /// Unpin a message from its channel.
    Unpin { channel_id: ChannelId, message_id: MessageId },
    /// Send a new message to a channel.
    SendMessage { channel_id: ChannelId, payload: JsonMap },
    /// Fetch users that reacted to a message with an emoji: at most `limit`
    /// of them, after the user `after` where one is given.
    GetReactionUsers {
        channel_id: ChannelId,
        message_id: MessageId,
        reaction_type: ReactionType,
        limit: u8,
        after: Option<UserId>,
    },
    /// Fetch a member of a guild.
    GetMember { guild_id: GuildId, user_id: UserId },
    /// Fetch the user that acts.
    GetCurrentUser,
    /// Fetch a channel.
    GetChannel { channel_id: ChannelId },
}

/// What a lookup came to: the cache had the answer, or the request that
/// fetches it has to be made.
#[derive(Clone, Debug, PartialEq)]
pub enum Lookup<T> {
    Found(T),
    Fetch(Request),
}

impl Request {
    /// Whether this is the request that edits the given message with a
    /// payload that holds `payload`.
    pub open spec fn edits(self, channel: ChannelId, message: MessageId, payload: MapView) -> bool {
        match self {
            Request::EditMessage { channel_id, message_id, payload: sent } => channel_id == channel
                && message_id == message && sent@ == payload,
            _ => false,
        }
    }

    /// Whether this is the request that sends a message with a payload that
    /// holds `payload` to the given channel.
    pub open spec fn sends(self, channel: ChannelId, payload: MapView) -> bool {
        match self {
            Request::SendMessage { channel_id, payload: sent } => channel_id == channel && sent@
                == payload,
            _ => false,
        }
    }
}

} // verus!
