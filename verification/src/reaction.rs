//! Reactions to messages.

use vstd::prelude::*;
use crate::id::{ChannelId, EmojiId, GuildId, MessageId, UserId};
use crate::user::{clone_opt_string, PartialMember};

verus! {

/// The emoji of a reaction.
#[derive(Debug, PartialEq)]
pub enum ReactionType {
    /// A custom emoji of a guild.
    Custom {
        /// Whether the emoji is animated.
        animated: bool,
        /// The id of the emoji.
        id: EmojiId,
        /// The name of the emoji.
        name: Option<String>,
    },
    /// A Unicode emoji.
    Unicode(String),
}

impl Clone for ReactionType {
    fn clone(&self) -> (r: Self)
        ensures
            r == *self,
    {
        match self {
            ReactionType::Custom { animated, id, name } => ReactionType::Custom {
                animated: *animated,
                id: *id,
                name: clone_opt_string(name),
            },
            ReactionType::Unicode(text) => ReactionType::Unicode(text.clone()),
        }
    }
}

/// The reactions of one emoji to a message, counted.
#[derive(Clone, Debug, PartialEq)]
pub struct MessageReaction {
    /// How many reactions of this emoji the message has.
    pub count: u64,
    /// Whether the current user has reacted with this emoji.
    pub me: bool,
    /// The emoji.
    pub reaction_type: ReactionType,
}

/// One reaction of one user to a message.
#[derive(Clone, Debug, PartialEq)]
pub struct Reaction {
    /// The channel of the message.
    pub channel_id: ChannelId,
    /// The emoji of the reaction.
    pub emoji: ReactionType,
    /// The message that was reacted to.
    pub message_id: MessageId,
    /// The user that reacted, where it is known.
    pub user_id: Option<UserId>,
    /// The guild of the message, where it has one.
    pub guild_id: Option<GuildId>,
    /// The membership of the user that reacted, where it is known.
    pub member: Option<PartialMember>,
}

} // verus!
