//! The message and the data it carries.

use vstd::prelude::*;
use vstd::std_specs::convert::FromSpecImpl;
use crate::channel::{ActionRow, Attachment, ChannelMention, StickerItem};
use crate::embed::Embed;
use crate::id::{ApplicationId, ChannelId, GuildId, MessageId, RoleId, WebhookId};
use crate::json::Value;
use crate::permissions::MessageFlags;
use crate::reaction::MessageReaction;
use crate::user::{PartialMember, Timestamp, User};

verus! {

/// A message in a guild's text channel, a group, or a private channel.
#[derive(Debug, PartialEq)]
pub struct Message {
    /// The unique id of the message.
    pub id: MessageId,
    /// The id of the channel that the message was sent to.
    pub channel_id: ChannelId,
    /// The user that sent the message.
    pub author: User,
    /// The content of the message.
    pub content: String,
    /// When the message was created.
    pub timestamp: Timestamp,
    /// When the message was last edited, if it was.
    pub edited_timestamp: Option<Timestamp>,
    /// Whether the message is to be read aloud.
    pub tts: bool,
    /// Whether the message mentions everyone.
    pub mention_everyone: bool,
    /// The users mentioned in the message.
    pub mentions: Vec<User>,
    /// The ids of the roles mentioned in the message.
    pub mention_roles: Vec<RoleId>,
    /// The channels mentioned in the message.
    pub mention_channels: Vec<ChannelMention>,
    /// The files attached to the message.
    pub attachments: Vec<Attachment>,
    /// The embeds sent with the message.
    pub embeds: Vec<Embed>,
    /// The reactions to the message, counted by emoji.
    pub reactions: Vec<MessageReaction>,
    /// A value that the sender chose to tell its messages apart.
    pub nonce: Value,
    /// Whether the message is pinned.
    pub pinned: bool,
    /// The id of the webhook that sent the message, if one did.
    pub webhook_id: Option<WebhookId>,
    /// Whether the message is a regular one, or which system message it is.
    pub kind: MessageType,
    /// Sent with chat embeds that relate to an activity.
    pub activity: Option<MessageActivity>,
    /// Sent with chat embeds that relate to an activity.
    pub application: Option<MessageApplication>,
    /// The id of the application, where the message belongs to one.
    pub application_id: Option<ApplicationId>,
    /// Where the message came from, for crossposts and replies.
    pub message_reference: Option<MessageReference>,
    /// The feature flags of the message.
    pub flags: Option<MessageFlags>,
    /// The message that this message replies to.
    pub referenced_message: Option<Box<Message>>,
    /// The components of the message.
    pub components: Vec<ActionRow>,
    /// The stickers sent with the message.
    pub sticker_items: Vec<StickerItem>,
    /// The id of the guild that the message was sent in.
    pub guild_id: Option<GuildId>,
    /// What is known of the author's membership in that guild.
    pub member: Option<PartialMember>,
}

/// Tells a regular message from the kinds of system messages.
#[derive(Clone, Copy, Debug, PartialEq, Eq, Hash, Structural)]
pub enum MessageType {
    /// A regular message.
    Regular,
    /// The author added a recipient to the group.
    GroupRecipientAddition,
    /// The author removed a recipient from the group.
    GroupRecipientRemoval,
    /// The author started a call.
    GroupCallCreation,
    /// The author changed the name of the group.
    GroupNameUpdate,
    /// The author changed the icon of the group.
    GroupIconUpdate,
    /// The author pinned a message.
    PinsAdd,
    /// A member joined the guild.
    MemberJoin,
    /// Someone boosted the guild.
    NitroBoost,
    /// The guild reached the first boost tier.
    NitroTier1,
    /// The guild reached the second boost tier.
    NitroTier2,
    /// The guild reached the third boost tier.
    NitroTier3,
    /// The channel now follows a news channel.
    ChannelFollowAdd,
    /// The guild no longer qualifies for discovery.
    GuildDiscoveryDisqualified,
    /// The guild qualifies for discovery again.
    GuildDiscoveryRequalified,
    /// The first warning before the guild leaves discovery.
    GuildDiscoveryGracePeriodInitialWarning,
    /// The last warning before the guild leaves discovery.
    GuildDiscoveryGracePeriodFinalWarning,
    /// A thread was created.
    ThreadCreated,
    /// A reply to a message.
    InlineReply,
    /// A slash command.
    ChatInputCommand,
    /// The first message of a thread.
    ThreadStarterMessage,
    /// Tips for setting the guild up.
    GuildInviteReminder,
    /// A context menu command.
    ContextMenuCommand,
    /// An action of auto moderation.
    AutoModerationAction,
    /// A message of a kind that the library does not know.
    Unknown,
}

/// The kind of an activity that a message invites to.
#[derive(Clone, Copy, Debug, PartialEq, Eq, Hash, Structural)]
#[allow(non_camel_case_types)]
pub enum MessageActivityKind {
    JOIN,
    SPECTATE,
    LISTEN,
    JOIN_REQUEST,
    Unknown,
}

/// The application of a chat embed that relates to an activity.
#[derive(Clone, Debug, PartialEq)]
pub struct MessageApplication {
    /// The id of the application.
    pub id: ApplicationId,
    /// The id of the embed's image asset.
    pub cover_image: Option<String>,
    /// The description of the application.
    pub description: String,
    /// The id of the application's icon.
    pub icon: Option<String>,
    /// The name of the application.
    pub name: String,
}

/// The activity that a message invites to.
#[derive(Clone, Debug, PartialEq)]
pub struct MessageActivity {
    /// The kind of the activity.
    pub kind: MessageActivityKind,
    /// The id of the party of the activity.
    pub party_id: Option<String>,
}

/// Where a message came from: sent with crossposts and replies.
#[derive(Clone, Copy, Debug, PartialEq, Eq, Structural)]
pub struct MessageReference {
    /// The id of the message referred to.
    pub message_id: Option<MessageId>,
    /// The id of the channel of that message.
    pub channel_id: ChannelId,
    /// The id of the guild of that message.
    pub guild_id: Option<GuildId>,
}

/// The number that stands for a kind of message that is not known.
pub const UNKNOWN_KIND: u64 = 0xffff_ffff_ffff_ffff;

impl MessageType {
    /// The number of the kind, as the platform counts kinds of messages.
    pub open spec fn number(self) -> u64 {
        match self {
            MessageType::Regular => 0,
            MessageType::GroupRecipientAddition => 1,
            MessageType::GroupRecipientRemoval => 2,
            MessageType::GroupCallCreation => 3,
            MessageType::GroupNameUpdate => 4,
            MessageType::GroupIconUpdate => 5,
            MessageType::PinsAdd => 6,
            MessageType::MemberJoin => 7,
            MessageType::NitroBoost => 8,
            MessageType::NitroTier1 => 9,
            MessageType::NitroTier2 => 10,
            MessageType::NitroTier3 => 11,
            MessageType::ChannelFollowAdd => 12,
            MessageType::GuildDiscoveryDisqualified => 14,
            MessageType::GuildDiscoveryRequalified => 15,
            MessageType::GuildDiscoveryGracePeriodInitialWarning => 16,
            MessageType::GuildDiscoveryGracePeriodFinalWarning => 17,
            MessageType::ThreadCreated => 18,
            MessageType::InlineReply => 19,
            MessageType::ChatInputCommand => 20,
            MessageType::ThreadStarterMessage => 21,
            MessageType::GuildInviteReminder => 22,
            MessageType::ContextMenuCommand => 23,
            MessageType::AutoModerationAction => 24,
            MessageType::Unknown => UNKNOWN_KIND,
        }
    }

    /// The number of the kind, as the platform counts kinds of messages.
    pub fn num(&self) -> (r: u64)
        ensures
            r == self.number(),
    {
        match self {
            MessageType::Regular => 0,
            MessageType::GroupRecipientAddition => 1,
            MessageType::GroupRecipientRemoval => 2,
            MessageType::GroupCallCreation => 3,
            MessageType::GroupNameUpdate => 4,
            MessageType::GroupIconUpdate => 5,
            MessageType::PinsAdd => 6,
            MessageType::MemberJoin => 7,
            MessageType::NitroBoost => 8,
            MessageType::NitroTier1 => 9,
            MessageType::NitroTier2 => 10,
            MessageType::NitroTier3 => 11,
            MessageType::ChannelFollowAdd => 12,
            MessageType::GuildDiscoveryDisqualified => 14,
            MessageType::GuildDiscoveryRequalified => 15,
            MessageType::GuildDiscoveryGracePeriodInitialWarning => 16,
            MessageType::GuildDiscoveryGracePeriodFinalWarning => 17,
            MessageType::ThreadCreated => 18,
            MessageType::InlineReply => 19,
            MessageType::ChatInputCommand => 20,
            MessageType::ThreadStarterMessage => 21,
            MessageType::GuildInviteReminder => 22,
            MessageType::ContextMenuCommand => 23,
            MessageType::AutoModerationAction => 24,
            MessageType::Unknown => UNKNOWN_KIND,
        }
    }

    /// The kind with the given number; `Unknown` for a number that stands
    /// for no kind.
    pub fn from_num(value: u64) -> (r: MessageType)
        ensures
            r != MessageType::Unknown ==> r.number() == value,
            r == MessageType::Unknown <==> forall|kind: MessageType|
                kind != MessageType::Unknown ==> #[trigger] kind.number() != value,
    {
        let r = if value == 0 {
            MessageType::Regular
        } else if value == 1 {
            MessageType::GroupRecipientAddition
        } else if value == 2 {
            MessageType::GroupRecipientRemoval
        } else if value == 3 {
            MessageType::GroupCallCreation
        } else if value == 4 {
            MessageType::GroupNameUpdate
        } else if value == 5 {
            MessageType::GroupIconUpdate
        } else if value == 6 {
            MessageType::PinsAdd
        } else if value == 7 {
            MessageType::MemberJoin
        } else if value == 8 {
            MessageType::NitroBoost
        } else if value == 9 {
            MessageType::NitroTier1
        } else if value == 10 {
            MessageType::NitroTier2
        } else if value == 11 {
            MessageType::NitroTier3
        } else if value == 12 {
            MessageType::ChannelFollowAdd
        } else if value == 14 {
            MessageType::GuildDiscoveryDisqualified
        } else if value == 15 {
            MessageType::GuildDiscoveryRequalified
        } else if value == 16 {
            MessageType::GuildDiscoveryGracePeriodInitialWarning
        } else if value == 17 {
            MessageType::GuildDiscoveryGracePeriodFinalWarning
        } else if value == 18 {
            MessageType::ThreadCreated
        } else if value == 19 {
            MessageType::InlineReply
        } else if value == 20 {
            MessageType::ChatInputCommand
        } else if value == 21 {
            MessageType::ThreadStarterMessage
        } else if value == 22 {
            MessageType::GuildInviteReminder
        } else if value == 23 {
            MessageType::ContextMenuCommand
        } else if value == 24 {
            MessageType::AutoModerationAction
        } else {
            MessageType::Unknown
        };
        proof {
            if r != MessageType::Unknown {
                assert(r.number() == value);
            }
        }
        r
    }
}

impl MessageActivityKind {
    /// The number of the kind, as the platform counts kinds of activities.
    pub open spec fn number(self) -> u64 {
        match self {
            MessageActivityKind::JOIN => 1,
            MessageActivityKind::SPECTATE => 2,
            MessageActivityKind::LISTEN => 3,
            MessageActivityKind::JOIN_REQUEST => 5,
            MessageActivityKind::Unknown => UNKNOWN_KIND,
        }
    }

    /// The number of the kind, as the platform counts kinds of activities.
    pub fn num(&self) -> (r: u64)
        ensures
            r == self.number(),
    {
        match self {
            MessageActivityKind::JOIN => 1,
            MessageActivityKind::SPECTATE => 2,
            MessageActivityKind::LISTEN => 3,
            MessageActivityKind::JOIN_REQUEST => 5,
            MessageActivityKind::Unknown => UNKNOWN_KIND,
        }
    }

    /// The kind with the given number; `Unknown` for a number that stands
    /// for no kind.
    pub fn from_num(value: u64) -> (r: MessageActivityKind)
        ensures
            r != MessageActivityKind::Unknown ==> r.number() == value,
            r == MessageActivityKind::Unknown <==> forall|kind: MessageActivityKind|
                kind != MessageActivityKind::Unknown ==> #[trigger] kind.number() != value,
    {
        let r = if value == 1 {
            MessageActivityKind::JOIN
        } else if value == 2 {
            MessageActivityKind::SPECTATE
        } else if value == 3 {
            MessageActivityKind::LISTEN
        } else if value == 5 {
            MessageActivityKind::JOIN_REQUEST
        } else {
            MessageActivityKind::Unknown
        };
        proof {
            if r != MessageActivityKind::Unknown {
                assert(r.number() == value);
            }
        }
        r
    }
}

/// A copy of a message, with a copy of the message that it replies to.
fn clone_message(m: &Message) -> (r: Message)
    ensures
        r.id == m.id,
        r.channel_id == m.channel_id,
        r.author == m.author,
        r.content == m.content,
        r.timestamp == m.timestamp,
        r.kind == m.kind,
        r.flags == m.flags,
        r.guild_id == m.guild_id,
    decreases m,
{
    Message {
        id: m.id,
        channel_id: m.channel_id,
        author: m.author.clone(),
        content: m.content.clone(),
        timestamp: m.timestamp,
        edited_timestamp: m.edited_timestamp,
        tts: m.tts,
        mention_everyone: m.mention_everyone,
        mentions: m.mentions.clone(),
        mention_roles: m.mention_roles.clone(),
        mention_channels: m.mention_channels.clone(),
        attachments: m.attachments.clone(),
        embeds: m.embeds.clone(),
        reactions: m.reactions.clone(),
        nonce: m.nonce.clone(),
        pinned: m.pinned,
        webhook_id: m.webhook_id,
        kind: m.kind,
        activity: m.activity.clone(),
        application: m.application.clone(),
        application_id: m.application_id,
        message_reference: m.message_reference,
        flags: m.flags,
        referenced_message: match &m.referenced_message {
            Some(referenced) => Some(Box::new(clone_message(&**referenced))),
            None => None,
        },
        components: m.components.clone(),
        sticker_items: m.sticker_items.clone(),
        guild_id: m.guild_id,
        member: m.member.clone(),
    }
}

impl Clone for Message {
    fn clone(&self) -> (r: Self)
        ensures
            r.id == self.id,
            r.channel_id == self.channel_id,
            r.author == self.author,
            r.content == self.content,
            r.timestamp == self.timestamp,
            r.kind == self.kind,
            r.flags == self.flags,
            r.guild_id == self.guild_id,
    {
        clone_message(self)
    }
}

impl Message {
    /// True if the message was sent in a private channel: it has no guild.
    #[must_use]
    pub fn is_private(&self) -> (r: bool)
        ensures
            r == (self.guild_id is None),
    {
        self.guild_id.is_none()
    }
}

impl From<&Message> for MessageReference {
    /// The reference to a message: its id, its channel and its guild.
    fn from(m: &Message) -> (r: Self) {
        Self { message_id: Some(m.id), channel_id: m.channel_id, guild_id: m.guild_id }
    }
}

impl FromSpecImpl<&Message> for MessageReference {
    open spec fn obeys_from_spec() -> bool {
        true
    }

    open spec fn from_spec(m: &Message) -> Self {
        MessageReference { message_id: Some(m.id), channel_id: m.channel_id, guild_id: m.guild_id }
    }
}

impl From<(ChannelId, MessageId)> for MessageReference {
    /// The reference to the message with the given id in the given channel,
    /// without a guild.
    fn from(pair: (ChannelId, MessageId)) -> (r: Self) {
        Self { message_id: Some(pair.1), channel_id: pair.0, guild_id: None }
    }
}

impl FromSpecImpl<(ChannelId, MessageId)> for MessageReference {
    open spec fn obeys_from_spec() -> bool {
        true
    }

    open spec fn from_spec(pair: (ChannelId, MessageId)) -> Self {
        MessageReference { message_id: Some(pair.1), channel_id: pair.0, guild_id: None }
    }
}

impl AsRef<MessageId> for Message {
    /// The id of the message.
    fn as_ref(&self) -> (r: &MessageId)
        ensures
            *r == self.id,
    {
        &self.id
    }
}

impl From<Message> for MessageId {
    /// The id of a message.
    fn from(message: Message) -> (r: MessageId) {
        message.id
    }
}

impl FromSpecImpl<Message> for MessageId {
    open spec fn obeys_from_spec() -> bool {
        true
    }

    open spec fn from_spec(message: Message) -> MessageId {
        message.id
    }
}

impl From<&Message> for MessageId {
    /// The id of a message.
    fn from(message: &Message) -> (r: MessageId) {
        message.id
    }
}

impl FromSpecImpl<&Message> for MessageId {
    open spec fn obeys_from_spec() -> bool {
        true
    }

    open spec fn from_spec(message: &Message) -> MessageId {
        message.id
    }
}

} // verus!
