//! What a message carries of its channel: attachments, stickers, components
//! and mentions of other channels.

use vstd::prelude::*;
use crate::id::{AttachmentId, ChannelId, GuildId, StickerId};

verus! {

/// The kind of a channel.
#[derive(Clone, Copy, Debug, PartialEq, Eq, Hash, Structural)]
pub enum ChannelType {
    /// A text channel of a guild.
    Text,
    /// A direct-message channel between two users.
    Private,
    /// A voice channel of a guild.
    Voice,
    /// A category that holds channels of a guild.
    Category,
    /// A news channel of a guild, which other channels can follow.
    News,
    /// A thread of a news channel.
    NewsThread,
    /// A public thread.
    PublicThread,
    /// A private thread.
    PrivateThread,
    /// A stage channel of a guild.
    Stage,
    /// A channel of a kind that the library does not know.
    Unknown,
}

/// A file attached to a message.
#[derive(Clone, Debug, PartialEq)]
pub struct Attachment {
    /// The unique id of the attachment.
    pub id: AttachmentId,
    /// The name of the file.
    pub filename: String,
    /// The size of the file in bytes.
    pub size: u64,
    /// The URL of the file.
    pub url: String,
    /// A proxied URL of the file.
    pub proxy_url: String,
    /// The height of the image, where the file is one.
    pub height: Option<u64>,
    /// The width of the image, where the file is one.
    pub width: Option<u64>,
}

/// A sticker sent with a message.
#[derive(Clone, Debug, PartialEq)]
pub struct StickerItem {
    /// The unique id of the sticker.
    pub id: StickerId,
    /// The name of the sticker.
    pub name: String,
}

/// One interactive component of a message.
#[derive(Clone, Debug, PartialEq)]
pub struct Component {
    /// The number of the component's kind.
    pub kind: u8,
    /// The id that the author of the component gave it.
    pub custom_id: Option<String>,
    /// The text shown on the component.
    pub label: Option<String>,
    /// Whether the component is disabled.
    pub disabled: bool,
}

/// A row of interactive components.
#[derive(Clone, Debug, PartialEq)]
pub struct ActionRow {
    /// The components of the row, in order.
    pub components: Vec<Component>,
}

/// A channel mentioned in a message.
#[derive(Clone, Debug, PartialEq)]
pub struct ChannelMention {
    /// The id of the channel.
    pub id: ChannelId,
    /// The id of the guild that holds the channel.
    pub guild_id: GuildId,
    /// The kind of the channel.
    pub kind: ChannelType,
    /// The name of the channel.
    pub name: String,
}

} // verus!
