//! Identifiers of platform objects. Each is a 64-bit snowflake.

use vstd::prelude::*;
use crate::text::{decimal, from_chars, push_decimal, to_chars};

verus! {

/// Identifier of an application.
#[derive(Clone, Copy, Debug, PartialEq, Eq, Hash, Structural)]
pub struct ApplicationId(pub u64);

/// Identifier of an attachment.
#[derive(Clone, Copy, Debug, PartialEq, Eq, Hash, Structural)]
pub struct AttachmentId(pub u64);

/// Identifier of a channel.
#[derive(Clone, Copy, Debug, PartialEq, Eq, Hash, Structural)]
pub struct ChannelId(pub u64);

/// Identifier of a custom emoji.
#[derive(Clone, Copy, Debug, PartialEq, Eq, Hash, Structural)]
pub struct EmojiId(pub u64);

/// Identifier of a guild.
#[derive(Clone, Copy, Debug, PartialEq, Eq, Hash, Structural)]
pub struct GuildId(pub u64);

/// Identifier of a message.
#[derive(Clone, Copy, Debug, PartialEq, Eq, Hash, Structural)]
pub struct MessageId(pub u64);

/// Identifier of a role.
#[derive(Clone, Copy, Debug, PartialEq, Eq, Hash, Structural)]
pub struct RoleId(pub u64);

/// Identifier of a sticker.
#[derive(Clone, Copy, Debug, PartialEq, Eq, Hash, Structural)]
pub struct StickerId(pub u64);

/// Identifier of a user.
#[derive(Clone, Copy, Debug, PartialEq, Eq, Hash, Structural)]
pub struct UserId(pub u64);

/// Identifier of a webhook.
#[derive(Clone, Copy, Debug, PartialEq, Eq, Hash, Structural)]
pub struct WebhookId(pub u64);

/// The token that mentions a user: `<@` and the id and `>`.
pub open spec fn user_mention(id: UserId) -> Seq<char> {
    seq!['<', '@'] + decimal(id.0 as nat) + seq!['>']
}

/// The token that mentions a user by nickname: as [`user_mention`], with `!`
/// before the id.
pub open spec fn nickname_mention(id: UserId) -> Seq<char> {
    seq!['<', '@', '!'] + decimal(id.0 as nat) + seq!['>']
}

/// The token that mentions a role: `<@&` and the id and `>`.
pub open spec fn role_mention(id: RoleId) -> Seq<char> {
    seq!['<', '@', '&'] + decimal(id.0 as nat) + seq!['>']
}

/// The address of a message: that of its channel within its guild, or within
/// `@me` where it has no guild, and then its own id.
pub open spec fn message_link(
    message_id: MessageId,
    channel_id: ChannelId,
    guild_id: Option<GuildId>,
) -> Seq<char> {
    "https://discord.com/channels/"@ + (match guild_id {
        Some(guild) => decimal(guild.0 as nat),
        None => seq!['@', 'm', 'e'],
    }) + seq!['/'] + decimal(channel_id.0 as nat) + seq!['/'] + decimal(message_id.0 as nat)
}

impl UserId {
    /// The characters of the token that mentions the user.
    pub fn mention_chars(&self) -> (r: Vec<char>)
        ensures
            r@ == user_mention(*self),
    {
        let mut out: Vec<char> = Vec::new();
        out.push('<');
        out.push('@');
        push_decimal(&mut out, self.0);
        out.push('>');
        assert(out@ == user_mention(*self));
        out
    }

    /// The characters of the token that mentions the user by nickname.
    pub fn nickname_mention_chars(&self) -> (r: Vec<char>)
        ensures
            r@ == nickname_mention(*self),
    {
        let mut out: Vec<char> = Vec::new();
        out.push('<');
        out.push('@');
        out.push('!');
        push_decimal(&mut out, self.0);
        out.push('>');
        assert(out@ == nickname_mention(*self));
        out
    }

    /// The token that mentions the user.
    pub fn mention(&self) -> (r: String)
        ensures
            r@ == user_mention(*self),
    {
        from_chars(&self.mention_chars())
    }
}

impl RoleId {
    /// The characters of the token that mentions the role.
    pub fn mention_chars(&self) -> (r: Vec<char>)
        ensures
            r@ == role_mention(*self),
    {
        let mut out: Vec<char> = Vec::new();
        out.push('<');
        out.push('@');
        out.push('&');
        push_decimal(&mut out, self.0);
        out.push('>');
        assert(out@ == role_mention(*self));
        out
    }

    /// The token that mentions the role.
    pub fn mention(&self) -> (r: String)
        ensures
            r@ == role_mention(*self),
    {
        from_chars(&self.mention_chars())
    }
}

impl MessageId {
    /// Returns a link referencing this message. When clicked, users will jump
    /// to the message. The link is valid for messages in private channels and
    /// in guilds.
    pub fn link(&self, channel_id: ChannelId, guild_id: Option<GuildId>) -> (r: String)
        ensures
            r@ == message_link(*self, channel_id, guild_id),
    {
        let mut out = to_chars("https://discord.com/channels/");
        match guild_id {
            Some(guild) => {
                push_decimal(&mut out, guild.0);
            },
            None => {
                out.push('@');
                out.push('m');
                out.push('e');
            },
        }
        out.push('/');
        push_decimal(&mut out, channel_id.0);
        out.push('/');
        push_decimal(&mut out, self.0);
        assert(out@ == message_link(*self, channel_id, guild_id));
        from_chars(&out)
    }
}

} // verus!
