//! What a message tells of itself, and what the cache tells of the things
//! that it refers to. Where the cache is absent or does not know, the caller
//! gets the request that fetches the answer.

use vstd::prelude::*;
use crate::cache::{find_channel, find_guild, find_member, CacheSnapshot, CachedChannel};
use crate::error::ModelError;
use crate::id::{message_link, ChannelId, GuildId, MessageId, UserId};
use crate::message::Message;
use crate::reaction::ReactionType;
use crate::request::{Lookup, Request};
use crate::user::{clone_opt_string, Guild, Member, User};

verus! {

/// Whether one of `users` has the id `id`.
pub open spec fn mentioned(users: Seq<User>, id: UserId) -> bool {
    exists|i: int| 0 <= i < users.len() && (#[trigger] users[i]).id == id
}

/// The most users that one request for the users of a reaction returns.
pub const REACTION_USERS_MAX: u8 = 100;

/// How many users a request for the users of a reaction returns where the
/// caller names no number.
pub const REACTION_USERS_DEFAULT: u8 = 50;

/// The number of users asked for: the default where none is named, and at
/// most the maximum.
pub open spec fn reaction_users_limit(limit: Option<u8>) -> u8 {
    match limit {
        Some(n) => if n > REACTION_USERS_MAX {
            REACTION_USERS_MAX
        } else {
            n
        },
        None => REACTION_USERS_DEFAULT,
    }
}

/// The guild that a channel is known to belong to: the one given, or else the
/// one that the cache knows for the channel.
pub open spec fn known_guild(
    cache: Option<&CacheSnapshot>,
    channel_id: ChannelId,
    guild_id: Option<GuildId>,
) -> Option<Option<GuildId>> {
    if guild_id is Some {
        Some(guild_id)
    } else {
        match cache {
            Some(snapshot) => match find_channel(snapshot.channels@, channel_id) {
                Some(channel) => Some(channel.guild_id),
                None => None,
            },
            None => None,
        }
    }
}

impl MessageId {
    /// Same as [`MessageId::link`], but looks for the guild of the channel
    /// in the cache where none is given. Where the cache cannot tell, returns
    /// the request that fetches the channel; the link is then that of the
    /// guild that the channel turns out to have.
    pub fn link_ensured(
        &self,
        cache: Option<&CacheSnapshot>,
        channel_id: ChannelId,
        guild_id: Option<GuildId>,
    ) -> (r: Lookup<String>)
        ensures
            match known_guild(cache, channel_id, guild_id) {
                Some(guild) => r matches Lookup::Found(link) && link@ == message_link(
                    *self,
                    channel_id,
                    guild,
                ),
                None => r == Lookup::<String>::Fetch(Request::GetChannel { channel_id }),
            },
    {
        if guild_id.is_some() {
            return Lookup::Found(self.link(channel_id, guild_id));
        }
        let found = match cache {
            Some(snapshot) => snapshot.channel(channel_id),
            None => None,
        };
        match found {
            Some(channel) => Lookup::Found(self.link(channel_id, channel.guild_id)),
            None => Lookup::Fetch(Request::GetChannel { channel_id }),
        }
    }
}

impl Message {
    /// Whether the message was sent by the current user.
    pub fn is_own(&self, cache: &CacheSnapshot) -> (r: bool)
        ensures
            r == (self.author.id == cache.current_user.id),
    {
        self.author.id == cache.current_user_id()
    }

    /// Checks whether the message mentions the user with the given id.
    pub fn mentions_user_id(&self, id: UserId) -> (r: bool)
        ensures
            r == mentioned(self.mentions@, id),
    {
        let mut i: usize = 0;
        while i < self.mentions.len()
            invariant
                i <= self.mentions@.len(),
                forall|j: int| 0 <= j < i ==> (#[trigger] self.mentions@[j]).id != id,
            decreases self.mentions@.len() - i,
        {
            if self.mentions[i].id == id {
                return true;
            }
            i += 1;
        }
        false
    }

    /// Checks whether the message mentions the given user.
    #[must_use]
    pub fn mentions_user(&self, user: &User) -> (r: bool)
        ensures
            r == mentioned(self.mentions@, user.id),
    {
        self.mentions_user_id(user.id)
    }

    /// Checks whether the message mentions the current user. Without a cache
    /// returns the request that fetches the current user, to pass to
    /// [`Message::mentions_user`].
    pub fn mentions_me(&self, cache: Option<&CacheSnapshot>) -> (r: Lookup<bool>)
        ensures
            r == match cache {
                Some(snapshot) => Lookup::Found(
                    mentioned(self.mentions@, snapshot.current_user.id),
                ),
                None => Lookup::Fetch(Request::GetCurrentUser),
            },
    {
        match cache {
            Some(snapshot) => Lookup::Found(self.mentions_user_id(snapshot.current_user_id())),
            None => Lookup::Fetch(Request::GetCurrentUser),
        }
    }

    /// The guild of the message as the cache knows it.
    pub open spec fn cached_guild(&self, cache: &CacheSnapshot) -> Option<Guild> {
        match self.guild_id {
            Some(id) => find_guild(cache.guilds@, id),
            None => None,
        }
    }

    /// The guild of the message, where the message has one and the cache
    /// knows it.
    pub fn guild(&self, cache: &CacheSnapshot) -> (r: Option<Guild>)
        ensures
            r == self.cached_guild(cache),
    {
        match self.guild_id {
            Some(id) => match cache.guild(id) {
                Some(guild) => Some(guild.clone()),
                None => None,
            },
            None => None,
        }
    }

    /// What `field_accessor` takes from the guild of the message, where the
    /// message has a guild and the cache knows it.
    pub fn guild_field<Ret, Fun>(&self, cache: &CacheSnapshot, field_accessor: Fun) -> (r: Option<
        Ret,
    >) where Ret: Clone, Fun: FnOnce(&Guild) -> Ret
        requires
            match self.cached_guild(cache) {
                Some(guild) => field_accessor.requires((&guild,)),
                None => true,
            },
        ensures
            match self.cached_guild(cache) {
                Some(guild) => r matches Some(field) && field_accessor.ensures((&guild,), field),
                None => r is None,
            },
    {
        match self.guild_id {
            Some(id) => match cache.guild(id) {
                Some(guild) => Some(field_accessor(guild)),
                None => None,
            },
            None => None,
        }
    }

    /// The category of the channel of the message, where the cache knows the
    /// channel and the channel has one.
    pub fn category_id(&self, cache: &CacheSnapshot) -> (r: Option<ChannelId>)
        ensures
            r == cache.category_of(self.channel_id),
    {
        cache.channel_category_id(self.channel_id)
    }

    /// The channel of the message as the cache knows it, or the request that
    /// fetches it.
    pub fn channel(&self, cache: Option<&CacheSnapshot>) -> (r: Lookup<CachedChannel>)
        ensures
            r == match cache {
                Some(snapshot) => match find_channel(snapshot.channels@, self.channel_id) {
                    Some(channel) => Lookup::Found(channel),
                    None => Lookup::Fetch(Request::GetChannel { channel_id: self.channel_id }),
                },
                None => Lookup::Fetch(Request::GetChannel { channel_id: self.channel_id }),
            },
    {
        let found = match cache {
            Some(snapshot) => snapshot.channel(self.channel_id),
            None => None,
        };
        match found {
            Some(channel) => Lookup::Found(channel),
            None => Lookup::Fetch(Request::GetChannel { channel_id: self.channel_id }),
        }
    }

    /// The author as a member of the guild of the message, as the cache
    /// knows the member.
    pub open spec fn cached_author(&self, cache: Option<&CacheSnapshot>) -> Option<Member> {
        match (cache, self.guild_id) {
            (Some(snapshot), Some(guild_id)) => find_member(
                snapshot.members@,
                guild_id,
                self.author.id,
            ),
            _ => None,
        }
    }

    /// The author as a member of the guild of the message. Fails with
    /// `ItemMissing` where the message has no guild. Where the cache does not
    /// know the member, returns the request that fetches it.
    pub fn member(&self, cache: Option<&CacheSnapshot>) -> (r: Result<Lookup<Member>, ModelError>)
        ensures
            match self.guild_id {
                None => r == Err::<Lookup<Member>, ModelError>(ModelError::ItemMissing),
                Some(guild_id) => match self.cached_author(cache) {
                    Some(member) => r matches Ok(Lookup::Found(copy)) && copy.guild_id
                        == member.guild_id && copy.user == member.user && copy.nick == member.nick
                        && copy.roles@ == member.roles@,
                    None => r == Ok::<Lookup<Member>, ModelError>(
                        Lookup::Fetch(Request::GetMember { guild_id, user_id: self.author.id }),
                    ),
                },
            },
    {
        let guild_id = match self.guild_id {
            Some(guild_id) => guild_id,
            None => return Err(ModelError::ItemMissing),
        };
        if let Some(snapshot) = cache {
            if let Some(member) = snapshot.member(guild_id, self.author.id) {
                return Ok(Lookup::Found(member.clone()));
            }
        }
        Ok(Lookup::Fetch(Request::GetMember { guild_id, user_id: self.author.id }))
    }

    /// The nickname of the author in the guild of the message; none outside
    /// a guild. Where the cache does not know the member, returns the request
    /// that fetches it.
    pub fn author_nick(&self, cache: Option<&CacheSnapshot>) -> (r: Lookup<Option<String>>)
        ensures
            r == match self.guild_id {
                None => Lookup::Found(None),
                Some(guild_id) => match self.cached_author(cache) {
                    Some(member) => Lookup::Found(member.nick),
                    None => Lookup::Fetch(
                        Request::GetMember { guild_id, user_id: self.author.id },
                    ),
                },
            },
    {
        let guild_id = match self.guild_id {
            Some(guild_id) => guild_id,
            None => return Lookup::Found(None),
        };
        if let Some(snapshot) = cache {
            if let Some(member) = snapshot.member(guild_id, self.author.id) {
                return Lookup::Found(clone_opt_string(&member.nick));
            }
        }
        Lookup::Fetch(Request::GetMember { guild_id, user_id: self.author.id })
    }

    /// The request for the users that reacted to the message with an emoji:
    /// 50 of them where no number is named, and never more than 100, after
    /// the user `after` where one is given.
    pub fn reaction_users(
        &self,
        reaction_type: ReactionType,
        limit: Option<u8>,
        after: Option<UserId>,
    ) -> (r: Request)
        ensures
            r == (Request::GetReactionUsers {
                channel_id: self.channel_id,
                message_id: self.id,
                reaction_type,
                limit: reaction_users_limit(limit),
                after,
            }),
    {
        let limit: u8 = match limit {
            Some(n) => if n > REACTION_USERS_MAX {
                REACTION_USERS_MAX
            } else {
                n
            },
            None => REACTION_USERS_DEFAULT,
        };
        Request::GetReactionUsers {
            channel_id: self.channel_id,
            message_id: self.id,
            reaction_type,
            limit,
            after,
        }
    }

    /// Returns a link referencing this message. When clicked, users will jump
    /// to the message. The link is valid for messages in private channels and
    /// in guilds.
    #[must_use]
    pub fn link(&self) -> (r: String)
        ensures
            r@ == message_link(self.id, self.channel_id, self.guild_id),
    {
        self.id.link(self.channel_id, self.guild_id)
    }

    /// Same as [`Message::link`], but looks for the guild in the cache where
    /// the message names none: see [`MessageId::link_ensured`].
    pub fn link_ensured(&self, cache: Option<&CacheSnapshot>) -> (r: Lookup<String>)
        ensures
            match known_guild(cache, self.channel_id, self.guild_id) {
                Some(guild) => r matches Lookup::Found(link) && link@ == message_link(
                    self.id,
                    self.channel_id,
                    guild,
                ),
                None => r == Lookup::<String>::Fetch(
                    Request::GetChannel { channel_id: self.channel_id },
                ),
            },
    {
        self.id.link_ensured(cache, self.channel_id, self.guild_id)
    }
}

} // verus!
