//! A snapshot of the local cache: a read-only mirror of remote state, which
//! may be out of date. Operations consult it to fail fast; the remote service
//! stays the authority.

use vstd::prelude::*;
use crate::id::{ChannelId, GuildId, RoleId, UserId};
use crate::permissions::Permissions;
use crate::user::{Guild, Member, Role, User};

verus! {

/// What the cache knows of one channel.
#[derive(Clone, Copy, Debug, PartialEq, Eq, Structural)]
pub struct CachedChannel {
    /// The id of the channel.
    pub id: ChannelId,
    /// The guild of the channel, where it has one.
    pub guild_id: Option<GuildId>,
    /// The category that holds the channel, where one does.
    pub category_id: Option<ChannelId>,
    /// The permissions that the current user has in the channel.
    pub permissions: Permissions,
}

/// A snapshot of the cache, as the identity that acts sees it.
#[derive(Clone, Debug, PartialEq)]
pub struct CacheSnapshot {
    /// The user that acts.
    pub current_user: User,
    /// The channels that the cache knows.
    pub channels: Vec<CachedChannel>,
    /// The guilds that the cache knows.
    pub guilds: Vec<Guild>,
    /// The guild members that the cache knows.
    pub members: Vec<Member>,
    /// The roles that the cache knows.
    pub roles: Vec<Role>,
}

/// The first of `channels` with the id `id`.
pub open spec fn find_channel(channels: Seq<CachedChannel>, id: ChannelId) -> Option<CachedChannel>
    decreases channels.len(),
{
    if channels.len() == 0 {
        None
    } else if channels[0].id == id {
        Some(channels[0])
    } else {
        find_channel(channels.skip(1), id)
    }
}

/// The first of `guilds` with the id `id`.
pub open spec fn find_guild(guilds: Seq<Guild>, id: GuildId) -> Option<Guild>
    decreases guilds.len(),
{
    if guilds.len() == 0 {
        None
    } else if guilds[0].id == id {
        Some(guilds[0])
    } else {
        find_guild(guilds.skip(1), id)
    }
}

/// The first of `members` that is the given user in the given guild.
pub open spec fn find_member(members: Seq<Member>, guild_id: GuildId, user_id: UserId) -> Option<
    Member,
>
    decreases members.len(),
{
    if members.len() == 0 {
        None
    } else if members[0].guild_id == guild_id && members[0].user.id == user_id {
        Some(members[0])
    } else {
        find_member(members.skip(1), guild_id, user_id)
    }
}

/// The first of `roles` with the id `id`.
pub open spec fn find_role(roles: Seq<Role>, id: RoleId) -> Option<Role>
    decreases roles.len(),
{
    if roles.len() == 0 {
        None
    } else if roles[0].id == id {
        Some(roles[0])
    } else {
        find_role(roles.skip(1), id)
    }
}

/// What an optional reference refers to.
pub open spec fn deref_opt<T>(r: Option<&T>) -> Option<T> {
    match r {
        Some(x) => Some(*x),
        None => None,
    }
}

impl CacheSnapshot {
    /// The permissions that the current user has in a channel, where the
    /// cache knows the channel.
    pub open spec fn permissions_in(&self, channel_id: ChannelId) -> Option<Permissions> {
        match find_channel(self.channels@, channel_id) {
            Some(channel) => Some(channel.permissions),
            None => None,
        }
    }

    /// The category of a channel, where the cache knows the channel and the
    /// channel has one.
    pub open spec fn category_of(&self, channel_id: ChannelId) -> Option<ChannelId> {
        match find_channel(self.channels@, channel_id) {
            Some(channel) => channel.category_id,
            None => None,
        }
    }

    /// The name of a role, where the cache knows the role.
    pub open spec fn role_name_of(&self, role_id: RoleId) -> Option<Seq<char>> {
        match find_role(self.roles@, role_id) {
            Some(role) => Some(role.name@),
            None => None,
        }
    }

    /// The id of the user that acts.
    pub fn current_user_id(&self) -> (r: UserId)
        ensures
            r == self.current_user.id,
    {
        self.current_user.id
    }

    /// What the cache knows of a channel.
    pub fn channel(&self, id: ChannelId) -> (r: Option<CachedChannel>)
        ensures
            r == find_channel(self.channels@, id),
    {
        let mut i: usize = 0;
        assert(self.channels@.skip(0) == self.channels@);
        while i < self.channels.len()
            invariant
                i <= self.channels@.len(),
                find_channel(self.channels@, id) == find_channel(self.channels@.skip(i as int), id),
            decreases self.channels@.len() - i,
        {
            assert(self.channels@.skip(i as int)[0] == self.channels@[i as int]);
            assert(self.channels@.skip(i as int).skip(1) == self.channels@.skip(i + 1));
            if self.channels[i].id == id {
                return Some(self.channels[i]);
            }
            i += 1;
        }
        None
    }

    /// The permissions that the current user has in a channel.
    pub fn permissions(&self, channel_id: ChannelId) -> (r: Option<Permissions>)
        ensures
            r == self.permissions_in(channel_id),
    {
        match self.channel(channel_id) {
            Some(channel) => Some(channel.permissions),
            None => None,
        }
    }

    /// The category that holds a channel.
    pub fn channel_category_id(&self, channel_id: ChannelId) -> (r: Option<ChannelId>)
        ensures
            r == self.category_of(channel_id),
    {
        match self.channel(channel_id) {
            Some(channel) => channel.category_id,
            None => None,
        }
    }

    /// The guild with the given id.
    pub fn guild(&self, id: GuildId) -> (r: Option<&Guild>)
        ensures
            deref_opt(r) == find_guild(self.guilds@, id),
    {
        let mut i: usize = 0;
        assert(self.guilds@.skip(0) == self.guilds@);
        while i < self.guilds.len()
            invariant
                i <= self.guilds@.len(),
                find_guild(self.guilds@, id) == find_guild(self.guilds@.skip(i as int), id),
            decreases self.guilds@.len() - i,
        {
            assert(self.guilds@.skip(i as int)[0] == self.guilds@[i as int]);
            assert(self.guilds@.skip(i as int).skip(1) == self.guilds@.skip(i + 1));
            if self.guilds[i].id == id {
                return Some(&self.guilds[i]);
            }
            i += 1;
        }
        None
    }

    /// The given user as a member of the given guild.
    pub fn member(&self, guild_id: GuildId, user_id: UserId) -> (r: Option<&Member>)
        ensures
            deref_opt(r) == find_member(self.members@, guild_id, user_id),
    {
        let mut i: usize = 0;
        assert(self.members@.skip(0) == self.members@);
        while i < self.members.len()
            invariant
                i <= self.members@.len(),
                find_member(self.members@, guild_id, user_id) == find_member(
                    self.members@.skip(i as int),
                    guild_id,
                    user_id,
                ),
            decreases self.members@.len() - i,
        {
            assert(self.members@.skip(i as int)[0] == self.members@[i as int]);
            assert(self.members@.skip(i as int).skip(1) == self.members@.skip(i + 1));
            if self.members[i].guild_id == guild_id && self.members[i].user.id == user_id {
                return Some(&self.members[i]);
            }
            i += 1;
        }
        None
    }

    /// The role with the given id.
    pub fn role(&self, id: RoleId) -> (r: Option<&Role>)
        ensures
            deref_opt(r) == find_role(self.roles@, id),
    {
        let mut i: usize = 0;
        assert(self.roles@.skip(0) == self.roles@);
        while i < self.roles.len()
            invariant
                i <= self.roles@.len(),
                find_role(self.roles@, id) == find_role(self.roles@.skip(i as int), id),
            decreases self.roles@.len() - i,
        {
            assert(self.roles@.skip(i as int)[0] == self.roles@[i as int]);
            assert(self.roles@.skip(i as int).skip(1) == self.roles@.skip(i + 1));
            if self.roles[i].id == id {
                return Some(&self.roles[i]);
            }
            i += 1;
        }
        None
    }
}

} // verus!
