//! Users, guild members, roles and guilds, as far as messages refer to them.

use vstd::prelude::*;
use crate::id::{GuildId, RoleId, UserId};
use crate::permissions::Permissions;

verus! {

/// A moment in time, in whole seconds since the Unix epoch.
#[derive(Clone, Copy, Debug, PartialEq, Eq, Hash, Structural)]
pub struct Timestamp {
    pub secs: i64,
}

impl Timestamp {
    /// The seconds since the Unix epoch.
    pub fn unix_timestamp(&self) -> (r: i64)
        ensures
            r == self.secs,
    {
        self.secs
    }
}

/// A user of the platform.
#[derive(Debug, PartialEq)]
pub struct User {
    /// The unique id of the user.
    pub id: UserId,
    /// The name of the user.
    pub name: String,
    /// The number that tells users of one name apart.
    pub discriminator: u16,
    /// Whether the user is a bot.
    pub bot: bool,
}

impl Clone for User {
    fn clone(&self) -> (r: Self)
        ensures
            r == *self,
    {
        User {
            id: self.id,
            name: self.name.clone(),
            discriminator: self.discriminator,
            bot: self.bot,
        }
    }
}

/// What a message carries of its author's membership in the guild.
#[derive(Debug, PartialEq)]
pub struct PartialMember {
    /// Whether the member is deafened in voice channels.
    pub deaf: bool,
    /// Whether the member is muted in voice channels.
    pub mute: bool,
    /// The nickname of the member in the guild.
    pub nick: Option<String>,
    /// The roles of the member.
    pub roles: Vec<RoleId>,
}

/// A member of a guild.
#[derive(Debug, PartialEq)]
pub struct Member {
    /// The guild that the member belongs to.
    pub guild_id: GuildId,
    /// The user behind the member.
    pub user: User,
    /// The nickname of the member in the guild.
    pub nick: Option<String>,
    /// The roles of the member.
    pub roles: Vec<RoleId>,
}

/// A role of a guild.
#[derive(Debug, PartialEq)]
pub struct Role {
    /// The unique id of the role.
    pub id: RoleId,
    /// The guild that the role belongs to.
    pub guild_id: GuildId,
    /// The name of the role.
    pub name: String,
    /// The permissions that the role grants.
    pub permissions: Permissions,
}

/// A guild.
#[derive(Debug, PartialEq)]
pub struct Guild {
    /// The unique id of the guild.
    pub id: GuildId,
    /// The name of the guild.
    pub name: String,
    /// The user that owns the guild.
    pub owner_id: UserId,
}

/// A copy of a list of role ids.
pub fn clone_role_ids(roles: &Vec<RoleId>) -> (r: Vec<RoleId>)
    ensures
        r@ == roles@,
{
    let mut out: Vec<RoleId> = Vec::new();
    let mut i: usize = 0;
    while i < roles.len()
        invariant
            i <= roles@.len(),
            out@ == roles@.take(i as int),
        decreases roles@.len() - i,
    {
        out.push(roles[i]);
        i += 1;
        assert(roles@.take(i as int) == roles@.take(i - 1).push(roles@[i - 1]));
    }
    assert(roles@ == roles@.take(i as int));
    out
}

/// A copy of an optional string.
pub fn clone_opt_string(s: &Option<String>) -> (r: Option<String>)
    ensures
        r == *s,
{
    match s {
        Some(text) => Some(text.clone()),
        None => None,
    }
}

impl Clone for PartialMember {
    fn clone(&self) -> (r: Self)
        ensures
            r.deaf == self.deaf,
            r.mute == self.mute,
            r.nick == self.nick,
            r.roles@ == self.roles@,
    {
        PartialMember {
            deaf: self.deaf,
            mute: self.mute,
            nick: clone_opt_string(&self.nick),
            roles: clone_role_ids(&self.roles),
        }
    }
}

impl Clone for Member {
    fn clone(&self) -> (r: Self)
        ensures
            r.guild_id == self.guild_id,
            r.user == self.user,
            r.nick == self.nick,
            r.roles@ == self.roles@,
    {
        Member {
            guild_id: self.guild_id,
            user: self.user.clone(),
            nick: clone_opt_string(&self.nick),
            roles: clone_role_ids(&self.roles),
        }
    }
}

impl Clone for Role {
    fn clone(&self) -> (r: Self)
        ensures
            r == *self,
    {
        Role {
            id: self.id,
            guild_id: self.guild_id,
            name: self.name.clone(),
            permissions: self.permissions,
        }
    }
}

impl Clone for Guild {
    fn clone(&self) -> (r: Self)
        ensures
            r == *self,
    {
        Guild { id: self.id, name: self.name.clone(), owner_id: self.owner_id }
    }
}

} // verus!
