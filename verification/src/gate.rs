//! The permission gate: whether local state already shows that an action is
//! not allowed, so that the round trip can be saved. It never stands in for
//! the check that the remote service makes.

use vstd::prelude::*;
use crate::cache::CacheSnapshot;
use crate::error::ModelError;
use crate::id::{ChannelId, GuildId};
use crate::permissions::Permissions;

verus! {

/// What the permission check comes to.
///
/// Without a cache nothing is known, and the action goes on. Outside a guild
/// there are no permissions to check. In a guild the action fails only where
/// the cache knows the channel and the current user's permissions in it lack
/// some of `required`.
pub open spec fn authorized(
    cache: Option<&CacheSnapshot>,
    channel_id: ChannelId,
    guild_id: Option<GuildId>,
    required: Permissions,
) -> Result<(), ModelError> {
    match cache {
        None => Ok(()),
        Some(snapshot) => if guild_id is None {
            Ok(())
        } else {
            match snapshot.permissions_in(channel_id) {
                Some(granted) => if granted.has_all(required) {
                    Ok(())
                } else {
                    Err(ModelError::InsufficientPermissions(required))
                },
                None => Ok(()),
            }
        },
    }
}

/// Decides whether the current user may act in a channel, as far as the cache
/// can tell.
pub fn authorize(
    cache: Option<&CacheSnapshot>,
    channel_id: ChannelId,
    guild_id: Option<GuildId>,
    required: Permissions,
) -> (r: Result<(), ModelError>)
    ensures
        r == authorized(cache, channel_id, guild_id, required),
{
    let snapshot = match cache {
        Some(snapshot) => snapshot,
        None => return Ok(()),
    };
    if guild_id.is_none() {
        return Ok(());
    }
    match snapshot.permissions(channel_id) {
        Some(granted) => if granted.contains(required) {
            Ok(())
        } else {
            Err(ModelError::InsufficientPermissions(required))
        },
        None => Ok(()),
    }
}

} // verus!
