//! Failures that the library finds locally, before anything is sent.

use vstd::prelude::*;
use crate::permissions::Permissions;

verus! {

/// A failure found from local state alone.
#[derive(Clone, Copy, Debug, PartialEq, Eq, Structural)]
pub enum ModelError {
    /// The content is longer than the limit; holds the number of Unicode
    /// scalar values over it.
    ContentTooLong(usize),
    /// The payload holds more embeds than a message may carry.
    TooManyEmbeds,
    /// The text of one embed is longer than the limit; holds the excess.
    EmbedTooLarge(usize),
    /// The payload names more stickers than a message may carry.
    TooManyStickers,
    /// The cache shows that the acting identity lacks the permissions held.
    InsufficientPermissions(Permissions),
    /// The message was already published to the following channels.
    AlreadyCrossposted,
    /// The message is itself a crosspost, or is not a regular message.
    CannotCrosspost,
    /// The acting identity is not the author, and nothing else allows the
    /// operation.
    NotAuthor,
    /// The acting identity is not the author of the message to edit.
    InvalidUser,
    /// The operation needs a guild, and the message has none.
    ItemMissing,
}

} // verus!
