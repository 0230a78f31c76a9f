//! Bit sets: the permissions of an identity in a channel, and the feature
//! flags of a message.

use vstd::prelude::*;

verus! {

/// Permission to add reactions to messages.
pub const ADD_REACTIONS: u64 = 0x40;

/// Permission to send messages in a channel.
pub const SEND_MESSAGES: u64 = 0x800;

/// Permission to delete and pin the messages of others.
pub const MANAGE_MESSAGES: u64 = 0x2000;

/// A set of permissions, one bit each.
#[derive(Clone, Copy, Debug, PartialEq, Eq, Hash, Structural)]
pub struct Permissions {
    pub bits: u64,
}

impl Permissions {
    /// Whether every permission of `other` is in `self`.
    pub open spec fn has_all(self, other: Permissions) -> bool {
        self.bits & other.bits == other.bits
    }

    /// The empty set.
    pub fn empty() -> (r: Permissions)
        ensures
            r.bits == 0,
    {
        Permissions { bits: 0 }
    }

    /// The set with exactly the given bits.
    pub fn from_bits(bits: u64) -> (r: Permissions)
        ensures
            r.bits == bits,
    {
        Permissions { bits }
    }

    /// Whether no permission is in the set.
    pub fn is_empty(&self) -> (r: bool)
        ensures
            r == (self.bits == 0),
    {
        self.bits == 0
    }

    /// Whether every permission of `other` is in `self`.
    pub fn contains(&self, other: Permissions) -> (r: bool)
        ensures
            r == self.has_all(other),
    {
        self.bits & other.bits == other.bits
    }

    /// Takes the permissions of `other` out of the set.
    pub fn remove(&mut self, other: Permissions)
        ensures
            final(self).bits == old(self).bits & !other.bits,
    {
        self.bits = self.bits & !other.bits;
    }
}

/// The permissions of `required` that `granted` lacks are none exactly when
/// `granted` has all of `required`.
pub proof fn lemma_missing_none_iff_has_all(granted: Permissions, required: Permissions)
    ensures
        (required.bits & !granted.bits == 0) <==> granted.has_all(required),
{
    let g = granted.bits;
    let r = required.bits;
    assert((r & !g == 0) <==> (g & r == r)) by (bit_vector);
}

/// The message was published to the channels that follow its channel.
pub const CROSSPOSTED: u64 = 0x1;

/// The message came from another channel through channel following.
pub const IS_CROSSPOST: u64 = 0x2;

/// The embeds of the message are not shown.
pub const SUPPRESS_EMBEDS: u64 = 0x4;

/// The source of this crosspost was deleted.
pub const SOURCE_MESSAGE_DELETED: u64 = 0x8;

/// The message came from the urgent message system.
pub const URGENT: u64 = 0x10;

/// A thread with the id of the message was started from it.
pub const HAS_THREAD: u64 = 0x20;

/// Only the user who invoked the interaction sees the message.
pub const EPHEMERAL: u64 = 0x40;

/// The message is an interaction response that is still pending.
pub const LOADING: u64 = 0x80;

/// Some roles could not be mentioned when their members were added to the
/// thread.
pub const FAILED_TO_MENTION_SOME_ROLES_IN_THREAD: u64 = 0x100;

/// The feature flags of a message, one bit each.
#[derive(Clone, Copy, Debug, PartialEq, Eq, Hash, Structural)]
pub struct MessageFlags {
    pub bits: u64,
}

impl MessageFlags {
    /// Whether every flag of the mask `bits` is set.
    pub open spec fn has(self, bits: u64) -> bool {
        self.bits & bits == bits
    }

    /// No flag set.
    pub fn empty() -> (r: MessageFlags)
        ensures
            r.bits == 0,
    {
        MessageFlags { bits: 0 }
    }

    /// The flags with exactly the given bits.
    pub fn from_bits(bits: u64) -> (r: MessageFlags)
        ensures
            r.bits == bits,
    {
        MessageFlags { bits }
    }

    /// Whether every flag of `other` is set in `self`.
    pub fn contains(&self, other: MessageFlags) -> (r: bool)
        ensures
            r == self.has(other.bits),
    {
        self.bits & other.bits == other.bits
    }
}

} // verus!
