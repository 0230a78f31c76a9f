//! What a collector of gateway events waits for. The library describes the
//! events; whoever holds the connection to the gateway collects them.

use vstd::prelude::*;
use crate::message::Message;

verus! {

/// Which events a collector takes: those that belong to the message, the
/// channel, the guild and the author named, and all where none is named.
#[derive(Clone, Copy, Debug, PartialEq, Eq, Structural)]
pub struct EventFilter {
    /// The id of the message that an event has to belong to.
    pub message_id: Option<u64>,
    /// The id of the channel that an event has to belong to.
    pub channel_id: Option<u64>,
    /// The id of the guild that an event has to belong to.
    pub guild_id: Option<u64>,
    /// The id of the user that an event has to come from.
    pub author_id: Option<u64>,
}

impl EventFilter {
    /// The filter that takes every event.
    pub open spec fn any() -> EventFilter {
        EventFilter { message_id: None, channel_id: None, guild_id: None, author_id: None }
    }

    /// The filter that takes the events of one message.
    pub open spec fn of_message(message_id: u64) -> EventFilter {
        EventFilter { message_id: Some(message_id), ..EventFilter::any() }
    }

    /// The filter that takes every event.
    pub fn new() -> (r: EventFilter)
        ensures
            r == EventFilter::any(),
    {
        EventFilter { message_id: None, channel_id: None, guild_id: None, author_id: None }
    }

    /// Whether the filter takes an event that belongs to the given message,
    /// channel and guild and comes from the given user.
    pub open spec fn takes(self, message_id: u64, channel_id: u64, guild_id: Option<u64>, author_id: u64) -> bool {
        &&& self.message_id is Some ==> self.message_id == Some(message_id)
        &&& self.channel_id is Some ==> self.channel_id == Some(channel_id)
        &&& self.guild_id is Some ==> self.guild_id == guild_id
        &&& self.author_id is Some ==> self.author_id == Some(author_id)
    }

    /// Whether the filter takes an event that belongs to the given message,
    /// channel and guild and comes from the given user.
    pub fn accepts(&self, message_id: u64, channel_id: u64, guild_id: Option<u64>, author_id: u64) -> (r:
        bool)
        ensures
            r == self.takes(message_id, channel_id, guild_id, author_id),
    {
        let message_fits = match self.message_id {
            Some(id) => id == message_id,
            None => true,
        };
        let channel_fits = match self.channel_id {
            Some(id) => id == channel_id,
            None => true,
        };
        let guild_fits = match self.guild_id {
            Some(id) => match guild_id {
                Some(other) => id == other,
                None => false,
            },
            None => true,
        };
        let author_fits = match self.author_id {
            Some(id) => id == author_id,
            None => true,
        };
        message_fits && channel_fits && guild_fits && author_fits
    }
}

/// A collector of the first reaction that its filter takes.
#[derive(Clone, Copy, Debug, PartialEq, Eq, Structural)]
pub struct CollectReaction {
    pub filter: EventFilter,
}

/// A collector of every reaction that its filter takes.
#[derive(Clone, Copy, Debug, PartialEq, Eq, Structural)]
pub struct ReactionCollectorBuilder {
    pub filter: EventFilter,
}

/// A collector of the first component interaction that its filter takes.
#[derive(Clone, Copy, Debug, PartialEq, Eq, Structural)]
pub struct CollectComponentInteraction {
    pub filter: EventFilter,
}

/// A collector of every component interaction that its filter takes.
#[derive(Clone, Copy, Debug, PartialEq, Eq, Structural)]
pub struct ComponentInteractionCollectorBuilder {
    pub filter: EventFilter,
}

/// A collector of the first modal submit interaction that its filter takes.
#[derive(Clone, Copy, Debug, PartialEq, Eq, Structural)]
pub struct CollectModalInteraction {
    pub filter: EventFilter,
}

/// A collector of every modal submit interaction that its filter takes.
#[derive(Clone, Copy, Debug, PartialEq, Eq, Structural)]
pub struct ModalInteractionCollectorBuilder {
    pub filter: EventFilter,
}

impl CollectReaction {
    /// A collector that takes every reaction.
    pub fn new() -> (r: Self)
        ensures
            r.filter == EventFilter::any(),
    {
        CollectReaction { filter: EventFilter::new() }
    }

    /// Takes only the reactions to the message with the given id.
    pub fn message_id(self, message_id: u64) -> (r: Self)
        ensures
            r.filter == (EventFilter { message_id: Some(message_id), ..self.filter }),
    {
        CollectReaction { filter: EventFilter { message_id: Some(message_id), ..self.filter } }
    }
}

impl ReactionCollectorBuilder {
    /// A collector that takes every reaction.
    pub fn new() -> (r: Self)
        ensures
            r.filter == EventFilter::any(),
    {
        ReactionCollectorBuilder { filter: EventFilter::new() }
    }

    /// Takes only the reactions to the message with the given id.
    pub fn message_id(self, message_id: u64) -> (r: Self)
        ensures
            r.filter == (EventFilter { message_id: Some(message_id), ..self.filter }),
    {
        ReactionCollectorBuilder {
            filter: EventFilter { message_id: Some(message_id), ..self.filter },
        }
    }
}

impl CollectComponentInteraction {
    /// A collector that takes every component interaction.
    pub fn new() -> (r: Self)
        ensures
            r.filter == EventFilter::any(),
    {
        CollectComponentInteraction { filter: EventFilter::new() }
    }

    /// Takes only the interactions with the message with the given id.
    pub fn message_id(self, message_id: u64) -> (r: Self)
        ensures
            r.filter == (EventFilter { message_id: Some(message_id), ..self.filter }),
    {
        CollectComponentInteraction {
            filter: EventFilter { message_id: Some(message_id), ..self.filter },
        }
    }
}

impl ComponentInteractionCollectorBuilder {
    /// A collector that takes every component interaction.
    pub fn new() -> (r: Self)
        ensures
            r.filter == EventFilter::any(),
    {
        ComponentInteractionCollectorBuilder { filter: EventFilter::new() }
    }

    /// Takes only the interactions with the message with the given id.
    pub fn message_id(self, message_id: u64) -> (r: Self)
        ensures
            r.filter == (EventFilter { message_id: Some(message_id), ..self.filter }),
    {
        ComponentInteractionCollectorBuilder {
            filter: EventFilter { message_id: Some(message_id), ..self.filter },
        }
    }
}

impl CollectModalInteraction {
    /// A collector that takes every modal submit interaction.
    pub fn new() -> (r: Self)
        ensures
            r.filter == EventFilter::any(),
    {
        CollectModalInteraction { filter: EventFilter::new() }
    }

    /// Takes only the interactions with the message with the given id.
    pub fn message_id(self, message_id: u64) -> (r: Self)
        ensures
            r.filter == (EventFilter { message_id: Some(message_id), ..self.filter }),
    {
        CollectModalInteraction {
            filter: EventFilter { message_id: Some(message_id), ..self.filter },
        }
    }
}

impl ModalInteractionCollectorBuilder {
    /// A collector that takes every modal submit interaction.
    pub fn new() -> (r: Self)
        ensures
            r.filter == EventFilter::any(),
    {
        ModalInteractionCollectorBuilder { filter: EventFilter::new() }
    }

    /// Takes only the interactions with the message with the given id.
    pub fn message_id(self, message_id: u64) -> (r: Self)
        ensures
            r.filter == (EventFilter { message_id: Some(message_id), ..self.filter }),
    {
        ModalInteractionCollectorBuilder {
            filter: EventFilter { message_id: Some(message_id), ..self.filter },
        }
    }
}

impl Message {
    /// Await a single reaction on this message.
    pub fn await_reaction(&self) -> (r: CollectReaction)
        ensures
            r.filter == EventFilter::of_message(self.id.0),
    {
        CollectReaction::new().message_id(self.id.0)
    }

    /// Returns a collector of the reactions on this message.
    pub fn await_reactions(&self) -> (r: ReactionCollectorBuilder)
        ensures
            r.filter == EventFilter::of_message(self.id.0),
    {
        ReactionCollectorBuilder::new().message_id(self.id.0)
    }

    /// Await a single component interaction on this message.
    pub fn await_component_interaction(&self) -> (r: CollectComponentInteraction)
        ensures
            r.filter == EventFilter::of_message(self.id.0),
    {
        CollectComponentInteraction::new().message_id(self.id.0)
    }

    /// Returns a collector of the component interactions on this message.
    pub fn await_component_interactions(&self) -> (r: ComponentInteractionCollectorBuilder)
        ensures
            r.filter == EventFilter::of_message(self.id.0),
    {
        ComponentInteractionCollectorBuilder::new().message_id(self.id.0)
    }

    /// Await a single modal submit interaction on this message.
    pub fn await_modal_interaction(&self) -> (r: CollectModalInteraction)
        ensures
            r.filter == EventFilter::of_message(self.id.0),
    {
        CollectModalInteraction::new().message_id(self.id.0)
    }

    /// Returns a collector of the modal submit interactions on this message.
    pub fn await_modal_interactions(&self) -> (r: ModalInteractionCollectorBuilder)
        ensures
            r.filter == EventFilter::of_message(self.id.0),
    {
        ModalInteractionCollectorBuilder::new().message_id(self.id.0)
    }
}

} // verus!
