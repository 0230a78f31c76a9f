//! The operations that change a message at the remote service.
//!
//! Each has the same shape. The operation is staged from what the message
//! holds; it is authorised against the cache, as far as the cache can tell;
//! a payload, where there is one, is validated against the limits; and the
//! request is handed to the caller, who submits it and commits the answer.
//! A failure at any step is returned, and nothing is sent.

use vstd::prelude::*;
use vstd::string::StringExecFns;
use crate::builder::{
    attachment_document, embed_document, new_message, reference_document, CreateAllowedMentions,
    CreateEmbed, CreateMessage, EditMessage, ParseValue,
};
use crate::cache::CacheSnapshot;
use crate::channel::Attachment;
use crate::embed::Embed;
use crate::error::ModelError;
use crate::gate::{authorize, authorized};
use crate::id::user_mention;
use crate::json::{
    lemma_absent_key, lemma_with_entry_lookup, lemma_with_item_lookup, lookup, with_entry,
    with_item, MapView, ValueView,
};
use crate::limits::{content_check, embed_check, lengths_check, overflow, sticker_check};
use crate::message::{Message, MessageReference, MessageType};
use crate::permissions::{
    MessageFlags, Permissions, ADD_REACTIONS, CROSSPOSTED, IS_CROSSPOST, MANAGE_MESSAGES,
    SEND_MESSAGES, SUPPRESS_EMBEDS,
};
use crate::reaction::{Reaction, ReactionType};
use crate::request::Request;
use crate::text::{append, from_chars, to_chars};

verus! {

/// The override that a reply carries: whether the author replied to is
/// notified, and the three kinds of mentions, which would otherwise stay
/// silent once an override is attached.
pub open spec fn reply_overrides(ping: bool) -> MapView {
    with_item(
        with_item(
            with_item(
                with_entry(MapView::empty(), "replied_user"@, ValueView::Bool(ping)),
                "parse"@,
                ValueView::String("everyone"@),
            ),
            "parse"@,
            ValueView::String("users"@),
        ),
        "parse"@,
        ValueView::String("roles"@),
    )
}

/// The payload of a reply. An inline reply refers to the message and carries
/// the override; a reply that only mentions carries neither.
pub open spec fn reply_payload(
    reference: MessageReference,
    content: Seq<char>,
    inlined: Option<bool>,
) -> MapView {
    let base = match inlined {
        Some(ping) => with_entry(
            with_entry(new_message(), "message_reference"@, reference_document(reference)),
            "allowed_mentions"@,
            ValueView::Object(reply_overrides(ping)),
        ),
        None => new_message(),
    };
    with_entry(base, "content"@, ValueView::String(content))
}

/// `doc` with the given attachments named as kept, in order.
pub open spec fn with_attachments(doc: MapView, attachments: Seq<Attachment>) -> MapView
    decreases attachments.len(),
{
    if attachments.len() == 0 {
        doc
    } else {
        with_item(
            with_attachments(doc, attachments.drop_last()),
            "attachments"@,
            attachment_document(attachments.last().id),
        )
    }
}

/// The documents that build the given embeds again, in order.
pub open spec fn rebuilt_embeds(embeds: Seq<Embed>) -> Seq<ValueView> {
    Seq::new(embeds.len(), |i: int| ValueView::Object(embed_document(embeds[i])))
}

/// The payload that suppresses the embeds of a message.
pub open spec fn suppress_payload() -> MapView {
    with_entry(MapView::empty(), "flags"@, ValueView::Number(SUPPRESS_EMBEDS))
}

/// The override of a reply names whether the author replied to is notified,
/// and then the three kinds of mentions in the order everyone, users, roles.
pub proof fn lemma_reply_overrides(ping: bool)
    ensures
        reply_overrides(ping) == seq![
            ("replied_user"@, ValueView::Bool(ping)),
            (
                "parse"@,
                ValueView::Array(
                    seq![
                        ValueView::String("everyone"@),
                        ValueView::String("users"@),
                        ValueView::String("roles"@),
                    ],
                ),
            ),
        ],
{
    reveal_strlit("replied_user");
    reveal_strlit("parse");
    assert("replied_user"@[0] != "parse"@[0]);
    let d0 = with_entry(MapView::empty(), "replied_user"@, ValueView::Bool(ping));
    assert(d0 =~= seq![("replied_user"@, ValueView::Bool(ping))]);
    crate::json::lemma_absent_key(d0, "parse"@);
    let d1 = with_item(d0, "parse"@, ValueView::String("everyone"@));
    let a1 = ValueView::Array(seq![ValueView::String("everyone"@)]);
    assert(d1 =~= seq![("replied_user"@, ValueView::Bool(ping)), ("parse"@, a1)]);
    crate::json::lemma_lookup_at_position(d1, "parse"@);
    lemma_second_entry(d1, "parse"@);
    let d2 = with_item(d1, "parse"@, ValueView::String("users"@));
    let a2 = ValueView::Array(seq![ValueView::String("everyone"@), ValueView::String("users"@)]);
    assert(a1->Array_0.push(ValueView::String("users"@)) =~= a2->Array_0);
    assert(d2 =~= seq![("replied_user"@, ValueView::Bool(ping)), ("parse"@, a2)]);
    lemma_second_entry(d2, "parse"@);
    let d3 = with_item(d2, "parse"@, ValueView::String("roles"@));
    let a3 = ValueView::Array(
        seq![
            ValueView::String("everyone"@),
            ValueView::String("users"@),
            ValueView::String("roles"@),
        ],
    );
    assert(a2->Array_0.push(ValueView::String("roles"@)) =~= a3->Array_0);
    assert(d3 =~= seq![("replied_user"@, ValueView::Bool(ping)), ("parse"@, a3)]);
}

/// The payload of a reply holds, in this order: that it is not read aloud;
/// for an inline reply the reference and the override; and the content.
pub proof fn lemma_reply_payload(
    reference: MessageReference,
    content: Seq<char>,
    inlined: Option<bool>,
)
    ensures
        reply_payload(reference, content, inlined) == match inlined {
            Some(ping) => seq![
                ("tts"@, ValueView::Bool(false)),
                ("message_reference"@, reference_document(reference)),
                ("allowed_mentions"@, ValueView::Object(reply_overrides(ping))),
                ("content"@, ValueView::String(content)),
            ],
            None => seq![("tts"@, ValueView::Bool(false)), ("content"@, ValueView::String(content))],
        },
{
    reveal_strlit("tts");
    reveal_strlit("message_reference");
    reveal_strlit("allowed_mentions");
    reveal_strlit("content");
    assert("tts"@[0] == 't' && "message_reference"@[0] == 'm' && "allowed_mentions"@[0] == 'a'
        && "content"@[0] == 'c');
    let d0 = new_message();
    match inlined {
        Some(ping) => {
            lemma_absent_key(d0, "message_reference"@);
            let d1 = with_entry(d0, "message_reference"@, reference_document(reference));
            assert(d1 =~= seq![
                ("tts"@, ValueView::Bool(false)),
                ("message_reference"@, reference_document(reference)),
            ]);
            lemma_absent_key(d1, "allowed_mentions"@);
            let d2 = with_entry(d1, "allowed_mentions"@, ValueView::Object(reply_overrides(ping)));
            assert(d2 =~= seq![
                ("tts"@, ValueView::Bool(false)),
                ("message_reference"@, reference_document(reference)),
                ("allowed_mentions"@, ValueView::Object(reply_overrides(ping))),
            ]);
            lemma_absent_key(d2, "content"@);
            assert(with_entry(d2, "content"@, ValueView::String(content)) =~= seq![
                ("tts"@, ValueView::Bool(false)),
                ("message_reference"@, reference_document(reference)),
                ("allowed_mentions"@, ValueView::Object(reply_overrides(ping))),
                ("content"@, ValueView::String(content)),
            ]);
        },
        None => {
            lemma_absent_key(d0, "content"@);
            assert(with_entry(d0, "content"@, ValueView::String(content)) =~= seq![
                ("tts"@, ValueView::Bool(false)),
                ("content"@, ValueView::String(content)),
            ]);
        },
    }
}

/// The payload of a reply is within the limits exactly when its content is:
/// it carries neither embeds nor stickers.
pub proof fn lemma_reply_lengths(
    reference: MessageReference,
    content: Seq<char>,
    inlined: Option<bool>,
)
    ensures
        lengths_check(reply_payload(reference, content, inlined)) == match overflow(content) {
            Some(excess) => Err::<(), ModelError>(ModelError::ContentTooLong(excess)),
            None => Ok::<(), ModelError>(()),
        },
{
    reveal_strlit("tts");
    reveal_strlit("message_reference");
    reveal_strlit("allowed_mentions");
    reveal_strlit("content");
    reveal_strlit("embeds");
    reveal_strlit("sticker_ids");
    assert("tts"@[0] == 't' && "message_reference"@[0] == 'm' && "allowed_mentions"@[0] == 'a'
        && "content"@[0] == 'c' && "embeds"@[0] == 'e' && "sticker_ids"@[0] == 's');
    lemma_reply_payload(reference, content, inlined);
    let payload = reply_payload(reference, content, inlined);
    lemma_absent_key(payload, "embeds"@);
    lemma_absent_key(payload, "sticker_ids"@);
    let base = match inlined {
        Some(ping) => with_entry(
            with_entry(new_message(), "message_reference"@, reference_document(reference)),
            "allowed_mentions"@,
            ValueView::Object(reply_overrides(ping)),
        ),
        None => new_message(),
    };
    lemma_with_entry_lookup(base, "content"@, ValueView::String(content), "content"@);
    assert(embed_check(payload) is Ok);
    assert(sticker_check(payload) is Ok);
    assert(content_check(payload) == match overflow(content) {
        Some(excess) => Err::<(), ModelError>(ModelError::ContentTooLong(excess)),
        None => Ok::<(), ModelError>(()),
    });
}

/// The documents that name the given attachments as kept, in order.
pub open spec fn kept_attachments(attachments: Seq<Attachment>) -> Seq<ValueView> {
    Seq::new(attachments.len(), |i: int| attachment_document(attachments[i].id))
}

/// In a document that named no attachments, the attachments named as kept
/// are all there, in order; none are named where there are none.
pub proof fn lemma_with_attachments(doc: MapView, attachments: Seq<Attachment>)
    requires
        lookup(doc, "attachments"@) is None,
    ensures
        lookup(with_attachments(doc, attachments), "attachments"@) == if attachments.len() == 0 {
            None
        } else {
            Some(ValueView::Array(kept_attachments(attachments)))
        },
    decreases attachments.len(),
{
    if attachments.len() > 0 {
        let before = attachments.drop_last();
        let prev = with_attachments(doc, before);
        let item = attachment_document(attachments.last().id);
        lemma_with_attachments(doc, before);
        if before.len() == 0 {
            lemma_with_entry_lookup(
                prev,
                "attachments"@,
                ValueView::Array(seq![item]),
                "attachments"@,
            );
            assert(seq![item] =~= kept_attachments(attachments));
        } else {
            let held = kept_attachments(before);
            lemma_with_entry_lookup(
                prev,
                "attachments"@,
                ValueView::Array(held.push(item)),
                "attachments"@,
            );
            assert(held.push(item) =~= kept_attachments(attachments));
        }
    }
}

/// Naming attachments as kept leaves what every other key leads to.
pub proof fn lemma_with_attachments_lookup(
    doc: MapView,
    attachments: Seq<Attachment>,
    other: Seq<char>,
)
    requires
        other != "attachments"@,
    ensures
        lookup(with_attachments(doc, attachments), other) == lookup(doc, other),
    decreases attachments.len(),
{
    if attachments.len() > 0 {
        lemma_with_attachments_lookup(doc, attachments.drop_last(), other);
        lemma_with_item_lookup(
            with_attachments(doc, attachments.drop_last()),
            "attachments"@,
            attachment_document(attachments.last().id),
            other,
        );
    }
}

/// In a document of two entries with different keys, the second key is
/// found at the second place.
proof fn lemma_second_entry(doc: MapView, key: Seq<char>)
    requires
        doc.len() == 2,
        doc[0].0 != key,
        doc[1].0 == key,
    ensures
        crate::json::position(doc, key) == Some(1int),
        crate::json::lookup(doc, key) == Some(doc[1].1),
{
    let rest = doc.skip(1);
    assert(rest[0] == doc[1]);
    assert(crate::json::position(rest, key) == Some(0int));
    assert(crate::json::lookup(rest, key) == Some(rest[0].1));
}

impl Message {
    /// The edit that changes nothing holds the content of the message where
    /// the message has content, and no content where it has none; it holds
    /// the embeds of the message; and it names the attachments of the
    /// message as kept.
    pub proof fn lemma_prepared_edit_keeps(&self)
        ensures
            lookup(self.prepared_edit(), "attachments"@) == if self.attachments@.len() == 0 {
                None
            } else {
                Some(ValueView::Array(kept_attachments(self.attachments@)))
            },
            lookup(self.prepared_edit(), "content"@) == if self.content@.len() > 0 {
                Some(ValueView::String(self.content@))
            } else {
                None
            },
            lookup(self.prepared_edit(), "embeds"@) == Some(
                ValueView::Array(rebuilt_embeds(self.embeds@)),
            ),
    {
        reveal_strlit("content");
        reveal_strlit("embeds");
        reveal_strlit("attachments");
        assert("content"@[0] == 'c' && "embeds"@[0] == 'e' && "attachments"@[0] == 'a');
        let value = ValueView::String(self.content@);
        let d0 = if self.content@.len() > 0 {
            with_entry(MapView::empty(), "content"@, value)
        } else {
            MapView::empty()
        };
        let embeds = ValueView::Array(rebuilt_embeds(self.embeds@));
        let d1 = with_entry(d0, "embeds"@, embeds);
        lemma_with_entry_lookup(MapView::empty(), "content"@, value, "content"@);
        lemma_with_entry_lookup(d0, "embeds"@, embeds, "content"@);
        lemma_with_entry_lookup(d0, "embeds"@, embeds, "embeds"@);
        lemma_with_attachments_lookup(d1, self.attachments@, "content"@);
        lemma_with_attachments_lookup(d1, self.attachments@, "embeds"@);
        lemma_absent_key(MapView::empty(), "attachments"@);
        lemma_with_entry_lookup(MapView::empty(), "content"@, value, "attachments"@);
        lemma_with_entry_lookup(d0, "embeds"@, embeds, "attachments"@);
        lemma_with_attachments(d1, self.attachments@);
    }

    /// A message that was crossposted is refused as such, whoever acts,
    /// whatever the cache holds and whatever kind the message is of.
    pub proof fn lemma_crossposted_is_refused(&self, cache: Option<&CacheSnapshot>)
        requires
            self.flag_bits().has(CROSSPOSTED),
        ensures
            self.crosspost_verdict(cache) == Err::<(), ModelError>(ModelError::AlreadyCrossposted),
    {
    }

    /// A message that is itself a crosspost, and was not crossposted, cannot
    /// be crossposted, whoever acts and whatever the cache holds.
    pub proof fn lemma_crosspost_is_refused(&self, cache: Option<&CacheSnapshot>)
        requires
            self.flag_bits().has(IS_CROSSPOST),
            !self.flag_bits().has(CROSSPOSTED),
        ensures
            self.crosspost_verdict(cache) == Err::<(), ModelError>(ModelError::CannotCrosspost),
    {
    }

    /// A message whose only flag marks it as a crosspost cannot be
    /// crossposted, whoever acts, whatever the cache holds and whatever kind
    /// the message is of: a regular one too.
    pub proof fn lemma_only_crosspost_flag(&self, cache: Option<&CacheSnapshot>)
        requires
            self.flags == Some(MessageFlags { bits: IS_CROSSPOST }),
        ensures
            self.crosspost_verdict(cache) == Err::<(), ModelError>(ModelError::CannotCrosspost),
    {
        assert(0x2u64 & 0x1u64 != 0x1u64) by (bit_vector);
        assert(0x2u64 & 0x2u64 == 0x2u64) by (bit_vector);
    }

    /// A message that is not a regular one, and was not crossposted, cannot
    /// be crossposted.
    pub proof fn lemma_system_message_is_refused(&self, cache: Option<&CacheSnapshot>)
        requires
            self.kind != MessageType::Regular,
            !self.flag_bits().has(CROSSPOSTED),
        ensures
            self.crosspost_verdict(cache) == Err::<(), ModelError>(ModelError::CannotCrosspost),
    {
    }

    /// The flags of the message; none where it carries no flags.
    pub open spec fn flag_bits(&self) -> MessageFlags {
        match self.flags {
            Some(flags) => flags,
            None => MessageFlags { bits: 0 },
        }
    }

    /// Whether the cache shows that someone other than the author acts.
    pub open spec fn acts_as_other(&self, cache: Option<&CacheSnapshot>) -> bool {
        match cache {
            Some(snapshot) => snapshot.current_user.id != self.author.id,
            None => false,
        }
    }

    /// The reference to this message.
    pub open spec fn reference(&self) -> MessageReference {
        MessageReference {
            message_id: Some(self.id),
            channel_id: self.channel_id,
            guild_id: self.guild_id,
        }
    }

    /// Whether the message may be crossposted, from its flags and its type
    /// alone.
    pub open spec fn crosspost_precheck(&self) -> Result<(), ModelError> {
        if self.flag_bits().has(CROSSPOSTED) {
            Err(ModelError::AlreadyCrossposted)
        } else if self.flag_bits().has(IS_CROSSPOST) || self.kind != MessageType::Regular {
            Err(ModelError::CannotCrosspost)
        } else {
            Ok(())
        }
    }

    /// Whether the message may be crossposted: the pre-check first; then the
    /// author may, and anyone else needs to manage messages.
    pub open spec fn crosspost_verdict(&self, cache: Option<&CacheSnapshot>) -> Result<
        (),
        ModelError,
    > {
        if self.crosspost_precheck() is Err {
            self.crosspost_precheck()
        } else if self.acts_as_other(cache) {
            authorized(cache, self.channel_id, self.guild_id, Permissions { bits: MANAGE_MESSAGES })
        } else {
            Ok(())
        }
    }

    /// Whether the message may be deleted: the author may; anyone else may
    /// not in a private channel, and needs to manage messages in a guild.
    pub open spec fn delete_verdict(&self, cache: Option<&CacheSnapshot>) -> Result<
        (),
        ModelError,
    > {
        if self.acts_as_other(cache) {
            if self.guild_id is None {
                Err(ModelError::NotAuthor)
            } else {
                authorized(
                    cache,
                    self.channel_id,
                    self.guild_id,
                    Permissions { bits: MANAGE_MESSAGES },
                )
            }
        } else {
            Ok(())
        }
    }

    /// Whether the current user may act on this message with the given
    /// permissions.
    pub open spec fn gate(&self, cache: Option<&CacheSnapshot>, required: u64) -> Result<
        (),
        ModelError,
    > {
        authorized(cache, self.channel_id, self.guild_id, Permissions { bits: required })
    }

    /// Whether the message may be edited with the given payload: only the
    /// author may, and the payload has to be within the limits.
    pub open spec fn edit_verdict(&self, cache: Option<&CacheSnapshot>, payload: MapView) -> Result<
        (),
        ModelError,
    > {
        if self.acts_as_other(cache) {
            Err(ModelError::InvalidUser)
        } else {
            lengths_check(payload)
        }
    }

    /// Whether the embeds of the message may be suppressed: the current user
    /// needs to manage messages, and to be the author.
    pub open spec fn suppress_embeds_verdict(&self, cache: Option<&CacheSnapshot>) -> Result<
        (),
        ModelError,
    > {
        if self.gate(cache, MANAGE_MESSAGES) is Err {
            self.gate(cache, MANAGE_MESSAGES)
        } else if self.acts_as_other(cache) {
            Err(ModelError::NotAuthor)
        } else {
            Ok(())
        }
    }

    /// Whether a reply with the given payload may be sent: the current user
    /// needs to send messages, and the payload has to be within the limits.
    pub open spec fn reply_verdict(&self, cache: Option<&CacheSnapshot>, payload: MapView) -> Result<
        (),
        ModelError,
    > {
        if self.gate(cache, SEND_MESSAGES) is Err {
            self.gate(cache, SEND_MESSAGES)
        } else {
            lengths_check(payload)
        }
    }

    /// The edit that changes nothing: the content of the message, unless it
    /// is empty; its embeds; and its attachments, named as kept.
    pub open spec fn prepared_edit(&self) -> MapView {
        let d0 = if self.content@.len() > 0 {
            with_entry(MapView::empty(), "content"@, ValueView::String(self.content@))
        } else {
            MapView::empty()
        };
        let d1 = with_entry(d0, "embeds"@, ValueView::Array(rebuilt_embeds(self.embeds@)));
        with_attachments(d1, self.attachments@)
    }

    /// The reaction that stands for a reaction of the current user to this
    /// message. The user is the acting identity where a cache tells it.
    pub open spec fn new_reaction(
        &self,
        cache: Option<&CacheSnapshot>,
        reaction: Reaction,
        emoji: ReactionType,
    ) -> bool {
        &&& reaction.channel_id == self.channel_id
        &&& reaction.emoji == emoji
        &&& reaction.message_id == self.id
        &&& reaction.user_id == match cache {
            Some(snapshot) => Some(snapshot.current_user.id),
            None => None,
        }
        &&& reaction.guild_id == self.guild_id
        &&& match self.member {
            Some(member) => reaction.member matches Some(copy) && copy.deaf == member.deaf
                && copy.mute == member.mute && copy.nick == member.nick && copy.roles@
                == member.roles@,
            None => reaction.member is None,
        }
    }

    /// Whether someone other than the author acts, as far as the cache shows.
    fn other_acts(&self, cache: Option<&CacheSnapshot>) -> (r: bool)
        ensures
            r == self.acts_as_other(cache),
    {
        match cache {
            Some(snapshot) => snapshot.current_user_id() != self.author.id,
            None => false,
        }
    }

    /// Crossposts this message.
    ///
    /// A message that was crossposted, that is itself a crosspost, or that is
    /// not a regular message is refused before anything else is looked at.
    /// Then the author may crosspost, and anyone else needs to manage
    /// messages in the channel. Returns the request to submit.
    pub fn crosspost(&self, cache: Option<&CacheSnapshot>) -> (r: Result<Request, ModelError>)
        ensures
            match r {
                Ok(request) => self.crosspost_verdict(cache) is Ok && request
                    == (Request::Crosspost { channel_id: self.channel_id, message_id: self.id }),
                Err(e) => self.crosspost_verdict(cache) == Err::<(), ModelError>(e),
            },
    {
        let flags = match self.flags {
            Some(flags) => flags,
            None => MessageFlags::empty(),
        };
        if flags.contains(MessageFlags::from_bits(CROSSPOSTED)) {
            return Err(ModelError::AlreadyCrossposted);
        } else if flags.contains(MessageFlags::from_bits(IS_CROSSPOST)) || self.kind
            != MessageType::Regular {
            return Err(ModelError::CannotCrosspost);
        }
        if self.other_acts(cache) {
            match authorize(
                cache,
                self.channel_id,
                self.guild_id,
                Permissions::from_bits(MANAGE_MESSAGES),
            ) {
                Err(e) => return Err(e),
                Ok(_) => {},
            }
        }
        Ok(Request::Crosspost { channel_id: self.channel_id, message_id: self.id })
    }

    /// Deletes the message.
    ///
    /// The author may delete it. Anyone else may not in a private channel,
    /// and needs to manage messages in a guild. Returns the request to
    /// submit.
    pub fn delete(&self, cache: Option<&CacheSnapshot>) -> (r: Result<Request, ModelError>)
        ensures
            match r {
                Ok(request) => self.delete_verdict(cache) is Ok && request
                    == (Request::DeleteMessage {
                    channel_id: self.channel_id,
                    message_id: self.id,
                }),
                Err(e) => self.delete_verdict(cache) == Err::<(), ModelError>(e),
            },
    {
        if self.other_acts(cache) {
            if self.is_private() {
                return Err(ModelError::NotAuthor);
            }
            match authorize(
                cache,
                self.channel_id,
                self.guild_id,
                Permissions::from_bits(MANAGE_MESSAGES),
            ) {
                Err(e) => return Err(e),
                Ok(_) => {},
            }
        }
        Ok(Request::DeleteMessage { channel_id: self.channel_id, message_id: self.id })
    }

    /// Deletes all of the reactions to the message. The current user needs to
    /// manage messages. Returns the request to submit.
    pub fn delete_reactions(&self, cache: Option<&CacheSnapshot>) -> (r: Result<
        Request,
        ModelError,
    >)
        ensures
            match r {
                Ok(request) => self.gate(cache, MANAGE_MESSAGES) is Ok && request
                    == (Request::DeleteReactions {
                    channel_id: self.channel_id,
                    message_id: self.id,
                }),
                Err(e) => self.gate(cache, MANAGE_MESSAGES) == Err::<(), ModelError>(e),
            },
    {
        match authorize(
            cache,
            self.channel_id,
            self.guild_id,
            Permissions::from_bits(MANAGE_MESSAGES),
        ) {
            Err(e) => return Err(e),
            Ok(_) => {},
        }
        Ok(Request::DeleteReactions { channel_id: self.channel_id, message_id: self.id })
    }

    /// Deletes all of the reactions of one emoji to the message. The current
    /// user needs to manage messages. Returns the request to submit.
    pub fn delete_reaction_emoji(
        &self,
        cache: Option<&CacheSnapshot>,
        reaction_type: ReactionType,
    ) -> (r: Result<Request, ModelError>)
        ensures
            match r {
                Ok(request) => self.gate(cache, MANAGE_MESSAGES) is Ok && request
                    == (Request::DeleteReactionEmoji {
                    channel_id: self.channel_id,
                    message_id: self.id,
                    reaction_type,
                }),
                Err(e) => self.gate(cache, MANAGE_MESSAGES) == Err::<(), ModelError>(e),
            },
    {
        match authorize(
            cache,
            self.channel_id,
            self.guild_id,
            Permissions::from_bits(MANAGE_MESSAGES),
        ) {
            Err(e) => return Err(e),
            Ok(_) => {},
        }
        Ok(
            Request::DeleteReactionEmoji {
                channel_id: self.channel_id,
                message_id: self.id,
                reaction_type,
            },
        )
    }

    /// Pins this message to its channel. The current user needs to manage
    /// messages. Returns the request to submit.
    pub fn pin(&self, cache: Option<&CacheSnapshot>) -> (r: Result<Request, ModelError>)
        ensures
            match r {
                Ok(request) => self.gate(cache, MANAGE_MESSAGES) is Ok && request == (Request::Pin {
                    channel_id: self.channel_id,
                    message_id: self.id,
                }),
                Err(e) => self.gate(cache, MANAGE_MESSAGES) == Err::<(), ModelError>(e),
            },
    {
        match authorize(
            cache,
            self.channel_id,
            self.guild_id,
            Permissions::from_bits(MANAGE_MESSAGES),
        ) {
            Err(e) => return Err(e),
            Ok(_) => {},
        }
        Ok(Request::Pin { channel_id: self.channel_id, message_id: self.id })
    }

    /// Unpins the message from its channel. The current user needs to manage
    /// messages. Returns the request to submit.
    pub fn unpin(&self, cache: Option<&CacheSnapshot>) -> (r: Result<Request, ModelError>)
        ensures
            match r {
                Ok(request) => self.gate(cache, MANAGE_MESSAGES) is Ok && request
                    == (Request::Unpin { channel_id: self.channel_id, message_id: self.id }),
                Err(e) => self.gate(cache, MANAGE_MESSAGES) == Err::<(), ModelError>(e),
            },
    {
        match authorize(
            cache,
            self.channel_id,
            self.guild_id,
            Permissions::from_bits(MANAGE_MESSAGES),
        ) {
            Err(e) => return Err(e),
            Ok(_) => {},
        }
        Ok(Request::Unpin { channel_id: self.channel_id, message_id: self.id })
    }

    /// The builder of an edit that keeps what the message holds: its content,
    /// unless that is empty, its embeds and its attachments.
    pub fn _prepare_edit_builder(&self) -> (r: EditMessage)
        ensures
            r.map@ == self.prepared_edit(),
    {
        let mut builder = EditMessage::new();
        if !self.content.as_str().is_empty() {
            builder.content(self.content.clone());
        }
        let mut embeds: Vec<CreateEmbed> = Vec::new();
        let mut i: usize = 0;
        while i < self.embeds.len()
            invariant
                i <= self.embeds@.len(),
                embeds@.len() == i,
                forall|j: int|
                    0 <= j < i ==> (#[trigger] embeds@[j]).map@ == embed_document(self.embeds@[j]),
            decreases self.embeds@.len() - i,
        {
            embeds.push(CreateEmbed::from_embed(&self.embeds[i]));
            i += 1;
        }
        assert(crate::builder::embed_documents(embeds@) =~= rebuilt_embeds(self.embeds@));
        builder.set_embeds(embeds);
        let ghost before = builder.map@;
        let mut k: usize = 0;
        while k < self.attachments.len()
            invariant
                k <= self.attachments@.len(),
                builder.map@ == with_attachments(before, self.attachments@.take(k as int)),
            decreases self.attachments@.len() - k,
        {
            proof {
                let next = self.attachments@.take(k + 1);
                assert(next.drop_last() == self.attachments@.take(k as int));
                assert(next.last() == self.attachments@[k as int]);
            }
            builder.add_existing_attachment(self.attachments[k].id);
            k += 1;
        }
        assert(self.attachments@.take(k as int) == self.attachments@);
        builder
    }

    /// The request that submits an edit of this message.
    pub fn _send_edit(&self, builder: EditMessage) -> (r: Request)
        ensures
            r.edits(self.channel_id, self.id, builder.map@),
    {
        Request::EditMessage {
            channel_id: self.channel_id,
            message_id: self.id,
            payload: builder.build(),
        }
    }

    /// Whether the current user may edit this message at all: only the
    /// author may. To ask before a builder is filled.
    pub fn authorize_edit(&self, cache: Option<&CacheSnapshot>) -> (r: Result<(), ModelError>)
        ensures
            r == if self.acts_as_other(cache) {
                Err::<(), ModelError>(ModelError::InvalidUser)
            } else {
                Ok::<(), ModelError>(())
            },
    {
        if self.other_acts(cache) {
            Err(ModelError::InvalidUser)
        } else {
            Ok(())
        }
    }

    /// Edits this message with what the builder holds.
    ///
    /// Start from [`Message::_prepare_edit_builder`] to keep what is not
    /// changed. Only the author may edit, and the payload has to be within
    /// the limits. Returns the request to submit; commit its answer with
    /// [`Message::commit`].
    pub fn edit(&self, cache: Option<&CacheSnapshot>, builder: EditMessage) -> (r: Result<
        Request,
        ModelError,
    >)
        ensures
            match r {
                Ok(request) => self.edit_verdict(cache, builder.map@) is Ok && request.edits(
                    self.channel_id,
                    self.id,
                    builder.map@,
                ),
                Err(e) => self.edit_verdict(cache, builder.map@) == Err::<(), ModelError>(e),
            },
    {
        match self.authorize_edit(cache) {
            Err(e) => return Err(e),
            Ok(_) => {},
        }
        match Message::check_lengths(&builder.map) {
            Err(e) => return Err(e),
            Ok(_) => {},
        }
        Ok(self._send_edit(builder))
    }

    /// Suppresses the embeds of this message. The current user needs to
    /// manage messages and to be the author. Returns the request to submit;
    /// commit its answer with [`Message::commit`].
    pub fn suppress_embeds(&self, cache: Option<&CacheSnapshot>) -> (r: Result<
        Request,
        ModelError,
    >)
        ensures
            match r {
                Ok(request) => self.suppress_embeds_verdict(cache) is Ok && request.edits(
                    self.channel_id,
                    self.id,
                    suppress_payload(),
                ),
                Err(e) => self.suppress_embeds_verdict(cache) == Err::<(), ModelError>(e),
            },
    {
        match authorize(
            cache,
            self.channel_id,
            self.guild_id,
            Permissions::from_bits(MANAGE_MESSAGES),
        ) {
            Err(e) => return Err(e),
            Ok(_) => {},
        }
        if self.other_acts(cache) {
            return Err(ModelError::NotAuthor);
        }
        let mut suppress = EditMessage::new();
        suppress.suppress_embeds(true);
        proof {
            assert(crate::builder::flags_of(MapView::empty()) == 0);
            assert(0u64 | SUPPRESS_EMBEDS == SUPPRESS_EMBEDS) by (bit_vector);
        }
        Ok(self._send_edit(suppress))
    }

    /// Reacts to the message with an emoji. The current user needs to add
    /// reactions. Returns the request to submit and the reaction that stands
    /// for it once the request went through.
    pub fn react(&self, cache: Option<&CacheSnapshot>, reaction_type: ReactionType) -> (r: Result<
        (Request, Reaction),
        ModelError,
    >)
        ensures
            match r {
                Ok((request, reaction)) => self.gate(cache, ADD_REACTIONS) is Ok && request
                    == (Request::CreateReaction {
                    channel_id: self.channel_id,
                    message_id: self.id,
                    reaction_type,
                }) && self.new_reaction(cache, reaction, reaction_type),
                Err(e) => self.gate(cache, ADD_REACTIONS) == Err::<(), ModelError>(e),
            },
    {
        self._react(cache, reaction_type)
    }

    /// Reacts to the message with an emoji: see [`Message::react`].
    pub fn _react(&self, cache: Option<&CacheSnapshot>, reaction_type: ReactionType) -> (r: Result<
        (Request, Reaction),
        ModelError,
    >)
        ensures
            match r {
                Ok((request, reaction)) => self.gate(cache, ADD_REACTIONS) is Ok && request
                    == (Request::CreateReaction {
                    channel_id: self.channel_id,
                    message_id: self.id,
                    reaction_type,
                }) && self.new_reaction(cache, reaction, reaction_type),
                Err(e) => self.gate(cache, ADD_REACTIONS) == Err::<(), ModelError>(e),
            },
    {
        match authorize(
            cache,
            self.channel_id,
            self.guild_id,
            Permissions::from_bits(ADD_REACTIONS),
        ) {
            Err(e) => return Err(e),
            Ok(_) => {},
        }
        let user_id = match cache {
            Some(snapshot) => Some(snapshot.current_user_id()),
            None => None,
        };
        let member = match &self.member {
            Some(member) => Some(member.clone()),
            None => None,
        };
        let reaction = Reaction {
            channel_id: self.channel_id,
            emoji: reaction_type.clone(),
            message_id: self.id,
            user_id,
            guild_id: self.guild_id,
            member,
        };
        let request = Request::CreateReaction {
            channel_id: self.channel_id,
            message_id: self.id,
            reaction_type,
        };
        Ok((request, reaction))
    }

    /// Replies to the message inline, without notifying its author. The
    /// current user needs to send messages, and the content has to be within
    /// the limit. Returns the request to submit.
    pub fn reply(&self, cache: Option<&CacheSnapshot>, content: &str) -> (r: Result<
        Request,
        ModelError,
    >)
        ensures
            self.replied(cache, content@, Some(false), r),
    {
        self._reply(cache, content, Some(false))
    }

    /// Replies to the message inline and notifies its author. The current
    /// user needs to send messages, and the content has to be within the
    /// limit. Returns the request to submit.
    pub fn reply_ping(&self, cache: Option<&CacheSnapshot>, content: &str) -> (r: Result<
        Request,
        ModelError,
    >)
        ensures
            self.replied(cache, content@, Some(true), r),
    {
        self._reply(cache, content, Some(true))
    }

    /// Replies to the message by mentioning its author before the content:
    /// the mention, a space, and the content. The current user needs to send
    /// messages, and the whole has to be within the limit. Returns the
    /// request to submit.
    pub fn reply_mention(&self, cache: Option<&CacheSnapshot>, content: &str) -> (r: Result<
        Request,
        ModelError,
    >)
        ensures
            self.replied(cache, user_mention(self.author.id) + seq![' '] + content@, None, r),
    {
        let mut text = self.author.id.mention_chars();
        text.push(' ');
        append(&mut text, &to_chars(content));
        assert(text@ == user_mention(self.author.id) + seq![' '] + content@);
        let text = from_chars(&text);
        self._reply(cache, text.as_str(), None)
    }

    /// What a reply comes to: the request that sends the payload of the
    /// reply to the channel of the message, or the failure of the permissions or of
    /// the limits.
    pub open spec fn replied(
        &self,
        cache: Option<&CacheSnapshot>,
        content: Seq<char>,
        inlined: Option<bool>,
        r: Result<Request, ModelError>,
    ) -> bool {
        let expected = reply_payload(self.reference(), content, inlined);
        match r {
            Ok(request) => self.reply_verdict(cache, expected) is Ok && request.sends(
                self.channel_id,
                expected,
            ),
            Err(e) => self.reply_verdict(cache, expected) == Err::<(), ModelError>(e),
        }
    }

    /// Replies to the message. `inlined` tells whether the reply is inline,
    /// and if so whether it notifies the author of the message.
    pub fn _reply(&self, cache: Option<&CacheSnapshot>, content: &str, inlined: Option<bool>) -> (r:
        Result<Request, ModelError>)
        ensures
            self.replied(cache, content@, inlined, r),
    {
        match authorize(
            cache,
            self.channel_id,
            self.guild_id,
            Permissions::from_bits(SEND_MESSAGES),
        ) {
            Err(e) => return Err(e),
            Ok(_) => {},
        }
        let mut builder = CreateMessage::new();
        if let Some(ping_user) = inlined {
            let mut allowed = CreateAllowedMentions::new();
            allowed.replied_user(ping_user);
            allowed.parse(ParseValue::Everyone);
            allowed.parse(ParseValue::Users);
            allowed.parse(ParseValue::Roles);
            let reference = MessageReference {
                message_id: Some(self.id),
                channel_id: self.channel_id,
                guild_id: self.guild_id,
            };
            builder.reference_message(reference);
            builder.allowed_mentions(allowed);
        }
        builder.content(String::from_str(content));
        let payload = builder.build();
        match Message::check_lengths(&payload) {
            Err(e) => return Err(e),
            Ok(_) => {},
        }
        Ok(Request::SendMessage { channel_id: self.channel_id, payload })
    }

    /// Replaces this message by what the remote service answered.
    pub fn commit(&mut self, response: Message)
        ensures
            *final(self) == response,
    {
        *self = response;
    }
}

} // verus!
