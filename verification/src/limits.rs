//! The limits that the platform puts on an outbound message, checked on the
//! payload document before it is sent.

use vstd::prelude::*;
use vstd::utf8::encode_utf8;
use crate::error::ModelError;
use crate::json::{
    lemma_views, lookup, member, opt_view, views, JsonMap, MapView, Value, ValueView,
};
use crate::message::Message;

verus! {

/// The most Unicode scalar values that the content of a message may hold.
pub const MESSAGE_CODE_LIMIT: usize = 2000;

/// The most embeds that a message may carry.
pub const EMBED_MAX_COUNT: usize = 10;

/// The most bytes of text that one embed may hold.
pub const EMBED_MAX_LENGTH: usize = 6000;

/// The most stickers that a message may carry.
pub const STICKER_MAX_COUNT: usize = 3;

/// By how many Unicode scalar values `content` is over the limit, if it is.
pub open spec fn overflow(content: Seq<char>) -> Option<usize> {
    if content.len() > MESSAGE_CODE_LIMIT {
        Some((content.len() - MESSAGE_CODE_LIMIT) as usize)
    } else {
        None
    }
}

/// The verdict on the `content` entry of a payload.
pub open spec fn content_check(doc: MapView) -> Result<(), ModelError> {
    match lookup(doc, "content"@) {
        Some(ValueView::String(text)) => match overflow(text) {
            Some(excess) => Err(ModelError::ContentTooLong(excess)),
            None => Ok(()),
        },
        _ => Ok(()),
    }
}

/// The length of a text in bytes of UTF-8; 0 for anything but a text.
pub open spec fn text_len(v: Option<ValueView>) -> nat {
    match v {
        Some(ValueView::String(text)) => encode_utf8(text).len(),
        _ => 0,
    }
}

/// The text that one field of an embed holds: its name and its value.
pub open spec fn field_text_len(field: ValueView) -> nat {
    text_len(member(field, "name"@)) + text_len(member(field, "value"@))
}

/// The text that the fields of an embed hold together.
pub open spec fn fields_text_len(fields: Seq<ValueView>) -> nat
    decreases fields.len(),
{
    if fields.len() == 0 {
        0
    } else {
        fields_text_len(fields.drop_last()) + field_text_len(fields.last())
    }
}

/// The text of the member `inner` of the member `outer` of an embed.
pub open spec fn nested_text_len(embed: ValueView, outer: Seq<char>, inner: Seq<char>) -> nat {
    match member(embed, outer) {
        Some(part) => text_len(member(part, inner)),
        None => 0,
    }
}

/// The text that an embed holds: the name of its author, its description,
/// the names and values of its fields, the text of its footer, and its title.
pub open spec fn embed_text_len(embed: ValueView) -> nat {
    nested_text_len(embed, "author"@, "name"@) + text_len(member(embed, "description"@)) + (
    match member(embed, "fields"@) {
        Some(ValueView::Array(fields)) => fields_text_len(fields),
        _ => 0,
    }) + nested_text_len(embed, "footer"@, "text"@) + text_len(member(embed, "title"@))
}

/// The text length of the first embed that holds more text than one may.
pub open spec fn first_too_large(embeds: Seq<ValueView>) -> Option<nat>
    decreases embeds.len(),
{
    if embeds.len() == 0 {
        None
    } else if embed_text_len(embeds[0]) > EMBED_MAX_LENGTH {
        Some(embed_text_len(embeds[0]))
    } else {
        first_too_large(embeds.skip(1))
    }
}

/// A length as the machine counts it: lengths beyond `usize::MAX` count as
/// `usize::MAX`.
pub open spec fn capped(n: nat) -> usize {
    if n > usize::MAX {
        usize::MAX
    } else {
        n as usize
    }
}

/// The excess that is reported for an embed with `len` bytes of text.
pub open spec fn embed_excess(len: nat) -> usize {
    (capped(len) - EMBED_MAX_LENGTH) as usize
}

/// The verdict on the `embeds` entry of a payload.
pub open spec fn embed_check(doc: MapView) -> Result<(), ModelError> {
    match lookup(doc, "embeds"@) {
        Some(ValueView::Array(embeds)) => if embeds.len() > EMBED_MAX_COUNT {
            Err(ModelError::TooManyEmbeds)
        } else {
            match first_too_large(embeds) {
                Some(len) => Err(ModelError::EmbedTooLarge(embed_excess(len))),
                None => Ok(()),
            }
        },
        _ => Ok(()),
    }
}

/// The verdict on the `sticker_ids` entry of a payload.
pub open spec fn sticker_check(doc: MapView) -> Result<(), ModelError> {
    match lookup(doc, "sticker_ids"@) {
        Some(ValueView::Array(ids)) => if ids.len() > STICKER_MAX_COUNT {
            Err(ModelError::TooManyStickers)
        } else {
            Ok(())
        },
        _ => Ok(()),
    }
}

/// The verdict on a payload: that of its content, else that of its embeds,
/// else that of its stickers.
pub open spec fn lengths_check(doc: MapView) -> Result<(), ModelError> {
    if content_check(doc) is Err {
        content_check(doc)
    } else if embed_check(doc) is Err {
        embed_check(doc)
    } else {
        sticker_check(doc)
    }
}

/// A payload with a list of embeds is refused for their number exactly when
/// the list holds more than ten, whatever the embeds hold.
pub proof fn lemma_too_many_embeds(doc: MapView, embeds: Seq<ValueView>)
    requires
        lookup(doc, "embeds"@) == Some(ValueView::Array(embeds)),
    ensures
        embed_check(doc) == Err::<(), ModelError>(ModelError::TooManyEmbeds) <==> embeds.len()
            > 10,
{
}

/// The first embed that is too large is the one reported: none before it
/// is too large. Where nothing is reported, no embed is too large.
pub proof fn lemma_first_too_large(embeds: Seq<ValueView>)
    ensures
        match first_too_large(embeds) {
            Some(len) => exists|i: int|
                0 <= i < embeds.len() && len == embed_text_len(#[trigger] embeds[i]) && len
                    > 6000 && forall|j: int|
                    0 <= j < i ==> embed_text_len(#[trigger] embeds[j]) <= 6000,
            None => forall|i: int|
                0 <= i < embeds.len() ==> embed_text_len(#[trigger] embeds[i]) <= 6000,
        },
    decreases embeds.len(),
{
    if embeds.len() > 0 {
        if embed_text_len(embeds[0]) > EMBED_MAX_LENGTH {
            assert(embed_text_len(embeds[0]) > 6000);
        } else {
            let rest = embeds.skip(1);
            lemma_first_too_large(rest);
            match first_too_large(rest) {
                Some(len) => {
                    let i = choose|i: int|
                        0 <= i < rest.len() && len == embed_text_len(#[trigger] rest[i]) && len
                            > 6000 && forall|j: int|
                            0 <= j < i ==> embed_text_len(#[trigger] rest[j]) <= 6000;
                    assert(rest[i] == embeds[i + 1]);
                    assert forall|j: int| 0 <= j < i + 1 implies embed_text_len(
                        #[trigger] embeds[j],
                    ) <= 6000 by {
                        if j > 0 {
                            assert(embeds[j] == rest[j - 1]);
                        }
                    }
                },
                None => {
                    assert forall|i: int| 0 <= i < embeds.len() implies embed_text_len(
                        #[trigger] embeds[i],
                    ) <= 6000 by {
                        if i > 0 {
                            assert(embeds[i] == rest[i - 1]);
                        }
                    }
                },
            }
        }
    }
}

/// A payload with a single embed is refused for the size of the embed
/// exactly when the embed holds more than 6000 bytes of text, and the excess
/// reported is what it holds beyond 6000.
pub proof fn lemma_single_embed(doc: MapView, embed: ValueView)
    requires
        lookup(doc, "embeds"@) == Some(ValueView::Array(seq![embed])),
        embed_text_len(embed) <= usize::MAX,
    ensures
        embed_text_len(embed) <= 6000 ==> embed_check(doc) == Ok::<(), ModelError>(()),
        embed_text_len(embed) > 6000 ==> embed_check(doc) == Err::<(), ModelError>(
            ModelError::EmbedTooLarge((embed_text_len(embed) - 6000) as usize),
        ),
        forall|excess: usize|
            embed_check(doc) == Err::<(), ModelError>(ModelError::EmbedTooLarge(excess))
                ==> embed_text_len(embed) > 6000 && excess == embed_text_len(embed) - 6000,
{
    let embeds = seq![embed];
    assert(embeds.skip(1).len() == 0);
    assert(first_too_large(embeds.skip(1)) is None);
}

/// A failure of the content comes before any other, and one of the embeds
/// before one of the stickers.
pub proof fn lemma_check_order(doc: MapView)
    ensures
        content_check(doc) is Err ==> lengths_check(doc) == content_check(doc),
        content_check(doc) is Ok && embed_check(doc) is Err ==> lengths_check(doc) == embed_check(
            doc,
        ),
        lengths_check(doc) is Ok <==> content_check(doc) is Ok && embed_check(doc) is Ok
            && sticker_check(doc) is Ok,
{
}

/// The length in bytes of a text value, counted as the machine counts.
fn text_length(v: Option<&Value>) -> (r: usize)
    ensures
        r == capped(text_len(opt_view(v))),
{
    match v {
        Some(value) => match value.as_str() {
            Some(text) => text.as_bytes().len(),
            None => 0,
        },
        None => 0,
    }
}

/// The length in bytes of the text member `inner` of the member `outer`.
fn nested_text_length(embed: &Value, outer: &str, inner: &str) -> (r: usize)
    ensures
        r == capped(nested_text_len(embed@, outer@, inner@)),
{
    match embed.get(outer) {
        Some(part) => text_length(part.get(inner)),
        None => 0,
    }
}

/// The text of the fields of an embed, counted as the machine counts.
fn fields_text_length(fields: &Vec<Value>) -> (r: usize)
    ensures
        r == capped(fields_text_len(views(fields@))),
{
    let ghost all = views(fields@);
    proof {
        lemma_views(fields@);
    }
    let mut total: usize = 0;
    let mut i: usize = 0;
    while i < fields.len()
        invariant
            i <= fields@.len(),
            all.len() == fields@.len(),
            forall|j: int| 0 <= j < all.len() ==> (#[trigger] all[j]) == fields@[j]@,
            total == capped(fields_text_len(all.take(i as int))),
        decreases fields@.len() - i,
    {
        let field = &fields[i];
        let name = text_length(field.get("name"));
        let value = text_length(field.get("value"));
        proof {
            let next = all.take(i + 1);
            assert(next.drop_last() == all.take(i as int));
            assert(next.last() == field@);
        }
        total = total.saturating_add(name).saturating_add(value);
        i += 1;
    }
    assert(all.take(i as int) == all);
    total
}

impl Message {
    /// Checks the length of a text against the limit on message content.
    ///
    /// Returns `None` if the text is within the limit, else how many Unicode
    /// scalar values it is over.
    pub fn overflow_length(content: &str) -> (r: Option<usize>)
        ensures
            r == overflow(content@),
            r is None <==> content@.len() <= 2000,
            r matches Some(excess) ==> excess == content@.len() - 2000,
    {
        let count = content.unicode_len();
        if count > MESSAGE_CODE_LIMIT {
            Some(count - MESSAGE_CODE_LIMIT)
        } else {
            None
        }
    }

    /// Checks a payload against every limit: its content first, then its
    /// embeds, then its stickers. The first failure is the one returned.
    pub fn check_lengths(map: &JsonMap) -> (r: Result<(), ModelError>)
        ensures
            r == lengths_check(map@),
    {
        match Self::check_content_length(map) {
            Err(e) => return Err(e),
            Ok(_) => {},
        }
        match Self::check_embed_length(map) {
            Err(e) => return Err(e),
            Ok(_) => {},
        }
        Self::check_sticker_ids_length(map)
    }

    /// Checks the `content` entry of a payload, if it is a text, against the
    /// limit on Unicode scalar values.
    pub fn check_content_length(map: &JsonMap) -> (r: Result<(), ModelError>)
        ensures
            r == content_check(map@),
    {
        if let Some(value) = map.get("content") {
            if let Some(content) = value.as_str() {
                if let Some(length_over) = Message::overflow_length(content) {
                    return Err(ModelError::ContentTooLong(length_over));
                }
            }
        }
        Ok(())
    }

    /// Checks the `embeds` entry of a payload, if it is a list: there may be
    /// at most ten embeds, and none may hold more than 6000 bytes of text.
    /// Of several embeds that are too large, the first is reported.
    pub fn check_embed_length(map: &JsonMap) -> (r: Result<(), ModelError>)
        ensures
            r == embed_check(map@),
    {
        let embeds = match map.get("embeds") {
            Some(value) => match value.as_array() {
                Some(items) => items,
                None => return Ok(()),
            },
            None => return Ok(()),
        };
        let ghost all = views(embeds@);
        proof {
            lemma_views(embeds@);
        }
        if embeds.len() > EMBED_MAX_COUNT {
            return Err(ModelError::TooManyEmbeds);
        }
        assert(all.skip(0) == all);
        let mut i: usize = 0;
        while i < embeds.len()
            invariant
                i <= embeds@.len(),
                all.len() == embeds@.len(),
                all.len() <= EMBED_MAX_COUNT,
                lookup(map@, "embeds"@) == Some(ValueView::Array(all)),
                forall|j: int| 0 <= j < all.len() ==> (#[trigger] all[j]) == embeds@[j]@,
                first_too_large(all) == first_too_large(all.skip(i as int)),
            decreases embeds@.len() - i,
        {
            let embed = &embeds[i];
            assert(all.skip(i as int)[0] == embed@);
            assert(all.skip(i as int).skip(1) == all.skip(i + 1));
            let mut total: usize = nested_text_length(embed, "author", "name");
            total = total.saturating_add(text_length(embed.get("description")));
            if let Some(value) = embed.get("fields") {
                if let Some(fields) = value.as_array() {
                    total = total.saturating_add(fields_text_length(fields));
                }
            }
            total = total.saturating_add(nested_text_length(embed, "footer", "text"));
            total = total.saturating_add(text_length(embed.get("title")));
            assert(total == capped(embed_text_len(embed@)));
            if total > EMBED_MAX_LENGTH {
                assert(first_too_large(all.skip(i as int)) == Some(embed_text_len(embed@)));
                let overflow = total - EMBED_MAX_LENGTH;
                return Err(ModelError::EmbedTooLarge(overflow));
            }
            i += 1;
        }
        Ok(())
    }

    /// Checks the `sticker_ids` entry of a payload, if it is a list, against
    /// the limit on stickers.
    pub fn check_sticker_ids_length(map: &JsonMap) -> (r: Result<(), ModelError>)
        ensures
            r == sticker_check(map@),
    {
        if let Some(value) = map.get("sticker_ids") {
            if let Some(sticker_ids) = value.as_array() {
                proof {
                    lemma_views(sticker_ids@);
                }
                if sticker_ids.len() > STICKER_MAX_COUNT {
                    return Err(ModelError::TooManyStickers);
                }
            }
        }
        Ok(())
    }
}

} // verus!
