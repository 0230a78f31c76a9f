//! Builders of payload documents. Each is a document under construction: a
//! setter puts one entry into it, and `build` hands the document over.

use vstd::prelude::*;
use crate::embed::{Embed, EmbedAuthor, EmbedField, EmbedFooter};
use crate::id::AttachmentId;
use crate::json::{
    lemma_absent_key, lookup, with_entry, with_item, JsonMap, MapView, Value, ValueView,
};
use crate::message::MessageReference;
use crate::permissions::SUPPRESS_EMBEDS;

verus! {

/// `doc` with the text under `key`, where there is a text.
pub open spec fn with_opt_text(doc: MapView, key: Seq<char>, text: Option<String>) -> MapView {
    match text {
        Some(t) => with_entry(doc, key, ValueView::String(t@)),
        None => doc,
    }
}

/// Puts a copy of the text under `key`, where there is a text.
fn set_opt_text(map: &mut JsonMap, key: &str, text: &Option<String>)
    ensures
        final(map)@ == with_opt_text(old(map)@, key@, *text),
{
    if let Some(t) = text {
        map.set(key, Value::String(t.clone()));
    }
}

/// The author of an embed under construction.
#[derive(Clone, Debug, PartialEq)]
pub struct CreateEmbedAuthor {
    pub map: JsonMap,
}

impl CreateEmbedAuthor {
    /// An author with nothing set.
    pub fn new() -> (r: Self)
        ensures
            r.map@ == MapView::empty(),
    {
        CreateEmbedAuthor { map: JsonMap::new() }
    }

    /// Sets the name of the author.
    pub fn name(&mut self, name: String)
        ensures
            final(self).map@ == with_entry(old(self).map@, "name"@, ValueView::String(name@)),
    {
        self.map.set("name", Value::String(name));
    }

    /// Sets the URL of the author's icon.
    pub fn icon_url(&mut self, icon_url: String)
        ensures
            final(self).map@ == with_entry(
                old(self).map@,
                "icon_url"@,
                ValueView::String(icon_url@),
            ),
    {
        self.map.set("icon_url", Value::String(icon_url));
    }

    /// Sets the URL of the author.
    pub fn url(&mut self, url: String)
        ensures
            final(self).map@ == with_entry(old(self).map@, "url"@, ValueView::String(url@)),
    {
        self.map.set("url", Value::String(url));
    }
}

/// The footer of an embed under construction.
#[derive(Clone, Debug, PartialEq)]
pub struct CreateEmbedFooter {
    pub map: JsonMap,
}

impl CreateEmbedFooter {
    /// A footer with nothing set.
    pub fn new() -> (r: Self)
        ensures
            r.map@ == MapView::empty(),
    {
        CreateEmbedFooter { map: JsonMap::new() }
    }

    /// Sets the text of the footer.
    pub fn text(&mut self, text: String)
        ensures
            final(self).map@ == with_entry(old(self).map@, "text"@, ValueView::String(text@)),
    {
        self.map.set("text", Value::String(text));
    }

    /// Sets the URL of the footer's icon.
    pub fn icon_url(&mut self, icon_url: String)
        ensures
            final(self).map@ == with_entry(
                old(self).map@,
                "icon_url"@,
                ValueView::String(icon_url@),
            ),
    {
        self.map.set("icon_url", Value::String(icon_url));
    }
}

/// The document of one field of an embed.
pub open spec fn field_document(name: Seq<char>, value: Seq<char>, inline: bool) -> ValueView {
    ValueView::Object(
        seq![
            ("inline"@, ValueView::Bool(inline)),
            ("name"@, ValueView::String(name)),
            ("value"@, ValueView::String(value)),
        ],
    )
}

/// The document that refers to a picture by its URL.
pub open spec fn url_document(url: Seq<char>) -> ValueView {
    ValueView::Object(seq![("url"@, ValueView::String(url))])
}

/// The document of a new embed: its type is "rich".
pub open spec fn new_embed() -> MapView {
    seq![("type"@, ValueView::String("rich"@))]
}

/// An embed under construction.
#[derive(Clone, Debug, PartialEq)]
pub struct CreateEmbed {
    pub map: JsonMap,
}

impl CreateEmbed {
    /// An embed of the type "rich", with nothing else set.
    pub fn new() -> (r: Self)
        ensures
            r.map@ == new_embed(),
    {
        let mut map = JsonMap::new();
        map.set("type", Value::String(String::from_str("rich")));
        proof {
            assert(map@ =~= new_embed());
        }
        CreateEmbed { map }
    }

    /// Sets the author of the embed.
    pub fn author(&mut self, author: CreateEmbedAuthor)
        ensures
            final(self).map@ == with_entry(
                old(self).map@,
                "author"@,
                ValueView::Object(author.map@),
            ),
    {
        self.map.set("author", Value::Object(author.map));
    }

    /// Sets the colour of the embed.
    pub fn colour(&mut self, colour: u32)
        ensures
            final(self).map@ == with_entry(
                old(self).map@,
                "color"@,
                ValueView::Number(colour as u64),
            ),
    {
        self.map.set("color", Value::Number(colour as u64));
    }

    /// Sets the description of the embed.
    pub fn description(&mut self, description: String)
        ensures
            final(self).map@ == with_entry(
                old(self).map@,
                "description"@,
                ValueView::String(description@),
            ),
    {
        self.map.set("description", Value::String(description));
    }

    /// Adds a field to the embed, after the fields that it has.
    pub fn field(&mut self, name: String, value: String, inline: bool)
        ensures
            final(self).map@ == with_item(
                old(self).map@,
                "fields"@,
                field_document(name@, value@, inline),
            ),
    {
        let mut field = JsonMap::new();
        field.set("inline", Value::Bool(inline));
        field.set("name", Value::String(name));
        field.set("value", Value::String(value));
        proof {
            reveal_strlit("inline");
            reveal_strlit("name");
            reveal_strlit("value");
            assert("inline"@[0] != "name"@[0]);
            assert("inline"@[0] != "value"@[0]);
            assert("name"@[0] != "value"@[0]);
            lemma_three_keys(
                "inline"@,
                ValueView::Bool(inline),
                "name"@,
                ValueView::String(name@),
                "value"@,
                ValueView::String(value@),
            );
        }
        self.map.append_item("fields", Value::Object(field));
    }

    /// Sets the footer of the embed.
    pub fn footer(&mut self, footer: CreateEmbedFooter)
        ensures
            final(self).map@ == with_entry(
                old(self).map@,
                "footer"@,
                ValueView::Object(footer.map@),
            ),
    {
        self.map.set("footer", Value::Object(footer.map));
    }

    /// Sets the image of the embed by its URL.
    pub fn image(&mut self, url: String)
        ensures
            final(self).map@ == with_entry(old(self).map@, "image"@, url_document(url@)),
    {
        let mut image = JsonMap::new();
        image.set("url", Value::String(url));
        proof {
            assert(image@ =~= seq![("url"@, ValueView::String(url@))]);
        }
        self.map.set("image", Value::Object(image));
    }

    /// Sets the thumbnail of the embed by its URL.
    pub fn thumbnail(&mut self, url: String)
        ensures
            final(self).map@ == with_entry(old(self).map@, "thumbnail"@, url_document(url@)),
    {
        let mut thumbnail = JsonMap::new();
        thumbnail.set("url", Value::String(url));
        proof {
            assert(thumbnail@ =~= seq![("url"@, ValueView::String(url@))]);
        }
        self.map.set("thumbnail", Value::Object(thumbnail));
    }

    /// Sets the timestamp of the embed.
    pub fn timestamp(&mut self, timestamp: String)
        ensures
            final(self).map@ == with_entry(
                old(self).map@,
                "timestamp"@,
                ValueView::String(timestamp@),
            ),
    {
        self.map.set("timestamp", Value::String(timestamp));
    }

    /// Sets the title of the embed.
    pub fn title(&mut self, title: String)
        ensures
            final(self).map@ == with_entry(old(self).map@, "title"@, ValueView::String(title@)),
    {
        self.map.set("title", Value::String(title));
    }

    /// Sets the URL of the embed.
    pub fn url(&mut self, url: String)
        ensures
            final(self).map@ == with_entry(old(self).map@, "url"@, ValueView::String(url@)),
    {
        self.map.set("url", Value::String(url));
    }

    /// The document of the embed.
    pub fn build(self) -> (r: JsonMap)
        ensures
            r@ == self.map@,
    {
        self.map
    }
}

/// The document of the author of an embed: its name, and the URLs that it
/// has of its icon and of itself.
pub open spec fn author_document(author: EmbedAuthor) -> MapView {
    with_opt_text(
        with_opt_text(
            with_entry(MapView::empty(), "name"@, ValueView::String(author.name@)),
            "icon_url"@,
            author.icon_url,
        ),
        "url"@,
        author.url,
    )
}

/// The document of the footer of an embed: its text, and the URL of its icon
/// where it has one.
pub open spec fn footer_document(footer: EmbedFooter) -> MapView {
    with_opt_text(
        with_entry(MapView::empty(), "text"@, ValueView::String(footer.text@)),
        "icon_url"@,
        footer.icon_url,
    )
}

/// `doc` with the given fields added, in order.
pub open spec fn with_fields(doc: MapView, fields: Seq<EmbedField>) -> MapView
    decreases fields.len(),
{
    if fields.len() == 0 {
        doc
    } else {
        with_item(
            with_fields(doc, fields.drop_last()),
            "fields"@,
            field_document(fields.last().name@, fields.last().value@, fields.last().inline),
        )
    }
}

/// The document that builds an embed again: its colour, author, description,
/// fields, image, timestamp, thumbnail, URL, title and footer, set in this
/// order on a new embed. Proxied URLs, the provider and the video are left
/// out.
pub open spec fn embed_document(embed: Embed) -> MapView {
    let d0 = with_entry(new_embed(), "color"@, ValueView::Number(embed.colour.0 as u64));
    let d1 = match embed.author {
        Some(author) => with_entry(d0, "author"@, ValueView::Object(author_document(author))),
        None => d0,
    };
    let d2 = with_opt_text(d1, "description"@, embed.description);
    let d3 = with_fields(d2, embed.fields@);
    let d4 = match embed.image {
        Some(image) => with_entry(d3, "image"@, url_document(image.url@)),
        None => d3,
    };
    let d5 = with_opt_text(d4, "timestamp"@, embed.timestamp);
    let d6 = match embed.thumbnail {
        Some(thumbnail) => with_entry(d5, "thumbnail"@, url_document(thumbnail.url@)),
        None => d5,
    };
    let d7 = with_opt_text(d6, "url"@, embed.url);
    let d8 = with_opt_text(d7, "title"@, embed.title);
    match embed.footer {
        Some(footer) => with_entry(d8, "footer"@, ValueView::Object(footer_document(footer))),
        None => d8,
    }
}

impl CreateEmbed {
    /// The builder that builds the given embed again, as far as a sender can
    /// set it.
    pub fn from_embed(embed: &Embed) -> (r: Self)
        ensures
            r.map@ == embed_document(*embed),
    {
        let mut b = CreateEmbed::new();
        b.colour(embed.colour.0);
        if let Some(author) = &embed.author {
            let mut a = CreateEmbedAuthor::new();
            a.name(author.name.clone());
            set_opt_text(&mut a.map, "icon_url", &author.icon_url);
            set_opt_text(&mut a.map, "url", &author.url);
            b.author(a);
        }
        set_opt_text(&mut b.map, "description", &embed.description);
        let ghost before = b.map@;
        let mut i: usize = 0;
        while i < embed.fields.len()
            invariant
                i <= embed.fields@.len(),
                b.map@ == with_fields(before, embed.fields@.take(i as int)),
            decreases embed.fields@.len() - i,
        {
            let field = &embed.fields[i];
            proof {
                let next = embed.fields@.take(i + 1);
                assert(next.drop_last() == embed.fields@.take(i as int));
                assert(next.last() == *field);
            }
            b.field(field.name.clone(), field.value.clone(), field.inline);
            i += 1;
        }
        assert(embed.fields@.take(i as int) == embed.fields@);
        if let Some(image) = &embed.image {
            b.image(image.url.clone());
        }
        set_opt_text(&mut b.map, "timestamp", &embed.timestamp);
        if let Some(thumbnail) = &embed.thumbnail {
            b.thumbnail(thumbnail.url.clone());
        }
        set_opt_text(&mut b.map, "url", &embed.url);
        set_opt_text(&mut b.map, "title", &embed.title);
        if let Some(footer) = &embed.footer {
            let mut f = CreateEmbedFooter::new();
            f.text(footer.text.clone());
            set_opt_text(&mut f.map, "icon_url", &footer.icon_url);
            b.footer(f);
        }
        b
    }
}

impl Embed {
    /// Makes the payload document of an embed from a builder, for requests
    /// that take an embed as a bare document.
    pub fn fake(create_embed: CreateEmbed) -> (r: Value)
        ensures
            r@ == ValueView::Object(create_embed.map@),
    {
        Value::Object(create_embed.build())
    }
}

/// Which mentions in the content of a message may notify.
#[derive(Clone, Copy, Debug, PartialEq, Eq, Structural)]
pub enum ParseValue {
    /// Mentions of everyone and of whoever is here.
    Everyone,
    /// Mentions of users.
    Users,
    /// Mentions of roles.
    Roles,
}

/// The name of a kind of mention in a payload.
pub open spec fn parse_name(value: ParseValue) -> Seq<char> {
    match value {
        ParseValue::Everyone => "everyone"@,
        ParseValue::Users => "users"@,
        ParseValue::Roles => "roles"@,
    }
}

/// The override of which mentions of a message may notify, under
/// construction. Once a message carries one, only what it names notifies.
#[derive(Clone, Debug, PartialEq)]
pub struct CreateAllowedMentions {
    pub map: JsonMap,
}

impl CreateAllowedMentions {
    /// An override that names nothing.
    pub fn new() -> (r: Self)
        ensures
            r.map@ == MapView::empty(),
    {
        CreateAllowedMentions { map: JsonMap::new() }
    }

    /// Lets mentions of the given kind notify.
    pub fn parse(&mut self, value: ParseValue)
        ensures
            final(self).map@ == with_item(
                old(self).map@,
                "parse"@,
                ValueView::String(parse_name(value)),
            ),
    {
        let name = match value {
            ParseValue::Everyone => "everyone",
            ParseValue::Users => "users",
            ParseValue::Roles => "roles",
        };
        self.map.append_item("parse", Value::String(String::from_str(name)));
    }

    /// Sets whether the author of the message replied to is notified.
    pub fn replied_user(&mut self, mention_user: bool)
        ensures
            final(self).map@ == with_entry(
                old(self).map@,
                "replied_user"@,
                ValueView::Bool(mention_user),
            ),
    {
        self.map.set("replied_user", Value::Bool(mention_user));
    }
}

/// The number of an optional id in a payload.
pub open spec fn opt_number(id: Option<u64>) -> ValueView {
    match id {
        Some(n) => ValueView::Number(n),
        None => ValueView::Null,
    }
}

/// The document of a reference to a message.
pub open spec fn reference_document(reference: MessageReference) -> ValueView {
    ValueView::Object(
        seq![
            (
                "message_id"@,
                opt_number(
                    match reference.message_id {
                        Some(id) => Some(id.0),
                        None => None,
                    },
                ),
            ),
            ("channel_id"@, ValueView::Number(reference.channel_id.0)),
            (
                "guild_id"@,
                opt_number(
                    match reference.guild_id {
                        Some(id) => Some(id.0),
                        None => None,
                    },
                ),
            ),
        ],
    )
}

/// The document of a new message: it is not read aloud.
pub open spec fn new_message() -> MapView {
    seq![("tts"@, ValueView::Bool(false))]
}

/// A message to send, under construction.
#[derive(Clone, Debug, PartialEq)]
pub struct CreateMessage {
    pub map: JsonMap,
}

impl CreateMessage {
    /// A message that is not read aloud, with nothing else set.
    pub fn new() -> (r: Self)
        ensures
            r.map@ == new_message(),
    {
        let mut map = JsonMap::new();
        map.set("tts", Value::Bool(false));
        proof {
            assert(map@ =~= new_message());
        }
        CreateMessage { map }
    }

    /// Sets the content of the message.
    pub fn content(&mut self, content: String)
        ensures
            final(self).map@ == with_entry(
                old(self).map@,
                "content"@,
                ValueView::String(content@),
            ),
    {
        self.map.set("content", Value::String(content));
    }

    /// Makes the message a reply to the message referred to.
    pub fn reference_message(&mut self, reference: MessageReference)
        ensures
            final(self).map@ == with_entry(
                old(self).map@,
                "message_reference"@,
                reference_document(reference),
            ),
    {
        let mut doc = JsonMap::new();
        let message_id = match reference.message_id {
            Some(id) => Value::Number(id.0),
            None => Value::Null,
        };
        let guild_id = match reference.guild_id {
            Some(id) => Value::Number(id.0),
            None => Value::Null,
        };
        proof {
            reveal_strlit("message_id");
            reveal_strlit("channel_id");
            reveal_strlit("guild_id");
            assert("message_id"@[0] != "channel_id"@[0]);
            assert("message_id"@[0] != "guild_id"@[0]);
            assert("channel_id"@[0] != "guild_id"@[0]);
            lemma_three_keys(
                "message_id"@,
                message_id@,
                "channel_id"@,
                ValueView::Number(reference.channel_id.0),
                "guild_id"@,
                guild_id@,
            );
        }
        let ghost first = message_id@;
        let ghost third = guild_id@;
        doc.set("message_id", message_id);
        doc.set("channel_id", Value::Number(reference.channel_id.0));
        doc.set("guild_id", guild_id);
        assert(doc@ == seq![
            ("message_id"@, first),
            ("channel_id"@, ValueView::Number(reference.channel_id.0)),
            ("guild_id"@, third),
        ]);
        assert(first == opt_number(
            match reference.message_id {
                Some(id) => Some(id.0),
                None => None,
            },
        ));
        assert(third == opt_number(
            match reference.guild_id {
                Some(id) => Some(id.0),
                None => None,
            },
        ));
        assert(reference_document(reference)->Object_0 =~= doc@);
        self.map.set("message_reference", Value::Object(doc));
    }

    /// Sets which mentions of the message may notify.
    pub fn allowed_mentions(&mut self, allowed: CreateAllowedMentions)
        ensures
            final(self).map@ == with_entry(
                old(self).map@,
                "allowed_mentions"@,
                ValueView::Object(allowed.map@),
            ),
    {
        self.map.set("allowed_mentions", Value::Object(allowed.map));
    }

    /// The payload of the message.
    pub fn build(self) -> (r: JsonMap)
        ensures
            r@ == self.map@,
    {
        self.map
    }
}

/// The flags that a payload carries: the number under `flags`, or none.
pub open spec fn flags_of(doc: MapView) -> u64 {
    match lookup(doc, "flags"@) {
        Some(ValueView::Number(n)) => n,
        _ => 0,
    }
}

/// The flags `flags` with the suppression of embeds switched on or off.
pub open spec fn suppressing(flags: u64, suppress: bool) -> u64 {
    if suppress {
        flags | SUPPRESS_EMBEDS
    } else {
        flags & !SUPPRESS_EMBEDS
    }
}

/// The document that names an attachment which a message keeps.
pub open spec fn attachment_document(id: AttachmentId) -> ValueView {
    ValueView::Object(seq![("id"@, ValueView::Number(id.0))])
}

/// The documents of the given embeds, in order.
pub open spec fn embed_documents(embeds: Seq<CreateEmbed>) -> Seq<ValueView> {
    Seq::new(embeds.len(), |i: int| ValueView::Object(embeds[i].map@))
}

/// An edit of a message, under construction.
#[derive(Clone, Debug, PartialEq)]
pub struct EditMessage {
    pub map: JsonMap,
}

impl EditMessage {
    /// An edit that changes nothing.
    pub fn new() -> (r: Self)
        ensures
            r.map@ == MapView::empty(),
    {
        EditMessage { map: JsonMap::new() }
    }

    /// Sets the content of the message.
    pub fn content(&mut self, content: String)
        ensures
            final(self).map@ == with_entry(
                old(self).map@,
                "content"@,
                ValueView::String(content@),
            ),
    {
        self.map.set("content", Value::String(content));
    }

    /// Sets the embeds of the message, in place of those that it has.
    pub fn set_embeds(&mut self, embeds: Vec<CreateEmbed>)
        ensures
            final(self).map@ == with_entry(
                old(self).map@,
                "embeds"@,
                ValueView::Array(embed_documents(embeds@)),
            ),
    {
        let ghost all = embeds@;
        let mut items: Vec<Value> = Vec::new();
        for embed in it: embeds
            invariant
                it.seq() == all,
                items@.len() == it.index(),
                forall|j: int|
                    0 <= j < items@.len() ==> (#[trigger] items@[j])@ == ValueView::Object(
                        all[j].map@,
                    ),
        {
            items.push(Value::Object(embed.map));
        }
        proof {
            crate::json::lemma_views(items@);
            assert(crate::json::views(items@) =~= embed_documents(all));
        }
        self.map.set("embeds", Value::Array(items));
    }

    /// Adds an embed to the message, after those that the edit holds.
    pub fn add_embed(&mut self, embed: CreateEmbed)
        ensures
            final(self).map@ == with_item(
                old(self).map@,
                "embeds"@,
                ValueView::Object(embed.map@),
            ),
    {
        self.map.append_item("embeds", Value::Object(embed.map));
    }

    /// Switches the suppression of the message's embeds on or off, keeping
    /// the other flags that the edit holds.
    pub fn suppress_embeds(&mut self, suppress: bool)
        ensures
            final(self).map@ == with_entry(
                old(self).map@,
                "flags"@,
                ValueView::Number(suppressing(flags_of(old(self).map@), suppress)),
            ),
    {
        let flags: u64 = match self.map.get("flags") {
            Some(Value::Number(n)) => *n,
            _ => 0,
        };
        let flags: u64 = if suppress {
            flags | SUPPRESS_EMBEDS
        } else {
            flags & !SUPPRESS_EMBEDS
        };
        self.map.set("flags", Value::Number(flags));
    }

    /// Keeps an attachment that the message has.
    pub fn add_existing_attachment(&mut self, id: AttachmentId)
        ensures
            final(self).map@ == with_item(
                old(self).map@,
                "attachments"@,
                attachment_document(id),
            ),
    {
        let mut doc = JsonMap::new();
        doc.set("id", Value::Number(id.0));
        proof {
            assert(doc@ =~= seq![("id"@, ValueView::Number(id.0))]);
        }
        self.map.append_item("attachments", Value::Object(doc));
    }

    /// Sets which mentions of the message may notify.
    pub fn allowed_mentions(&mut self, allowed: CreateAllowedMentions)
        ensures
            final(self).map@ == with_entry(
                old(self).map@,
                "allowed_mentions"@,
                ValueView::Object(allowed.map@),
            ),
    {
        self.map.set("allowed_mentions", Value::Object(allowed.map));
    }

    /// The payload of the edit.
    pub fn build(self) -> (r: JsonMap)
        ensures
            r@ == self.map@,
    {
        self.map
    }
}

/// Three entries put into the empty document under three different keys
/// stand in it in that order.
pub proof fn lemma_three_keys(
    k1: Seq<char>,
    v1: ValueView,
    k2: Seq<char>,
    v2: ValueView,
    k3: Seq<char>,
    v3: ValueView,
)
    requires
        k1 != k2,
        k1 != k3,
        k2 != k3,
    ensures
        with_entry(with_entry(with_entry(MapView::empty(), k1, v1), k2, v2), k3, v3) == seq![
            (k1, v1),
            (k2, v2),
            (k3, v3),
        ],
{
    let d1 = with_entry(MapView::empty(), k1, v1);
    assert(d1 =~= seq![(k1, v1)]);
    lemma_absent_key(d1, k2);
    let d2 = with_entry(d1, k2, v2);
    assert(d2 =~= seq![(k1, v1), (k2, v2)]);
    lemma_absent_key(d2, k3);
    let d3 = with_entry(d2, k3, v3);
    assert(d3 =~= seq![(k1, v1), (k2, v2), (k3, v3)]);
}

} // verus!
