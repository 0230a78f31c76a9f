use message_model::builder::{
    CreateAllowedMentions, CreateEmbed, CreateEmbedAuthor, CreateEmbedFooter, CreateMessage,
    EditMessage, ParseValue,
};
use message_model::embed::{
    Colour, Embed, EmbedAuthor, EmbedField, EmbedFooter, EmbedImage, EmbedProvider,
    EmbedThumbnail, EmbedVideo,
};
use message_model::error::ModelError;
use message_model::id::{AttachmentId, ChannelId, GuildId, MessageId};
use message_model::json::{JsonMap, Value};
use message_model::message::{Message, MessageActivityKind, MessageReference};
use message_model::permissions::{EPHEMERAL, SUPPRESS_EMBEDS};
use message_model::user::Timestamp;

fn s(value: &str) -> Value {
    Value::String(value.to_string())
}

fn object(entries: Vec<(&str, Value)>) -> JsonMap {
    let mut map = JsonMap::new();
    for (key, value) in entries {
        map.set(key, value);
    }
    map
}

#[test]
fn embed_field_from_its_parts() {
    let field = EmbedField::new("name", String::from("value"), true);
    assert_eq!(field, EmbedField { inline: true, name: "name".to_string(), value: "value".to_string() });
    let other = EmbedField::_new("n".to_string(), "v".to_string(), false);
    assert_eq!(other, EmbedField { inline: false, name: "n".to_string(), value: "v".to_string() });
}

#[test]
fn new_embed_is_rich() {
    assert_eq!(CreateEmbed::new().build(), object(vec![("type", s("rich"))]));
}

#[test]
fn embed_setters_put_their_entries() {
    let mut author = CreateEmbedAuthor::new();
    author.name("ann".to_string());
    author.icon_url("icon".to_string());
    author.url("home".to_string());
    let mut footer = CreateEmbedFooter::new();
    footer.text("foot".to_string());
    footer.icon_url("ficon".to_string());
    let mut e = CreateEmbed::new();
    e.title("title".to_string());
    e.description("about".to_string());
    e.colour(0x00ff00);
    e.author(author);
    e.footer(footer);
    e.image("image".to_string());
    e.thumbnail("thumb".to_string());
    e.timestamp("2020-01-01T00:00:00Z".to_string());
    e.url("link".to_string());
    e.field("a".to_string(), "b".to_string(), false);
    e.field("c".to_string(), "d".to_string(), true);
    e.title("second title".to_string());
    let expected = object(vec![
        ("type", s("rich")),
        ("title", s("second title")),
        ("description", s("about")),
        ("color", Value::Number(0x00ff00)),
        ("author", Value::Object(object(vec![("name", s("ann")), ("icon_url", s("icon")), ("url", s("home"))]))),
        ("footer", Value::Object(object(vec![("text", s("foot")), ("icon_url", s("ficon"))]))),
        ("image", Value::Object(object(vec![("url", s("image"))]))),
        ("thumbnail", Value::Object(object(vec![("url", s("thumb"))]))),
        ("timestamp", s("2020-01-01T00:00:00Z")),
        ("url", s("link")),
        (
            "fields",
            Value::Array(vec![
                Value::Object(object(vec![("inline", Value::Bool(false)), ("name", s("a")), ("value", s("b"))])),
                Value::Object(object(vec![("inline", Value::Bool(true)), ("name", s("c")), ("value", s("d"))])),
            ]),
        ),
    ]);
    assert_eq!(e.map, expected);
}

#[test]
fn fake_embed_is_the_document_of_the_builder() {
    let mut e = CreateEmbed::new();
    e.title("Embed title".to_string());
    e.description("Making a basic embed".to_string());
    e.field("A field".to_string(), "Has some content.".to_string(), false);
    let expected = object(vec![
        ("type", s("rich")),
        ("title", s("Embed title")),
        ("description", s("Making a basic embed")),
        (
            "fields",
            Value::Array(vec![Value::Object(object(vec![
                ("inline", Value::Bool(false)),
                ("name", s("A field")),
                ("value", s("Has some content.")),
            ]))]),
        ),
    ]);
    assert_eq!(Embed::fake(e), Value::Object(expected));
}

fn full_embed() -> Embed {
    Embed {
        author: Some(EmbedAuthor {
            icon_url: Some("icon".to_string()),
            name: "ann".to_string(),
            proxy_icon_url: Some("proxy".to_string()),
            url: None,
        }),
        colour: Colour(7),
        description: Some("about".to_string()),
        fields: vec![EmbedField::new("a", "b", true), EmbedField::new("c", "d", false)],
        footer: Some(EmbedFooter { icon_url: None, proxy_icon_url: None, text: "foot".to_string() }),
        image: Some(EmbedImage { height: 1, proxy_url: "p".to_string(), url: "image".to_string(), width: 2 }),
        kind: "rich".to_string(),
        provider: Some(EmbedProvider { name: "prov".to_string(), url: None }),
        thumbnail: Some(EmbedThumbnail { height: 1, proxy_url: "p".to_string(), url: "thumb".to_string(), width: 2 }),
        timestamp: Some("time".to_string()),
        title: Some("title".to_string()),
        url: Some("link".to_string()),
        video: Some(EmbedVideo { height: 1, url: "video".to_string(), width: 2 }),
    }
}

#[test]
fn builder_from_a_full_embed() {
    let builder = CreateEmbed::from_embed(&full_embed());
    let expected = object(vec![
        ("type", s("rich")),
        ("color", Value::Number(7)),
        ("author", Value::Object(object(vec![("name", s("ann")), ("icon_url", s("icon"))]))),
        ("description", s("about")),
        (
            "fields",
            Value::Array(vec![
                Value::Object(object(vec![("inline", Value::Bool(true)), ("name", s("a")), ("value", s("b"))])),
                Value::Object(object(vec![("inline", Value::Bool(false)), ("name", s("c")), ("value", s("d"))])),
            ]),
        ),
        ("image", Value::Object(object(vec![("url", s("image"))]))),
        ("timestamp", s("time")),
        ("thumbnail", Value::Object(object(vec![("url", s("thumb"))]))),
        ("url", s("link")),
        ("title", s("title")),
        ("footer", Value::Object(object(vec![("text", s("foot"))]))),
    ]);
    assert_eq!(builder.map, expected);
}

#[test]
fn builder_from_a_bare_embed() {
    let mut embed = full_embed();
    embed.author = None;
    embed.description = None;
    embed.fields = Vec::new();
    embed.footer = None;
    embed.image = None;
    embed.thumbnail = None;
    embed.timestamp = None;
    embed.title = None;
    embed.url = None;
    let builder = CreateEmbed::from_embed(&embed);
    assert_eq!(builder.map, object(vec![("type", s("rich")), ("color", Value::Number(7))]));
}

#[test]
fn a_rebuilt_embed_holds_the_text_of_the_embed() {
    let mut embed = full_embed();
    embed.description = Some("a".repeat(6000));
    let mut payload = JsonMap::new();
    payload.set("embeds", Value::Array(vec![Embed::fake(CreateEmbed::from_embed(&embed))]));
    // "ann" + description + "a" "b" "c" "d" + "foot" + "title"
    assert_eq!(Message::check_embed_length(&payload), Err(ModelError::EmbedTooLarge(3 + 4 + 4 + 5)));
}

#[test]
fn allowed_mentions_collects_what_may_notify() {
    let mut allowed = CreateAllowedMentions::new();
    assert_eq!(allowed.map.len(), 0);
    allowed.parse(ParseValue::Users);
    allowed.replied_user(true);
    allowed.parse(ParseValue::Everyone);
    allowed.parse(ParseValue::Roles);
    allowed.replied_user(false);
    assert_eq!(
        allowed.map,
        object(vec![
            ("parse", Value::Array(vec![s("users"), s("everyone"), s("roles")])),
            ("replied_user", Value::Bool(false)),
        ])
    );
}

#[test]
fn new_message_is_not_read_aloud() {
    assert_eq!(CreateMessage::new().build(), object(vec![("tts", Value::Bool(false))]));
}

#[test]
fn message_setters_put_their_entries() {
    let mut m = CreateMessage::new();
    m.content("hello".to_string());
    m.reference_message(MessageReference {
        message_id: None,
        channel_id: ChannelId(4),
        guild_id: Some(GuildId(5)),
    });
    m.allowed_mentions(CreateAllowedMentions::new());
    m.reference_message(MessageReference::from((ChannelId(6), MessageId(7))));
    let expected = object(vec![
        ("tts", Value::Bool(false)),
        ("content", s("hello")),
        (
            "message_reference",
            Value::Object(object(vec![
                ("message_id", Value::Number(7)),
                ("channel_id", Value::Number(6)),
                ("guild_id", Value::Null),
            ])),
        ),
        ("allowed_mentions", Value::Object(JsonMap::new())),
    ]);
    assert_eq!(m.build(), expected);
}

#[test]
fn edit_setters_put_their_entries() {
    let mut e = EditMessage::new();
    assert_eq!(e.map.len(), 0);
    e.content("text".to_string());
    let mut first = CreateEmbed::new();
    first.title("one".to_string());
    let mut second = CreateEmbed::new();
    second.title("two".to_string());
    let mut third = CreateEmbed::new();
    third.title("three".to_string());
    e.set_embeds(vec![first, second]);
    e.add_embed(third);
    e.add_existing_attachment(AttachmentId(9));
    e.add_existing_attachment(AttachmentId(8));
    e.allowed_mentions(CreateAllowedMentions::new());
    let titled = |t: &str| Value::Object(object(vec![("type", s("rich")), ("title", s(t))]));
    let expected = object(vec![
        ("content", s("text")),
        ("embeds", Value::Array(vec![titled("one"), titled("two"), titled("three")])),
        (
            "attachments",
            Value::Array(vec![
                Value::Object(object(vec![("id", Value::Number(9))])),
                Value::Object(object(vec![("id", Value::Number(8))])),
            ]),
        ),
        ("allowed_mentions", Value::Object(JsonMap::new())),
    ]);
    assert_eq!(e.build(), expected);
}

#[test]
fn set_embeds_replaces_the_embeds() {
    let mut e = EditMessage::new();
    e.add_embed(CreateEmbed::new());
    e.add_embed(CreateEmbed::new());
    e.set_embeds(Vec::new());
    assert_eq!(e.map, object(vec![("embeds", Value::Array(Vec::new()))]));
}

#[test]
fn suppress_embeds_keeps_the_other_flags() {
    let mut e = EditMessage::new();
    e.suppress_embeds(true);
    assert_eq!(e.map.get("flags"), Some(&Value::Number(SUPPRESS_EMBEDS)));
    e.suppress_embeds(false);
    assert_eq!(e.map.get("flags"), Some(&Value::Number(0)));
    e.map.set("flags", Value::Number(EPHEMERAL));
    e.suppress_embeds(true);
    assert_eq!(e.map.get("flags"), Some(&Value::Number(EPHEMERAL | SUPPRESS_EMBEDS)));
    e.suppress_embeds(true);
    assert_eq!(e.map.get("flags"), Some(&Value::Number(EPHEMERAL | SUPPRESS_EMBEDS)));
    e.suppress_embeds(false);
    assert_eq!(e.map.get("flags"), Some(&Value::Number(EPHEMERAL)));
    e.map.set("flags", s("none"));
    e.suppress_embeds(false);
    assert_eq!(e.map.get("flags"), Some(&Value::Number(0)));
}

#[test]
fn activity_kinds_by_number() {
    assert_eq!(MessageActivityKind::JOIN.num(), 1);
    assert_eq!(MessageActivityKind::SPECTATE.num(), 2);
    assert_eq!(MessageActivityKind::LISTEN.num(), 3);
    assert_eq!(MessageActivityKind::JOIN_REQUEST.num(), 5);
    assert_eq!(MessageActivityKind::Unknown.num(), u64::MAX);
    assert_eq!(MessageActivityKind::from_num(1), MessageActivityKind::JOIN);
    assert_eq!(MessageActivityKind::from_num(5), MessageActivityKind::JOIN_REQUEST);
    assert_eq!(MessageActivityKind::from_num(4), MessageActivityKind::Unknown);
    assert_eq!(MessageActivityKind::from_num(0), MessageActivityKind::Unknown);
}

#[test]
fn timestamp_in_seconds() {
    assert_eq!(Timestamp { secs: -5 }.unix_timestamp(), -5);
    assert_eq!(Timestamp { secs: 1_600_000_000 }.unix_timestamp(), 1_600_000_000);
}
