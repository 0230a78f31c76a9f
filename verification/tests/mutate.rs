use message_model::builder::EditMessage;
use message_model::cache::{CacheSnapshot, CachedChannel};
use message_model::channel::Attachment;
use message_model::embed::{Colour, Embed, EmbedField};
use message_model::error::ModelError;
use message_model::id::{AttachmentId, ChannelId, EmojiId, GuildId, MessageId, RoleId, UserId};
use message_model::json::{JsonMap, Value};
use message_model::message::{Message, MessageType};
use message_model::permissions::{
    MessageFlags, Permissions, ADD_REACTIONS, CROSSPOSTED, EPHEMERAL, IS_CROSSPOST,
    MANAGE_MESSAGES, SEND_MESSAGES, SUPPRESS_EMBEDS,
};
use message_model::reaction::{Reaction, ReactionType};
use message_model::request::Request;
use message_model::user::{PartialMember, Timestamp, User};

fn user(id: u64, name: &str, discriminator: u16) -> User {
    User { id: UserId(id), name: name.to_string(), discriminator, bot: false }
}

fn message(content: &str) -> Message {
    Message {
        id: MessageId(500),
        channel_id: ChannelId(40),
        author: user(7, "author", 1),
        content: content.to_string(),
        timestamp: Timestamp { secs: 1_600_000_000 },
        edited_timestamp: None,
        tts: false,
        mention_everyone: false,
        mentions: Vec::new(),
        mention_roles: Vec::new(),
        mention_channels: Vec::new(),
        attachments: Vec::new(),
        embeds: Vec::new(),
        reactions: Vec::new(),
        nonce: Value::Null,
        pinned: false,
        webhook_id: None,
        kind: MessageType::Regular,
        activity: None,
        application: None,
        application_id: None,
        message_reference: None,
        flags: None,
        referenced_message: None,
        components: Vec::new(),
        sticker_items: Vec::new(),
        guild_id: None,
        member: None,
    }
}

fn cache(current: u64) -> CacheSnapshot {
    CacheSnapshot {
        current_user: user(current, "me", 2),
        channels: Vec::new(),
        guilds: Vec::new(),
        members: Vec::new(),
        roles: Vec::new(),
    }
}

fn guild_message(content: &str) -> Message {
    let mut m = message(content);
    m.guild_id = Some(GuildId(3));
    m
}

fn cache_with(current: u64, bits: u64) -> CacheSnapshot {
    let mut c = cache(current);
    c.channels.push(CachedChannel {
        id: ChannelId(40),
        guild_id: Some(GuildId(3)),
        category_id: None,
        permissions: Permissions { bits },
    });
    c
}

fn s(value: &str) -> Value {
    Value::String(value.to_string())
}

fn object(entries: Vec<(&str, Value)>) -> JsonMap {
    let mut map = JsonMap::new();
    for (key, value) in entries {
        map.set(key, value);
    }
    map
}

fn denied(bits: u64) -> ModelError {
    ModelError::InsufficientPermissions(Permissions { bits })
}

fn thumbs_up() -> ReactionType {
    ReactionType::Unicode("\u{1F44D}".to_string())
}

#[test]
fn crosspost_of_a_regular_message() {
    let m = guild_message("news");
    let expected = Request::Crosspost { channel_id: ChannelId(40), message_id: MessageId(500) };
    assert_eq!(m.crosspost(None), Ok(expected.clone()));
    assert_eq!(m.crosspost(Some(&cache_with(7, 0))), Ok(expected.clone()));
    assert_eq!(m.crosspost(Some(&cache_with(8, MANAGE_MESSAGES))), Ok(expected.clone()));
    let mut flagged = guild_message("news");
    flagged.flags = Some(MessageFlags { bits: EPHEMERAL });
    assert_eq!(flagged.crosspost(None), Ok(expected));
}

#[test]
fn crosspost_by_another_user_needs_the_permission() {
    let m = guild_message("news");
    assert_eq!(m.crosspost(Some(&cache_with(8, 0))), Err(denied(MANAGE_MESSAGES)));
    assert_eq!(m.crosspost(Some(&cache_with(8, SEND_MESSAGES))), Err(denied(MANAGE_MESSAGES)));
    assert!(m.crosspost(Some(&cache_with(8, MANAGE_MESSAGES | SEND_MESSAGES))).is_ok());
}

#[test]
fn crosspost_outside_a_guild_is_not_checked() {
    let m = message("news");
    assert!(m.crosspost(Some(&cache_with(8, 0))).is_ok());
}

#[test]
fn crossposted_message_is_always_refused() {
    for kind in [MessageType::Regular, MessageType::PinsAdd, MessageType::Unknown] {
        for bits in [CROSSPOSTED, CROSSPOSTED | IS_CROSSPOST, CROSSPOSTED | EPHEMERAL] {
            let mut m = guild_message("news");
            m.kind = kind;
            m.flags = Some(MessageFlags { bits });
            assert_eq!(m.crosspost(None), Err(ModelError::AlreadyCrossposted));
            assert_eq!(m.crosspost(Some(&cache_with(7, 0))), Err(ModelError::AlreadyCrossposted));
            assert_eq!(m.crosspost(Some(&cache_with(8, 0))), Err(ModelError::AlreadyCrossposted));
            assert_eq!(
                m.crosspost(Some(&cache_with(8, MANAGE_MESSAGES))),
                Err(ModelError::AlreadyCrossposted)
            );
        }
    }
}

#[test]
fn crosspost_of_a_crosspost_is_refused() {
    let mut m = guild_message("news");
    m.flags = Some(MessageFlags { bits: IS_CROSSPOST });
    assert_eq!(m.crosspost(None), Err(ModelError::CannotCrosspost));
    assert_eq!(m.crosspost(Some(&cache_with(7, 0))), Err(ModelError::CannotCrosspost));
    assert_eq!(m.crosspost(Some(&cache_with(8, 0))), Err(ModelError::CannotCrosspost));
    assert_eq!(m.crosspost(Some(&cache_with(8, MANAGE_MESSAGES))), Err(ModelError::CannotCrosspost));
}

#[test]
fn crosspost_of_a_system_message_is_refused() {
    let mut m = guild_message("news");
    m.kind = MessageType::MemberJoin;
    m.flags = Some(MessageFlags { bits: 0 });
    assert_eq!(m.crosspost(None), Err(ModelError::CannotCrosspost));
    m.flags = None;
    assert_eq!(m.crosspost(None), Err(ModelError::CannotCrosspost));
    assert_eq!(m.crosspost(Some(&cache_with(8, 0))), Err(ModelError::CannotCrosspost));
}

#[test]
fn delete_by_the_author() {
    let expected = Request::DeleteMessage { channel_id: ChannelId(40), message_id: MessageId(500) };
    assert_eq!(message("x").delete(None), Ok(expected.clone()));
    assert_eq!(message("x").delete(Some(&cache(7))), Ok(expected.clone()));
    assert_eq!(guild_message("x").delete(Some(&cache_with(7, 0))), Ok(expected));
}

#[test]
fn delete_by_another_user() {
    assert_eq!(message("x").delete(Some(&cache(8))), Err(ModelError::NotAuthor));
    assert_eq!(message("x").delete(Some(&cache_with(8, MANAGE_MESSAGES))), Err(ModelError::NotAuthor));
    assert_eq!(guild_message("x").delete(Some(&cache_with(8, 0))), Err(denied(MANAGE_MESSAGES)));
    assert!(guild_message("x").delete(Some(&cache_with(8, MANAGE_MESSAGES))).is_ok());
    assert!(guild_message("x").delete(Some(&cache(8))).is_ok());
}

#[test]
fn delete_reactions_needs_the_permission() {
    let expected = Request::DeleteReactions { channel_id: ChannelId(40), message_id: MessageId(500) };
    assert_eq!(guild_message("x").delete_reactions(None), Ok(expected.clone()));
    assert_eq!(message("x").delete_reactions(Some(&cache_with(8, 0))), Ok(expected.clone()));
    assert_eq!(guild_message("x").delete_reactions(Some(&cache_with(7, MANAGE_MESSAGES))), Ok(expected));
    assert_eq!(
        guild_message("x").delete_reactions(Some(&cache_with(7, 0))),
        Err(denied(MANAGE_MESSAGES))
    );
}

#[test]
fn delete_reaction_emoji_carries_the_emoji() {
    let emoji = ReactionType::Custom { animated: true, id: EmojiId(5), name: Some("wave".to_string()) };
    assert_eq!(
        guild_message("x").delete_reaction_emoji(Some(&cache_with(8, MANAGE_MESSAGES)), emoji.clone()),
        Ok(Request::DeleteReactionEmoji {
            channel_id: ChannelId(40),
            message_id: MessageId(500),
            reaction_type: emoji.clone(),
        })
    );
    assert_eq!(
        guild_message("x").delete_reaction_emoji(Some(&cache_with(8, ADD_REACTIONS)), emoji),
        Err(denied(MANAGE_MESSAGES))
    );
}

#[test]
fn pin_and_unpin_need_the_permission() {
    let m = guild_message("x");
    assert_eq!(m.pin(None), Ok(Request::Pin { channel_id: ChannelId(40), message_id: MessageId(500) }));
    assert_eq!(m.unpin(None), Ok(Request::Unpin { channel_id: ChannelId(40), message_id: MessageId(500) }));
    assert!(m.pin(Some(&cache_with(8, MANAGE_MESSAGES))).is_ok());
    assert!(m.unpin(Some(&cache_with(8, MANAGE_MESSAGES))).is_ok());
    assert_eq!(m.pin(Some(&cache_with(7, 0))), Err(denied(MANAGE_MESSAGES)));
    assert_eq!(m.unpin(Some(&cache_with(7, 0))), Err(denied(MANAGE_MESSAGES)));
    assert!(message("x").pin(Some(&cache_with(8, 0))).is_ok());
    assert!(message("x").unpin(Some(&cache_with(8, 0))).is_ok());
}

#[test]
fn react_without_a_cache_names_no_user() {
    let m = guild_message("x");
    let (request, reaction) = m.react(None, thumbs_up()).unwrap();
    assert_eq!(
        request,
        Request::CreateReaction { channel_id: ChannelId(40), message_id: MessageId(500), reaction_type: thumbs_up() }
    );
    assert_eq!(
        reaction,
        Reaction {
            channel_id: ChannelId(40),
            emoji: thumbs_up(),
            message_id: MessageId(500),
            user_id: None,
            guild_id: Some(GuildId(3)),
            member: None,
        }
    );
}

#[test]
fn react_with_a_cache_names_the_current_user() {
    let mut m = guild_message("x");
    m.member = Some(PartialMember {
        deaf: false,
        mute: true,
        nick: Some("nick".to_string()),
        roles: vec![RoleId(1), RoleId(2)],
    });
    let (_, reaction) = m._react(Some(&cache_with(8, ADD_REACTIONS)), thumbs_up()).unwrap();
    assert_eq!(reaction.user_id, Some(UserId(8)));
    assert_eq!(reaction.member, m.member);
    assert_eq!(reaction.emoji, thumbs_up());
    let (_, private) = message("x").react(Some(&cache(9)), thumbs_up()).unwrap();
    assert_eq!(private.user_id, Some(UserId(9)));
    assert_eq!(private.guild_id, None);
}

#[test]
fn react_needs_the_permission() {
    let m = guild_message("x");
    assert_eq!(m.react(Some(&cache_with(7, MANAGE_MESSAGES)), thumbs_up()), Err(denied(ADD_REACTIONS)));
    assert_eq!(m._react(Some(&cache_with(7, 0)), thumbs_up()), Err(denied(ADD_REACTIONS)));
}

fn overrides(ping: bool) -> Value {
    Value::Object(object(vec![
        ("replied_user", Value::Bool(ping)),
        ("parse", Value::Array(vec![s("everyone"), s("users"), s("roles")])),
    ]))
}

fn reference() -> Value {
    Value::Object(object(vec![
        ("message_id", Value::Number(500)),
        ("channel_id", Value::Number(40)),
        ("guild_id", Value::Number(3)),
    ]))
}

#[test]
fn reply_refers_to_the_message_without_a_ping() {
    let request = guild_message("x").reply(None, "thanks").unwrap();
    let expected = object(vec![
        ("tts", Value::Bool(false)),
        ("message_reference", reference()),
        ("allowed_mentions", overrides(false)),
        ("content", s("thanks")),
    ]);
    assert_eq!(request, Request::SendMessage { channel_id: ChannelId(40), payload: expected });
}

#[test]
fn reply_ping_refers_to_the_message_with_a_ping() {
    let request = guild_message("x").reply_ping(None, "thanks").unwrap();
    let expected = object(vec![
        ("tts", Value::Bool(false)),
        ("message_reference", reference()),
        ("allowed_mentions", overrides(true)),
        ("content", s("thanks")),
    ]);
    assert_eq!(request, Request::SendMessage { channel_id: ChannelId(40), payload: expected });
}

#[test]
fn reply_in_a_private_channel_has_no_guild() {
    let request = message("x").reply(None, "thanks").unwrap();
    match request {
        Request::SendMessage { payload, .. } => {
            let reference = payload.get("message_reference").unwrap();
            assert_eq!(reference.get("guild_id"), Some(&Value::Null));
            assert_eq!(reference.get("message_id"), Some(&Value::Number(500)));
        },
        other => panic!("{:?}", other),
    }
}

#[test]
fn reply_mention_puts_the_mention_first() {
    let request = guild_message("x").reply_mention(None, "thanks").unwrap();
    let expected = object(vec![("tts", Value::Bool(false)), ("content", s("<@7> thanks"))]);
    assert_eq!(request, Request::SendMessage { channel_id: ChannelId(40), payload: expected });
}

#[test]
fn reply_needs_the_permission() {
    let m = guild_message("x");
    assert_eq!(m.reply(Some(&cache_with(7, 0)), "hi"), Err(denied(SEND_MESSAGES)));
    assert_eq!(m.reply_ping(Some(&cache_with(7, MANAGE_MESSAGES)), "hi"), Err(denied(SEND_MESSAGES)));
    assert_eq!(m.reply_mention(Some(&cache_with(7, 0)), "hi"), Err(denied(SEND_MESSAGES)));
    assert_eq!(m._reply(Some(&cache_with(7, 0)), "hi", None), Err(denied(SEND_MESSAGES)));
    assert!(m.reply(Some(&cache_with(8, SEND_MESSAGES)), "hi").is_ok());
    assert!(message("x").reply(Some(&cache_with(8, 0)), "hi").is_ok());
}

#[test]
fn reply_checks_the_length_of_the_content() {
    let m = guild_message("x");
    assert!(m.reply(None, &"a".repeat(2000)).is_ok());
    assert_eq!(m.reply(None, &"a".repeat(2001)), Err(ModelError::ContentTooLong(1)));
    assert_eq!(m.reply_ping(None, &"a".repeat(2010)), Err(ModelError::ContentTooLong(10)));
    // The mention and the space count: "<@7> " holds five characters.
    assert!(m.reply_mention(None, &"a".repeat(1995)).is_ok());
    assert_eq!(m.reply_mention(None, &"a".repeat(1996)), Err(ModelError::ContentTooLong(1)));
}

#[test]
fn reply_checks_the_permission_before_the_length() {
    let m = guild_message("x");
    assert_eq!(m.reply(Some(&cache_with(7, 0)), &"a".repeat(3000)), Err(denied(SEND_MESSAGES)));
}

#[test]
fn prepared_edit_keeps_the_content() {
    let m = message("hello");
    let builder = m._prepare_edit_builder();
    assert_eq!(builder.map.get("content"), Some(&s("hello")));
    assert_eq!(builder.map.get("embeds"), Some(&Value::Array(Vec::new())));
    assert!(builder.map.get("attachments").is_none());
    assert_eq!(builder.map.len(), 2);
}

#[test]
fn prepared_edit_of_an_empty_message_holds_no_content() {
    let builder = message("")._prepare_edit_builder();
    assert!(builder.map.get("content").is_none());
    assert_eq!(builder.map.get("embeds"), Some(&Value::Array(Vec::new())));
}

#[test]
fn prepared_edit_keeps_embeds_and_attachments() {
    let mut m = message("hello");
    m.embeds.push(Embed {
        author: None,
        colour: Colour(0xff0000),
        description: Some("about".to_string()),
        fields: vec![EmbedField::new("k", "v", true)],
        footer: None,
        image: None,
        kind: "rich".to_string(),
        provider: None,
        thumbnail: None,
        timestamp: None,
        title: Some("title".to_string()),
        url: None,
        video: None,
    });
    for id in [11, 12] {
        m.attachments.push(Attachment {
            id: AttachmentId(id),
            filename: "f.png".to_string(),
            size: 1,
            url: "u".to_string(),
            proxy_url: "p".to_string(),
            height: None,
            width: None,
        });
    }
    let builder = m._prepare_edit_builder();
    let embed = object(vec![
        ("type", s("rich")),
        ("color", Value::Number(0xff0000)),
        ("description", s("about")),
        (
            "fields",
            Value::Array(vec![Value::Object(object(vec![
                ("inline", Value::Bool(true)),
                ("name", s("k")),
                ("value", s("v")),
            ]))]),
        ),
        ("title", s("title")),
    ]);
    let expected = object(vec![
        ("content", s("hello")),
        ("embeds", Value::Array(vec![Value::Object(embed)])),
        (
            "attachments",
            Value::Array(vec![
                Value::Object(object(vec![("id", Value::Number(11))])),
                Value::Object(object(vec![("id", Value::Number(12))])),
            ]),
        ),
    ]);
    assert_eq!(builder.map, expected);
}

#[test]
fn edit_sends_what_the_builder_holds() {
    let m = message("hello");
    let mut builder = m._prepare_edit_builder();
    builder.content("new content".to_string());
    let request = m.edit(Some(&cache(7)), builder).unwrap();
    let expected = object(vec![("content", s("new content")), ("embeds", Value::Array(Vec::new()))]);
    assert_eq!(
        request,
        Request::EditMessage { channel_id: ChannelId(40), message_id: MessageId(500), payload: expected }
    );
}

#[test]
fn edit_is_for_the_author_only() {
    let m = guild_message("hello");
    assert_eq!(m.edit(Some(&cache_with(8, MANAGE_MESSAGES)), m._prepare_edit_builder()), Err(ModelError::InvalidUser));
    assert!(m.edit(Some(&cache_with(7, 0)), m._prepare_edit_builder()).is_ok());
    assert!(m.edit(None, m._prepare_edit_builder()).is_ok());
}

#[test]
fn authorize_edit_asks_for_the_author() {
    let m = guild_message("hello");
    assert_eq!(m.authorize_edit(None), Ok(()));
    assert_eq!(m.authorize_edit(Some(&cache(7))), Ok(()));
    assert_eq!(m.authorize_edit(Some(&cache_with(8, MANAGE_MESSAGES))), Err(ModelError::InvalidUser));
}

#[test]
fn edit_checks_the_limits() {
    let m = message("hello");
    let mut builder = EditMessage::new();
    builder.content("a".repeat(2100));
    assert_eq!(m.edit(None, builder), Err(ModelError::ContentTooLong(100)));
    let mut other = EditMessage::new();
    other.content("a".repeat(2100));
    assert_eq!(m.edit(Some(&cache(8)), other), Err(ModelError::InvalidUser));
}

#[test]
fn send_edit_makes_the_request() {
    let m = message("hello");
    let mut builder = EditMessage::new();
    builder.content("x".to_string());
    assert_eq!(
        m._send_edit(builder),
        Request::EditMessage {
            channel_id: ChannelId(40),
            message_id: MessageId(500),
            payload: object(vec![("content", s("x"))]),
        }
    );
}

#[test]
fn suppress_embeds_sets_the_flag() {
    let m = guild_message("hello");
    let expected = Request::EditMessage {
        channel_id: ChannelId(40),
        message_id: MessageId(500),
        payload: object(vec![("flags", Value::Number(SUPPRESS_EMBEDS))]),
    };
    assert_eq!(m.suppress_embeds(None), Ok(expected.clone()));
    assert_eq!(m.suppress_embeds(Some(&cache_with(7, MANAGE_MESSAGES))), Ok(expected));
}

#[test]
fn suppress_embeds_needs_the_permission_and_the_author() {
    let m = guild_message("hello");
    assert_eq!(m.suppress_embeds(Some(&cache_with(7, 0))), Err(denied(MANAGE_MESSAGES)));
    assert_eq!(m.suppress_embeds(Some(&cache_with(8, 0))), Err(denied(MANAGE_MESSAGES)));
    assert_eq!(m.suppress_embeds(Some(&cache_with(8, MANAGE_MESSAGES))), Err(ModelError::NotAuthor));
    assert_eq!(message("x").suppress_embeds(Some(&cache(8))), Err(ModelError::NotAuthor));
}

#[test]
fn commit_replaces_the_message() {
    let mut m = message("old");
    let mut response = guild_message("new");
    response.pinned = true;
    m.commit(response.clone());
    assert_eq!(m, response);
}
