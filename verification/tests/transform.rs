use message_model::cache::CacheSnapshot;
use message_model::id::{ChannelId, MessageId, UserId};
use message_model::json::Value;
use message_model::message::{Message, MessageType};
use message_model::transform::{join_message, join_message_index, JOIN_MESSAGE_COUNT};
use message_model::user::{Timestamp, User};

fn user(id: u64, name: &str, discriminator: u16) -> User {
    User { id: UserId(id), name: name.to_string(), discriminator, bot: false }
}

fn message(content: &str) -> Message {
    Message {
        id: MessageId(500),
        channel_id: ChannelId(40),
        author: user(7, "author", 1),
        content: content.to_string(),
        timestamp: Timestamp { secs: 1_600_000_000 },
        edited_timestamp: None,
        tts: false,
        mention_everyone: false,
        mentions: Vec::new(),
        mention_roles: Vec::new(),
        mention_channels: Vec::new(),
        attachments: Vec::new(),
        embeds: Vec::new(),
        reactions: Vec::new(),
        nonce: Value::Null,
        pinned: false,
        webhook_id: None,
        kind: MessageType::Regular,
        activity: None,
        application: None,
        application_id: None,
        message_reference: None,
        flags: None,
        referenced_message: None,
        components: Vec::new(),
        sticker_items: Vec::new(),
        guild_id: None,
        member: None,
    }
}

fn cache(current: u64) -> CacheSnapshot {
    CacheSnapshot {
        current_user: user(current, "me", 2),
        channels: Vec::new(),
        guilds: Vec::new(),
        members: Vec::new(),
        roles: Vec::new(),
    }
}

#[test]
fn pin_notice_replaces_the_content() {
    for content in ["", "whatever the server sent", "<@7> pinned"] {
        let mut m = message(content);
        m.kind = MessageType::PinsAdd;
        m.transform_content();
        assert_eq!(m.content, "<@7> pinned a message to this channel. See all the pins.");
    }
}

#[test]
fn pin_notice_names_the_author() {
    let mut m = message("x");
    m.kind = MessageType::PinsAdd;
    m.author.id = UserId(123456789012345678);
    m.transform_content();
    assert_eq!(m.content, "<@123456789012345678> pinned a message to this channel. See all the pins.");
}

#[test]
fn regular_message_stays_as_it_is() {
    let mut m = message("hello $user");
    let before = m.clone();
    m.transform_content();
    assert_eq!(m, before);
    let mut system = message("boosted");
    system.kind = MessageType::NitroBoost;
    system.transform_content();
    assert_eq!(system.content, "boosted");
}

#[test]
fn transform_changes_only_the_content() {
    let mut m = message("x");
    m.kind = MessageType::PinsAdd;
    m.pinned = true;
    let mut expected = m.clone();
    m.transform_content();
    expected.content = m.content.clone();
    assert_eq!(m, expected);
}

#[test]
fn join_notice_is_chosen_by_the_time() {
    // 1_600_000_000 = 21 * 76_190_476 + 4
    let mut m = message("server text");
    m.kind = MessageType::MemberJoin;
    m.transform_content();
    assert_eq!(m.content, "<@7> joined. You must construct additional pylons.");
    let mut next = message("");
    next.kind = MessageType::MemberJoin;
    next.timestamp = Timestamp { secs: 1_600_000_001 };
    next.transform_content();
    assert_eq!(next.content, "Ermagherd. <@7> is here.");
}

#[test]
fn join_notice_is_stable() {
    let mut a = message("one");
    a.kind = MessageType::MemberJoin;
    let mut b = message("two");
    b.kind = MessageType::MemberJoin;
    a.transform_content();
    b.transform_content();
    assert_eq!(a.content, b.content);
    let once = a.content.clone();
    a.transform_content();
    assert_eq!(a.content, once);
}

#[test]
fn join_index_of_exact_times() {
    assert_eq!(join_message_index(0), 0);
    assert_eq!(join_message_index(20), 20);
    assert_eq!(join_message_index(21), 0);
    assert_eq!(join_message_index(1_600_000_000), 4);
    assert_eq!(join_message_index(i64::MAX), (i64::MAX as u64) % 21);
    // A time before the epoch wraps around as an unsigned 64-bit number.
    assert_eq!(join_message_index(-1), u64::MAX % 21);
    assert_eq!(join_message_index(i64::MIN), (1u64 << 63) % 21);
    assert_eq!(join_message_index(-1_000), ((-1_000i64) as u64) % 21);
}

#[test]
fn join_messages_are_all_there() {
    assert_eq!(JOIN_MESSAGE_COUNT, 21);
    assert_eq!(join_message(0), "$user just joined the server - glhf!");
    assert_eq!(join_message(7), "Welcome, $user. We were expecting you ( \u{0361}\u{00B0} \u{035C}\u{0296} \u{0361}\u{00B0})");
    assert_eq!(join_message(18), "Where\u{2019}s $user? In the server!");
    assert_eq!(join_message(20), "$user just showed up. Hold my beer.");
    for i in 0..JOIN_MESSAGE_COUNT {
        assert!(join_message(i).contains("$user"));
        for k in 0..i {
            assert_ne!(join_message(i), join_message(k));
        }
    }
}

#[test]
fn every_join_notice_names_the_author() {
    for secs in 0..21 {
        let mut m = message("");
        m.kind = MessageType::MemberJoin;
        m.timestamp = Timestamp { secs };
        m.transform_content();
        assert_eq!(m.content, join_message(secs as u64).replace("$user", "<@7>"));
        assert!(!m.content.contains("$user"));
    }
}
