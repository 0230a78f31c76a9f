//! The content that is shown for system messages. For a notice of a pin and
//! for a notice of a member who joined, the content is made here, whatever
//! content the remote service sent.

use vstd::prelude::*;
use crate::id::{user_mention, UserId};
use crate::message::{Message, MessageType};
use crate::text::{append, from_chars, replace, replace_all, to_chars};

verus! {

/// How many messages greet a member who joined.
pub const JOIN_MESSAGE_COUNT: u64 = 21;

/// The message that greets a member who joined, by its number. `$user`
/// stands for the member. A number beyond the last gives the last message.
pub open spec fn join_template(index: int) -> Seq<char> {
    if index == 0 {
        "$user just joined the server - glhf!"@
    } else if index == 1 {
        "$user just joined. Everyone, look busy!"@
    } else if index == 2 {
        "$user just joined. Can I get a heal?"@
    } else if index == 3 {
        "$user joined your party."@
    } else if index == 4 {
        "$user joined. You must construct additional pylons."@
    } else if index == 5 {
        "Ermagherd. $user is here."@
    } else if index == 6 {
        "Welcome, $user. Stay awhile and listen."@
    } else if index == 7 {
        "Welcome, $user. We were expecting you ( \u{0361}\u{00B0} \u{035C}\u{0296} \u{0361}\u{00B0})"@
    } else if index == 8 {
        "Welcome, $user. We hope you brought pizza."@
    } else if index == 9 {
        "Welcome $user. Leave your weapons by the door."@
    } else if index == 10 {
        "A wild $user appeared."@
    } else if index == 11 {
        "Swoooosh. $user just landed."@
    } else if index == 12 {
        "Brace yourselves. $user just joined the server."@
    } else if index == 13 {
        "$user just joined. Hide your bananas."@
    } else if index == 14 {
        "$user just arrived. Seems OP - please nerf."@
    } else if index == 15 {
        "$user just slid into the server."@
    } else if index == 16 {
        "A $user has spawned in the server."@
    } else if index == 17 {
        "Big $user showed up!"@
    } else if index == 18 {
        "Where\u{2019}s $user? In the server!"@
    } else if index == 19 {
        "$user hopped into the server. Kangaroo!!"@
    } else {
        "$user just showed up. Hold my beer."@
    }
}

/// The seconds of a timestamp as an unsigned 64-bit number: a time before
/// the epoch wraps around.
pub open spec fn wrapped_seconds(secs: i64) -> int {
    if secs >= 0 {
        secs as int
    } else {
        secs + 0x1_0000_0000_0000_0000
    }
}

/// The number of the message that greets a member who joined at the given
/// time. The same time gives the same message.
pub open spec fn join_index(secs: i64) -> int {
    wrapped_seconds(secs) % (JOIN_MESSAGE_COUNT as int)
}

/// What a notice of a pin says.
pub open spec fn pin_notice(author: UserId) -> Seq<char> {
    user_mention(author) + " pinned a message to this channel. See all the pins."@
}

/// What a notice of a member who joined says.
pub open spec fn join_notice(author: UserId, secs: i64) -> Seq<char> {
    replace_all(join_template(join_index(secs)), "$user"@, user_mention(author))
}

/// The content that is shown for a message.
pub open spec fn shown_content(message: Message) -> Seq<char> {
    match message.kind {
        MessageType::PinsAdd => pin_notice(message.author.id),
        MessageType::MemberJoin => join_notice(message.author.id, message.timestamp.secs),
        _ => message.content@,
    }
}

/// The message that greets a member who joined, by its number. A number
/// beyond the last gives the last message.
pub fn join_message(index: u64) -> (r: &'static str)
    ensures
        r@ == join_template(index as int),
{
    if index == 0 {
        "$user just joined the server - glhf!"
    } else if index == 1 {
        "$user just joined. Everyone, look busy!"
    } else if index == 2 {
        "$user just joined. Can I get a heal?"
    } else if index == 3 {
        "$user joined your party."
    } else if index == 4 {
        "$user joined. You must construct additional pylons."
    } else if index == 5 {
        "Ermagherd. $user is here."
    } else if index == 6 {
        "Welcome, $user. Stay awhile and listen."
    } else if index == 7 {
        "Welcome, $user. We were expecting you ( \u{0361}\u{00B0} \u{035C}\u{0296} \u{0361}\u{00B0})"
    } else if index == 8 {
        "Welcome, $user. We hope you brought pizza."
    } else if index == 9 {
        "Welcome $user. Leave your weapons by the door."
    } else if index == 10 {
        "A wild $user appeared."
    } else if index == 11 {
        "Swoooosh. $user just landed."
    } else if index == 12 {
        "Brace yourselves. $user just joined the server."
    } else if index == 13 {
        "$user just joined. Hide your bananas."
    } else if index == 14 {
        "$user just arrived. Seems OP - please nerf."
    } else if index == 15 {
        "$user just slid into the server."
    } else if index == 16 {
        "A $user has spawned in the server."
    } else if index == 17 {
        "Big $user showed up!"
    } else if index == 18 {
        "Where\u{2019}s $user? In the server!"
    } else if index == 19 {
        "$user hopped into the server. Kangaroo!!"
    } else {
        "$user just showed up. Hold my beer."
    }
}

/// The number of the greeting for a member who joined at the given time.
pub fn join_message_index(secs: i64) -> (r: u64)
    ensures
        r == join_index(secs),
        r < JOIN_MESSAGE_COUNT,
{
    let wrapped: u64 = if secs >= 0 {
        secs as u64
    } else {
        ((secs + i64::MAX) + 1) as u64 + 0x8000_0000_0000_0000
    };
    wrapped % JOIN_MESSAGE_COUNT
}

impl Message {
    /// Puts the content that is shown in the place of the content received:
    /// for a notice of a pin and for a notice of a member who joined. Any
    /// other message stays as it is.
    pub fn transform_content(&mut self)
        ensures
            final(self).content@ == shown_content(*old(self)),
            *final(self) == (Message { content: final(self).content, ..*old(self) }),
    {
        match self.kind {
            MessageType::PinsAdd => {
                let mut text = self.author.id.mention_chars();
                append(
                    &mut text,
                    &to_chars(" pinned a message to this channel. See all the pins."),
                );
                self.content = from_chars(&text);
            },
            MessageType::MemberJoin => {
                let sec = self.timestamp.unix_timestamp();
                let chosen = to_chars(join_message(join_message_index(sec)));
                let text = replace(&chosen, &to_chars("$user"), &self.author.id.mention_chars());
                self.content = from_chars(&text);
            },
            _ => {},
        }
    }
}

} // verus!
