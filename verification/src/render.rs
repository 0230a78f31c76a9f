//! Mention-safe rendering: the content of a message with the mentions of
//! users and roles replaced by names, and the mentions of everyone made
//! harmless.

use vstd::prelude::*;
use crate::cache::CacheSnapshot;
use crate::id::{nickname_mention, role_mention, user_mention, RoleId};
use crate::message::Message;
use crate::text::{
    append, clears, contains, find, from_chars, lacks, lemma_replace_absent,
    lemma_replace_clears, push_zero_padded, replace, replace_all, to_chars, zero_padded,
};
use crate::user::User;

verus! {

/// How a mentioned user is shown: `@`, the name, `#`, and the discriminator
/// in at least four digits.
pub open spec fn user_display(user: User) -> Seq<char> {
    seq!['@'] + user.name@ + seq!['#'] + zero_padded(user.discriminator as nat, 4)
}

/// The token by which `text` mentions a user: the plain one where it occurs,
/// else the one with the nickname mark.
pub open spec fn user_token(text: Seq<char>, user: User) -> Seq<char> {
    if contains(text, user_mention(user.id)) {
        user_mention(user.id)
    } else {
        nickname_mention(user.id)
    }
}

/// `text` with the mentions of one user replaced.
pub open spec fn render_user(text: Seq<char>, user: User) -> Seq<char> {
    replace_all(text, user_token(text, user), user_display(user))
}

/// `text` with the mentions of the given users replaced, one user after the
/// other.
pub open spec fn render_users(text: Seq<char>, users: Seq<User>) -> Seq<char>
    decreases users.len(),
{
    if users.len() == 0 {
        text
    } else {
        render_user(render_users(text, users.drop_last()), users.last())
    }
}

/// How a role that cannot be named is shown.
pub open spec fn deleted_role() -> Seq<char> {
    "@deleted-role"@
}

/// How a mentioned role is shown: `@` and its name where the cache knows the
/// role, else as a deleted role.
pub open spec fn role_display(cache: Option<&CacheSnapshot>, id: RoleId) -> Seq<char> {
    match cache {
        Some(snapshot) => match snapshot.role_name_of(id) {
            Some(name) => seq!['@'] + name,
            None => deleted_role(),
        },
        None => deleted_role(),
    }
}

/// `text` with the mentions of the given roles replaced, one role after the
/// other.
pub open spec fn render_roles(
    text: Seq<char>,
    roles: Seq<RoleId>,
    cache: Option<&CacheSnapshot>,
) -> Seq<char>
    decreases roles.len(),
{
    if roles.len() == 0 {
        text
    } else {
        replace_all(
            render_roles(text, roles.drop_last(), cache),
            role_mention(roles.last()),
            role_display(cache, roles.last()),
        )
    }
}

/// `text` with a zero-width space behind the `@` of every `@everyone`, and
/// then of every `@here`.
pub open spec fn render_everyone(text: Seq<char>) -> Seq<char> {
    replace_all(
        replace_all(text, "@everyone"@, "@\u{200B}everyone"@),
        "@here"@,
        "@\u{200B}here"@,
    )
}

/// The mention-safe rendering of `text`: the users first, then the roles,
/// and the mentions of everyone last.
pub open spec fn render_safe(
    text: Seq<char>,
    users: Seq<User>,
    roles: Seq<RoleId>,
    cache: Option<&CacheSnapshot>,
) -> Seq<char> {
    render_everyone(render_roles(render_users(text, users), roles, cache))
}

/// Whether `text` holds nothing that the rendering replaces: no mention of
/// one of the users, plain or by nickname, none of one of the roles, and
/// neither `@everyone` nor `@here`.
pub open spec fn already_safe(text: Seq<char>, users: Seq<User>, roles: Seq<RoleId>) -> bool {
    &&& forall|i: int|
        0 <= i < users.len() ==> !contains(text, user_mention((#[trigger] users[i]).id))
            && !contains(text, nickname_mention(users[i].id))
    &&& forall|i: int| 0 <= i < roles.len() ==> !contains(text, role_mention(#[trigger] roles[i]))
    &&& !contains(text, "@everyone"@)
    &&& !contains(text, "@here"@)
}

/// The characters by which one user is shown.
fn user_display_chars(user: &User) -> (r: Vec<char>)
    ensures
        r@ == user_display(*user),
{
    let mut out: Vec<char> = Vec::new();
    out.push('@');
    append(&mut out, &to_chars(user.name.as_str()));
    out.push('#');
    push_zero_padded(&mut out, user.discriminator as u64, 4);
    assert(out@ == user_display(*user));
    out
}

/// The characters by which one role is shown.
fn role_display_chars(cache: Option<&CacheSnapshot>, id: RoleId) -> (r: Vec<char>)
    ensures
        r@ == role_display(cache, id),
{
    let found = match cache {
        Some(snapshot) => snapshot.role(id),
        None => None,
    };
    match found {
        Some(role) => {
            let mut out: Vec<char> = Vec::new();
            out.push('@');
            append(&mut out, &to_chars(role.name.as_str()));
            assert(out@ == seq!['@'] + role.name@);
            out
        },
        None => to_chars("@deleted-role"),
    }
}

impl Message {
    /// Returns the content of the message with the mentions of users and
    /// roles replaced by names, and the mentions of everyone and of whoever
    /// is here made harmless. Without a cache every role counts as deleted.
    pub fn content_safe(&self, cache: Option<&CacheSnapshot>) -> (r: String)
        ensures
            r@ == render_safe(self.content@, self.mentions@, self.mention_roles@, cache),
    {
        let mut result = to_chars(self.content.as_str());
        // First replace all user mentions.
        let mut i: usize = 0;
        while i < self.mentions.len()
            invariant
                i <= self.mentions@.len(),
                result@ == render_users(self.content@, self.mentions@.take(i as int)),
            decreases self.mentions@.len() - i,
        {
            let u = &self.mentions[i];
            proof {
                let next = self.mentions@.take(i + 1);
                assert(next.drop_last() == self.mentions@.take(i as int));
                assert(next.last() == *u);
            }
            let at_distinct = user_display_chars(u);
            let mut m = u.id.mention_chars();
            // A text without the plain mention holds the mention by nickname.
            if !find(&result, &m) {
                m = u.id.nickname_mention_chars();
            }
            result = replace(&result, &m, &at_distinct);
            i += 1;
        }
        assert(self.mentions@.take(i as int) == self.mentions@);
        // Then replace all role mentions.
        let ghost users_done = result@;
        let mut k: usize = 0;
        while k < self.mention_roles.len()
            invariant
                k <= self.mention_roles@.len(),
                result@ == render_roles(users_done, self.mention_roles@.take(k as int), cache),
            decreases self.mention_roles@.len() - k,
        {
            let id = self.mention_roles[k];
            proof {
                let next = self.mention_roles@.take(k + 1);
                assert(next.drop_last() == self.mention_roles@.take(k as int));
                assert(next.last() == id);
            }
            let mention = id.mention_chars();
            let shown = role_display_chars(cache, id);
            result = replace(&result, &mention, &shown);
            k += 1;
        }
        assert(self.mention_roles@.take(k as int) == self.mention_roles@);
        // And finally replace everyone and here mentions.
        result = replace(&result, &to_chars("@everyone"), &to_chars("@\u{200B}everyone"));
        result = replace(&result, &to_chars("@here"), &to_chars("@\u{200B}here"));
        from_chars(&result)
    }
}

/// Rendering users leaves a text as it is where it mentions none of them.
pub proof fn lemma_render_users_unchanged(text: Seq<char>, users: Seq<User>)
    requires
        forall|i: int|
            0 <= i < users.len() ==> !contains(text, user_mention((#[trigger] users[i]).id))
                && !contains(text, nickname_mention(users[i].id)),
    ensures
        render_users(text, users) == text,
    decreases users.len(),
{
    if users.len() > 0 {
        let before = users.drop_last();
        assert forall|i: int| 0 <= i < before.len() implies !contains(
            text,
            user_mention((#[trigger] before[i]).id),
        ) && !contains(text, nickname_mention(before[i].id)) by {
            assert(before[i] == users[i]);
        }
        lemma_render_users_unchanged(text, before);
        let user = users.last();
        assert(user == users[users.len() - 1]);
        assert(nickname_mention(user.id).len() > 0);
        lemma_replace_absent(text, nickname_mention(user.id), user_display(user));
    }
}

/// Rendering roles leaves a text as it is where it mentions none of them.
pub proof fn lemma_render_roles_unchanged(
    text: Seq<char>,
    roles: Seq<RoleId>,
    cache: Option<&CacheSnapshot>,
)
    requires
        forall|i: int| 0 <= i < roles.len() ==> !contains(text, role_mention(#[trigger] roles[i])),
    ensures
        render_roles(text, roles, cache) == text,
    decreases roles.len(),
{
    if roles.len() > 0 {
        let before = roles.drop_last();
        assert forall|i: int| 0 <= i < before.len() implies !contains(
            text,
            role_mention(#[trigger] before[i]),
        ) by {
            assert(before[i] == roles[i]);
        }
        lemma_render_roles_unchanged(text, before, cache);
        let role = roles.last();
        assert(role == roles[roles.len() - 1]);
        assert(role_mention(role).len() > 0);
        lemma_replace_absent(text, role_mention(role), role_display(cache, role));
    }
}

/// Mention-safe rendering returns a text that is already safe as it is, so
/// rendering it again changes nothing either.
pub proof fn lemma_render_safe_idempotent(
    text: Seq<char>,
    users: Seq<User>,
    roles: Seq<RoleId>,
    cache: Option<&CacheSnapshot>,
)
    requires
        already_safe(text, users, roles),
    ensures
        render_safe(text, users, roles, cache) == text,
        render_safe(render_safe(text, users, roles, cache), users, roles, cache) == render_safe(
            text,
            users,
            roles,
            cache,
        ),
{
    lemma_render_users_unchanged(text, users);
    lemma_render_roles_unchanged(text, roles, cache);
    reveal_strlit("@everyone");
    reveal_strlit("@here");
    lemma_replace_absent(text, "@everyone"@, "@\u{200B}everyone"@);
    lemma_replace_absent(text, "@here"@, "@\u{200B}here"@);
}

/// What the last pass puts in the place of the two mentions cannot bring
/// either of them about.
proof fn lemma_everyone_patterns()
    ensures
        clears("@everyone"@, "@\u{200B}everyone"@, "@everyone"@, '@'),
        clears("@here"@, "@\u{200B}here"@, "@here"@, '@'),
        clears("@here"@, "@\u{200B}here"@, "@everyone"@, '@'),
{
    reveal_strlit("@everyone");
    reveal_strlit("@here");
    reveal_strlit("@\u{200B}everyone");
    reveal_strlit("@\u{200B}here");
    let everyone = "@everyone"@;
    let here = "@here"@;
    let safe_everyone = "@\u{200B}everyone"@;
    let safe_here = "@\u{200B}here"@;
    assert(everyone.len() == 9 && here.len() == 5 && safe_everyone.len() == 10 && safe_here.len()
        == 6);
    assert(lacks(everyone.skip(1), '@')) by {
        assert(everyone[1] == 'e' && everyone[2] == 'v' && everyone[3] == 'e' && everyone[4] == 'r'
            && everyone[5] == 'y' && everyone[6] == 'o' && everyone[7] == 'n' && everyone[8]
            == 'e');
    }
    assert(lacks(here.skip(1), '@')) by {
        assert(here[1] == 'h' && here[2] == 'e' && here[3] == 'r' && here[4] == 'e');
    }
    assert(lacks(safe_everyone.skip(1), '@')) by {
        assert(safe_everyone[1] == '\u{200B}' && safe_everyone[2] == 'e' && safe_everyone[3] == 'v'
            && safe_everyone[4] == 'e' && safe_everyone[5] == 'r' && safe_everyone[6] == 'y'
            && safe_everyone[7] == 'o' && safe_everyone[8] == 'n' && safe_everyone[9] == 'e');
    }
    assert(lacks(safe_here.skip(1), '@')) by {
        assert(safe_here[1] == '\u{200B}' && safe_here[2] == 'h' && safe_here[3] == 'e'
            && safe_here[4] == 'r' && safe_here[5] == 'e');
    }
    assert(everyone[0] == '@' && here[0] == '@' && safe_everyone[0] == '@' && safe_here[0] == '@');
    assert(safe_everyone[1] != everyone[1]);
    assert(safe_here[1] != here[1]);
    assert(safe_here[1] != everyone[1]);
}

/// After the last pass a text mentions neither everyone nor whoever is here,
/// whatever it held before.
pub proof fn lemma_render_everyone_clears(text: Seq<char>)
    ensures
        !contains(render_everyone(text), "@everyone"@),
        !contains(render_everyone(text), "@here"@),
{
    lemma_everyone_patterns();
    let first = replace_all(text, "@everyone"@, "@\u{200B}everyone"@);
    lemma_replace_clears(text, "@everyone"@, "@\u{200B}everyone"@, "@everyone"@, '@');
    lemma_replace_clears(first, "@here"@, "@\u{200B}here"@, "@here"@, '@');
    lemma_replace_clears(first, "@here"@, "@\u{200B}here"@, "@everyone"@, '@');
}

/// The mention-safe rendering of any text, with any users, roles and cache,
/// mentions neither everyone nor whoever is here.
pub proof fn lemma_render_safe_mentions_no_one(
    text: Seq<char>,
    users: Seq<User>,
    roles: Seq<RoleId>,
    cache: Option<&CacheSnapshot>,
)
    ensures
        !contains(render_safe(text, users, roles, cache), "@everyone"@),
        !contains(render_safe(text, users, roles, cache), "@here"@),
{
    lemma_render_everyone_clears(render_roles(render_users(text, users), roles, cache));
}

/// The last pass is idempotent on every text, and so is the whole rendering
/// of a message that lists no users and no roles.
pub proof fn lemma_render_everyone_idempotent(text: Seq<char>, cache: Option<&CacheSnapshot>)
    ensures
        render_everyone(render_everyone(text)) == render_everyone(text),
        render_safe(
            render_safe(text, Seq::empty(), Seq::empty(), cache),
            Seq::empty(),
            Seq::empty(),
            cache,
        ) == render_safe(text, Seq::empty(), Seq::empty(), cache),
{
    let once = render_everyone(text);
    lemma_render_everyone_clears(text);
    reveal_strlit("@everyone");
    reveal_strlit("@here");
    lemma_replace_absent(once, "@everyone"@, "@\u{200B}everyone"@);
    lemma_replace_absent(once, "@here"@, "@\u{200B}here"@);
}

} // verus!
