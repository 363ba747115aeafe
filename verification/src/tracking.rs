//! Message and bot tracking: the recent messages of each chat, newest
//! first, and the other bots seen in it.
use vstd::prelude::*;

use std::collections::HashMap;

use crate::config::MAX_RECENT_MESSAGES;
use crate::members::distinct_ids;
use crate::text::{joined, join_strings, string_views};
use crate::types::{
    display_name, format_username, members_view, stored_view, ChatId, Member, Sender,
    StoredMessage, StoredView, UserId,
};
use crate::utils::random_usize;

verus! {

broadcast use vstd::seq_lib::group_seq_properties;

/// The first `n` items, or all of them where there are fewer.
pub open spec fn take_up_to<A>(s: Seq<A>, n: int) -> Seq<A> {
    if n < s.len() {
        s.take(n)
    } else {
        s
    }
}

/// The queue once `m` has arrived: in front, with the oldest message dropped
/// beyond the limit.
pub open spec fn after_message(q: Seq<StoredView>, m: StoredView) -> Seq<StoredView> {
    let p = seq![m] + q;
    if p.len() > MAX_RECENT_MESSAGES {
        p.drop_last()
    } else {
        p
    }
}

/// The message that `user` sends as `message_id` with `text`, as stored.
pub open spec fn stored_from(message_id: i32, user: Sender, text: Seq<char>) -> StoredView {
    StoredView {
        message_id,
        user_id: user.id,
        username: display_name(user),
        text,
        is_bot: user.is_bot,
    }
}

/// Messages by a given human.
pub open spec fn by_human(user_id: UserId) -> spec_fn(StoredView) -> bool {
    |m: StoredView| m.user_id == user_id && !m.is_bot
}

/// Messages by humans other than the bot itself.
pub open spec fn replyable_by(my_bot_id: UserId) -> spec_fn(StoredView) -> bool {
    |m: StoredView| !m.is_bot && m.user_id != my_bot_id
}

/// Messages by humans.
pub open spec fn from_human() -> spec_fn(StoredView) -> bool {
    |m: StoredView| !m.is_bot
}

/// How a message reads in a context: "name: text".
pub open spec fn context_line(m: StoredView) -> Seq<char> {
    m.username + ": "@ + m.text
}

/// The recent context of a queue: the lines of the human messages among the
/// `limit` newest, joined by newlines.
pub open spec fn context_of(q: Seq<StoredView>, limit: int) -> Seq<char> {
    joined(take_up_to(q, limit).filter(from_human()).map_values(|m: StoredView| context_line(m)), "\n"@)
}

/// The messages a map of message lists holds for a chat.
spec fn messages_in(m: Map<ChatId, Vec<StoredMessage>>, chat: ChatId) -> Seq<StoredView> {
    if m.contains_key(chat) {
        stored_view(m[chat]@)
    } else {
        Seq::empty()
    }
}

/// The bots a map of bot lists holds for a chat.
spec fn bots_in(m: Map<ChatId, Vec<Member>>, chat: ChatId) -> Seq<(UserId, Seq<char>)> {
    if m.contains_key(chat) {
        members_view(m[chat]@)
    } else {
        Seq::empty()
    }
}

/// The recent messages of each chat.
pub struct RecentMessages {
    chats: HashMap<ChatId, Vec<StoredMessage>>,
}

impl RecentMessages {
    /// The messages tracked in a chat, newest first.
    pub closed spec fn messages_of(self, chat: ChatId) -> Seq<StoredView> {
        messages_in(self.chats@, chat)
    }

    /// No chat holds more than the limit.
    #[verifier::type_invariant]
    spec fn wf(self) -> bool {
        forall|c: ChatId| (#[trigger] self.messages_of(c)).len() <= MAX_RECENT_MESSAGES
    }

    pub fn new() -> (r: RecentMessages)
        ensures
            forall|c: ChatId| #[trigger] r.messages_of(c) == Seq::<StoredView>::empty(),
    {
        RecentMessages { chats: HashMap::new() }
    }

    /// Track a message in recent messages
    pub fn track_message(&mut self, chat: ChatId, message_id: i32, user: &Sender, text: &str)
        ensures
            old(self).messages_of(chat).len() <= MAX_RECENT_MESSAGES,
            final(self).messages_of(chat).len() <= MAX_RECENT_MESSAGES,
            final(self).messages_of(chat) == after_message(
                old(self).messages_of(chat),
                stored_from(message_id, *user, text@),
            ),
            forall|c: ChatId| c != chat ==> #[trigger] final(self).messages_of(c) == old(self).messages_of(c),
    {
        proof {
            use_type_invariant(&*self);
        }
        let ghost q = self.messages_of(chat);
        let ghost before = self.chats@;
        let mut chats: HashMap<ChatId, Vec<StoredMessage>> = HashMap::new();
        std::mem::swap(&mut chats, &mut self.chats);
        let mut list: Vec<StoredMessage> = match chats.remove(&chat) {
            Some(v) => v,
            None => Vec::new(),
        };
        assert(stored_view(list@) =~= q);
        let stored = StoredMessage {
            message_id,
            user_id: user.id,
            username: format_username(user),
            text: String::from_str(text),
            is_bot: user.is_bot,
        };
        list.insert(0, stored);
        assert(stored_view(list@) =~= seq![stored_from(message_id, *user, text@)] + q);
        if list.len() > MAX_RECENT_MESSAGES {
            let ghost p = stored_view(list@);
            list.pop();
            assert(stored_view(list@) =~= p.drop_last());
        }
        chats.insert(chat, list);
        proof {
            assert(old(self).messages_of(chat).len() <= MAX_RECENT_MESSAGES);
            assert forall|c: ChatId| (#[trigger] messages_in(chats@, c)).len() <= MAX_RECENT_MESSAGES by {
                if c != chat {
                    assert(messages_in(chats@, c) == messages_in(before, c));
                    assert(old(self).messages_of(c).len() <= MAX_RECENT_MESSAGES);
                }
            }
        }
        self.chats = chats;
    }

    /// Get recent messages from a specific user: the texts of their newest
    /// `limit` messages, sent as a human, newest first.
    pub fn get_user_recent_messages(&self, chat: ChatId, user_id: UserId, limit: usize) -> (r: Vec<
        String,
    >)
        ensures
            string_views(r@) == take_up_to(self.messages_of(chat).filter(by_human(user_id)), limit as int).map_values(
                |m: StoredView| m.text,
            ),
    {
        let ghost pred = by_human(user_id);
        let ghost f = |m: StoredView| m.text;
        let mut out: Vec<String> = Vec::new();
        let list = match self.chats.get(&chat) {
            Some(v) => v,
            None => {
                assert(string_views(out@) =~= take_up_to(self.messages_of(chat).filter(pred), limit as int).map_values(f));
                return out;
            },
        };
        let ghost q = stored_view(list@);
        assert(q == self.messages_of(chat));
        let mut i: usize = 0;
        while i < list.len()
            invariant
                i <= list.len(),
                q == stored_view(list@),
                pred == by_human(user_id),
                f == (|m: StoredView| m.text),
                string_views(out@) == take_up_to(q.take(i as int).filter(pred), limit as int).map_values(f),
            decreases list.len() - i,
        {
            proof {
                q.take(i as int).lemma_filter_push(q[i as int], pred);
                assert(q.take(i as int + 1) =~= q.take(i as int).push(q[i as int]));
            }
            let m = &list[i];
            assert(q[i as int] == m@);
            if m.user_id == user_id && !m.is_bot {
                let ghost s = q.take(i as int).filter(pred);
                assert(string_views(out@).len() == out@.len());
                assert(take_up_to(s, limit as int).map_values(f).len() == take_up_to(s, limit as int).len());
                if out.len() < limit {
                    let ghost prev = string_views(out@);
                    out.push(m.text.clone());
                    assert(take_up_to(s, limit as int) == s);
                    assert(string_views(out@) =~= prev.push(m.text@));
                    assert(take_up_to(s.push(m@), limit as int) =~= s.push(m@));
                    assert(s.push(m@).map_values(f) =~= s.map_values(f).push(f(m@)));
                    assert(string_views(out@) =~= take_up_to(s.push(m@), limit as int).map_values(f));
                } else {
                    assert(take_up_to(s.push(m@), limit as int) =~= take_up_to(s, limit as int));
                }
            }
            i = i + 1;
        }
        assert(q.take(list.len() as int) =~= q);
        out
    }

    /// The messages Momo may answer on her own: among the human messages not
    /// her own, the ten newest.
    pub open spec fn replyable(self, chat: ChatId, my_bot_id: UserId) -> Seq<StoredView> {
        take_up_to(self.messages_of(chat).filter(replyable_by(my_bot_id)), 10)
    }

    /// The replyable message that `draw` selects, as (message id, username, text).
    pub fn pick_replyable_message(&self, chat: ChatId, my_bot_id: UserId, draw: usize) -> (r: Option<
        (i32, String, String),
    >)
        ensures
            ({
                let c = self.replyable(chat, my_bot_id);
                if c.len() == 0 {
                    r is None
                } else {
                    let m = c[(draw as int) % (c.len() as int)];
                    r matches Some((id, name, text)) && id == m.message_id && name@ == m.username && text@ == m.text
                }
            }),
    {
        let ghost pred = replyable_by(my_bot_id);
        let list = match self.chats.get(&chat) {
            Some(v) => v,
            None => {
                assert(self.replyable(chat, my_bot_id) =~= Seq::<StoredView>::empty());
                return None;
            },
        };
        let ghost q = stored_view(list@);
        assert(q == self.messages_of(chat));
        let mut picked: Vec<usize> = Vec::new();
        let mut i: usize = 0;
        while i < list.len()
            invariant
                i <= list.len(),
                q == stored_view(list@),
                pred == replyable_by(my_bot_id),
                picked@.len() == take_up_to(q.take(i as int).filter(pred), 10).len(),
                forall|k: int|
                    0 <= k < picked@.len() ==> #[trigger] picked@[k] < list.len() && q[picked@[k] as int]
                        == take_up_to(q.take(i as int).filter(pred), 10)[k],
            decreases list.len() - i,
        {
            proof {
                q.take(i as int).lemma_filter_push(q[i as int], pred);
                assert(q.take(i as int + 1) =~= q.take(i as int).push(q[i as int]));
            }
            let m = &list[i];
            assert(q[i as int] == m@);
            if !m.is_bot && m.user_id != my_bot_id {
                let ghost s = q.take(i as int).filter(pred);
                if picked.len() < 10 {
                    picked.push(i);
                    assert(take_up_to(s, 10) == s);
                    assert(take_up_to(s.push(m@), 10) == s.push(m@));
                } else {
                    assert(take_up_to(s.push(m@), 10) =~= take_up_to(s, 10));
                }
            }
            i = i + 1;
        }
        assert(q.take(list.len() as int) =~= q);
        if picked.len() == 0 {
            return None;
        }
        let idx = picked[draw % picked.len()];
        let m = &list[idx];
        Some((m.message_id, m.username.clone(), m.text.clone()))
    }

    /// Get a recent message to reply to (excluding bots and self): one of
    /// the replyable messages, at random.
    pub fn get_random_replyable_message(&self, chat: ChatId, my_bot_id: UserId) -> (r: Option<
        (i32, String, String),
    >)
        ensures
            ({
                let c = self.replyable(chat, my_bot_id);
                if c.len() == 0 {
                    r is None
                } else {
                    r matches Some((id, name, text)) && exists|k: int|
                        0 <= k < c.len() && id == (#[trigger] c[k]).message_id && name@
                            == c[k].username && text@ == c[k].text
                }
            }),
    {
        let draw = random_usize();
        let r = self.pick_replyable_message(chat, my_bot_id, draw);
        proof {
            let c = self.replyable(chat, my_bot_id);
            if c.len() > 0 {
                let k = (draw as int) % (c.len() as int);
                assert(r matches Some((id, name, text)) && id == c[k].message_id && name@ == c[k].username && text@ == c[k].text);
            }
        }
        r
    }

    /// Get recent conversation context: the human messages among the `limit`
    /// newest, as "name: text" lines joined by newlines.
    pub fn get_recent_context(&self, chat: ChatId, limit: usize) -> (r: String)
        ensures
            r@ == context_of(self.messages_of(chat), limit as int),
    {
        let ghost pred = from_human();
        let ghost f = |m: StoredView| context_line(m);
        let mut lines: Vec<String> = Vec::new();
        let list = match self.chats.get(&chat) {
            Some(v) => v,
            None => {
                assert(take_up_to(self.messages_of(chat), limit as int).filter(pred) =~= Seq::<StoredView>::empty());
                assert(string_views(lines@) =~= take_up_to(self.messages_of(chat), limit as int).filter(pred).map_values(f));
                return join_strings(lines.as_slice(), "\n");
            },
        };
        let ghost q = stored_view(list@);
        assert(q == self.messages_of(chat));
        let n = if list.len() < limit {
            list.len()
        } else {
            limit
        };
        assert(take_up_to(q, limit as int) =~= q.take(n as int));
        let mut i: usize = 0;
        while i < n
            invariant
                i <= n <= list.len(),
                q == stored_view(list@),
                pred == from_human(),
                f == (|m: StoredView| context_line(m)),
                string_views(lines@) == q.take(i as int).filter(pred).map_values(f),
            decreases n - i,
        {
            proof {
                q.take(i as int).lemma_filter_push(q[i as int], pred);
                assert(q.take(i as int + 1) =~= q.take(i as int).push(q[i as int]));
            }
            let m = &list[i];
            assert(q[i as int] == m@);
            if !m.is_bot {
                let mut line = m.username.clone();
                line.append(": ");
                line.append(m.text.as_str());
                let ghost s = q.take(i as int).filter(pred);
                let ghost prev = string_views(lines@);
                assert(line@ == context_line(m@));
                lines.push(line);
                assert(string_views(lines@) =~= prev.push(context_line(m@)));
                assert(s.push(m@).map_values(f) =~= s.map_values(f).push(f(m@)));
                assert(string_views(lines@) =~= s.push(m@).map_values(f));
            }
            i = i + 1;
        }
        join_strings(lines.as_slice(), "\n")
    }

    /// Extract a topic from recent conversation: the context of the five
    /// newest messages, if there is any.
    pub fn extract_topic_from_recent(&self, chat: ChatId) -> (r: Option<String>)
        ensures
            ({
                let ctx = context_of(self.messages_of(chat), 5);
                if ctx.len() == 0 {
                    r is None
                } else {
                    r is Some && r->0@ == ctx
                }
            }),
    {
        let context = self.get_recent_context(chat, 5);
        if context.as_str().unicode_len() == 0 {
            return None;
        }
        Some(context)
    }

    /// The author of the newest human message signed `username`, if any.
    pub fn find_user_id(&self, chat: ChatId, username: &str) -> (r: Option<UserId>)
        ensures
            r == first_named(self.messages_of(chat), username@),
    {
        let list = match self.chats.get(&chat) {
            Some(v) => v,
            None => {
                return None;
            },
        };
        let ghost q = stored_view(list@);
        assert(q == self.messages_of(chat));
        assert(q.skip(0) =~= q);
        let mut i: usize = 0;
        while i < list.len()
            invariant
                i <= list.len(),
                q == stored_view(list@),
                q == self.messages_of(chat),
                first_named(q, username@) == first_named(q.skip(i as int), username@),
            decreases list.len() - i,
        {
            let m = &list[i];
            assert(q[i as int] == m@);
            assert(q.skip(i as int)[0] == q[i as int]);
            if !m.is_bot && crate::text::str_eq(m.username.as_str(), username) {
                return Some(m.user_id);
            }
            assert(q.skip(i as int).drop_first() =~= q.skip(i as int + 1));
            i = i + 1;
        }
        assert(q.skip(list.len() as int) =~= Seq::<StoredView>::empty());
        None
    }
}

/// The author of the first human message in `q` signed `name`, if any.
pub open spec fn first_named(q: Seq<StoredView>, name: Seq<char>) -> Option<UserId>
    decreases q.len(),
{
    if q.len() == 0 {
        None
    } else if q[0].username == name && !q[0].is_bot {
        Some(q[0].user_id)
    } else {
        first_named(q.drop_first(), name)
    }
}

/// The bot list once `(id, name)` is seen: added at the end unless a bot
/// with that identifier is already there.
pub open spec fn after_bot(list: Seq<(UserId, Seq<char>)>, id: UserId, name: Seq<char>) -> Seq<
    (UserId, Seq<char>),
> {
    if exists|k: int| 0 <= k < list.len() && (#[trigger] list[k]).0 == id {
        list
    } else {
        list.push((id, name))
    }
}

/// The bots other than Momo herself.
pub open spec fn not_me(my_bot_id: UserId) -> spec_fn((UserId, Seq<char>)) -> bool {
    |b: (UserId, Seq<char>)| b.0 != my_bot_id
}

/// The other bots seen in each chat.
pub struct ChatBots {
    chats: HashMap<ChatId, Vec<Member>>,
}

impl ChatBots {
    /// The bots seen in a chat, in the order they were first seen.
    pub closed spec fn bots_of(self, chat: ChatId) -> Seq<(UserId, Seq<char>)> {
        bots_in(self.chats@, chat)
    }

    /// No bot is listed twice in a chat.
    #[verifier::type_invariant]
    spec fn wf(self) -> bool {
        forall|c: ChatId| #[trigger] distinct_ids(self.bots_of(c))
    }

    pub fn new() -> (r: ChatBots)
        ensures
            forall|c: ChatId| #[trigger] r.bots_of(c) == Seq::<(UserId, Seq<char>)>::empty(),
    {
        ChatBots { chats: HashMap::new() }
    }

    /// Track a bot user in the chat
    pub fn track_bot(&mut self, chat: ChatId, bot_user: &Sender)
        ensures
            distinct_ids(old(self).bots_of(chat)),
            distinct_ids(final(self).bots_of(chat)),
            final(self).bots_of(chat) == after_bot(old(self).bots_of(chat), bot_user.id, display_name(*bot_user)),
            forall|c: ChatId| c != chat ==> #[trigger] final(self).bots_of(c) == old(self).bots_of(c),
    {
        proof {
            use_type_invariant(&*self);
        }
        let ghost q = self.bots_of(chat);
        let ghost before = self.chats@;
        let mut chats: HashMap<ChatId, Vec<Member>> = HashMap::new();
        std::mem::swap(&mut chats, &mut self.chats);
        let mut list: Vec<Member> = match chats.remove(&chat) {
            Some(v) => v,
            None => Vec::new(),
        };
        assert(members_view(list@) =~= q);
        let bot_id = bot_user.id;
        let mut found = false;
        let mut i: usize = 0;
        while i < list.len()
            invariant
                i <= list.len(),
                members_view(list@) == q,
                found == exists|k: int| 0 <= k < i && (#[trigger] q[k]).0 == bot_id,
            decreases list.len() - i,
        {
            assert(q[i as int] == list@[i as int]@);
            if list[i].id == bot_id {
                found = true;
            }
            i = i + 1;
        }
        if !found {
            let ghost prev = list@;
            list.push(Member { id: bot_id, name: format_username(bot_user) });
            assert(members_view(list@) =~= q.push((bot_id, display_name(*bot_user))));
        }
        chats.insert(chat, list);
        proof {
            assert(distinct_ids(old(self).bots_of(chat)));
            let nq = bots_in(chats@, chat);
            if !found {
                assert forall|a: int, b: int| 0 <= a < b < nq.len() implies (#[trigger] nq[a]).0 != (
                #[trigger] nq[b]).0 by {
                    if b == q.len() {
                        assert(nq[a] == q[a]);
                    } else {
                        assert(nq[a] == q[a] && nq[b] == q[b]);
                    }
                }
            }
            assert forall|c: ChatId| #[trigger] distinct_ids(bots_in(chats@, c)) by {
                if c != chat {
                    assert(bots_in(chats@, c) == bots_in(before, c));
                    assert(distinct_ids(old(self).bots_of(c)));
                }
            }
        }
        self.chats = chats;
    }

    /// The other bot that `draw` selects, if there is any.
    pub fn pick_bot(&self, chat: ChatId, my_bot_id: UserId, draw: usize) -> (r: Option<String>)
        ensures
            ({
                let others = self.bots_of(chat).filter(not_me(my_bot_id));
                if others.len() == 0 {
                    r is None
                } else {
                    r is Some && r->0@ == others[(draw as int) % (others.len() as int)].1
                }
            }),
    {
        let ghost pred = not_me(my_bot_id);
        let list = match self.chats.get(&chat) {
            Some(v) => v,
            None => {
                assert(self.bots_of(chat).filter(pred) =~= Seq::<(UserId, Seq<char>)>::empty());
                return None;
            },
        };
        let ghost q = members_view(list@);
        assert(q == self.bots_of(chat));
        let mut picked: Vec<usize> = Vec::new();
        let mut i: usize = 0;
        while i < list.len()
            invariant
                i <= list.len(),
                q == members_view(list@),
                pred == not_me(my_bot_id),
                picked@.len() == q.take(i as int).filter(pred).len(),
                forall|k: int|
                    0 <= k < picked@.len() ==> #[trigger] picked@[k] < list.len() && q[picked@[k] as int]
                        == q.take(i as int).filter(pred)[k],
            decreases list.len() - i,
        {
            proof {
                q.take(i as int).lemma_filter_push(q[i as int], pred);
                assert(q.take(i as int + 1) =~= q.take(i as int).push(q[i as int]));
            }
            assert(q[i as int] == list@[i as int]@);
            if list[i].id != my_bot_id {
                picked.push(i);
            }
            i = i + 1;
        }
        assert(q.take(list.len() as int) =~= q);
        if picked.len() == 0 {
            return None;
        }
        let idx = picked[draw % picked.len()];
        Some(list[idx].name.clone())
    }

    /// Get a random bot from the chat (excluding self)
    pub fn get_random_bot(&self, chat: ChatId, my_bot_id: UserId) -> (r: Option<String>)
        ensures
            ({
                let others = self.bots_of(chat).filter(not_me(my_bot_id));
                if others.len() == 0 {
                    r is None
                } else {
                    r is Some && exists|k: int|
                        0 <= k < others.len() && r->0@ == (#[trigger] others[k]).1
                }
            }),
    {
        let draw = random_usize();
        let r = self.pick_bot(chat, my_bot_id, draw);
        proof {
            let others = self.bots_of(chat).filter(not_me(my_bot_id));
            if others.len() > 0 {
                let k = (draw as int) % (others.len() as int);
                assert(r->0@ == others[k].1);
            }
        }
        r
    }
}

} // verus!
