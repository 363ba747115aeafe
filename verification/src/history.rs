//! Conversation history: per chat, the messages exchanged with the model.
use vstd::prelude::*;

use std::collections::HashMap;

use crate::config::MAX_CONVERSATION_HISTORY;
use crate::grok::{extend_messages, messages_view, Message, MessageView};
use crate::types::ChatId;

verus! {

/// The last `n` items, or all of them where there are fewer.
pub open spec fn keep_last<A>(s: Seq<A>, n: int) -> Seq<A> {
    if s.len() > n {
        s.subrange(s.len() - n, s.len() as int)
    } else {
        s
    }
}

/// Conversation history storage: ChatId -> Messages
pub struct ConversationHistory {
    pub chats: HashMap<ChatId, Vec<Message>>,
}

impl ConversationHistory {
    /// The history of a chat, oldest first.
    pub open spec fn history_of(self, chat: ChatId) -> Seq<MessageView> {
        if self.chats@.contains_key(chat) {
            messages_view(self.chats@[chat]@)
        } else {
            Seq::empty()
        }
    }

    pub fn new() -> (r: ConversationHistory)
        ensures
            forall|c: ChatId| #[trigger] r.history_of(c) == Seq::<MessageView>::empty(),
    {
        ConversationHistory { chats: HashMap::new() }
    }

    /// A copy of a chat's history (empty for a chat without one).
    pub fn messages(&self, chat: ChatId) -> (r: Vec<Message>)
        ensures
            messages_view(r@) == self.history_of(chat),
    {
        let mut r: Vec<Message> = Vec::new();
        match self.chats.get(&chat) {
            Some(v) => {
                extend_messages(&mut r, v.as_slice());
            },
            None => {},
        }
        assert(messages_view(r@) =~= self.history_of(chat));
        r
    }

    /// The number of messages in a chat's history.
    pub fn message_count(&self, chat: ChatId) -> (r: usize)
        ensures
            r == self.history_of(chat).len(),
    {
        match self.chats.get(&chat) {
            Some(v) => v.len(),
            None => 0,
        }
    }

    /// Forgets a chat's history.
    pub fn reset(&mut self, chat: ChatId)
        ensures
            final(self).history_of(chat) == Seq::<MessageView>::empty(),
            forall|c: ChatId| c != chat ==> #[trigger] final(self).history_of(c) == old(self).history_of(c),
    {
        self.chats.remove(&chat);
    }

    /// Appends a message to a chat's history.
    pub fn push(&mut self, chat: ChatId, message: Message)
        ensures
            final(self).history_of(chat) == old(self).history_of(chat).push(message@),
            forall|c: ChatId| c != chat ==> #[trigger] final(self).history_of(c) == old(self).history_of(c),
    {
        let ghost q = self.history_of(chat);
        let mut list: Vec<Message> = match self.chats.remove(&chat) {
            Some(v) => v,
            None => Vec::new(),
        };
        assert(messages_view(list@) =~= q);
        list.push(message);
        assert(messages_view(list@) =~= q.push(message@));
        self.chats.insert(chat, list);
    }

    /// Appends a user's message to a chat's history, keeps only the last
    /// `MAX_CONVERSATION_HISTORY` messages, and returns a copy of what is kept.
    pub fn push_and_trim(&mut self, chat: ChatId, message: Message) -> (r: Vec<Message>)
        ensures
            final(self).history_of(chat) == keep_last(
                old(self).history_of(chat).push(message@),
                MAX_CONVERSATION_HISTORY as int,
            ),
            messages_view(r@) == final(self).history_of(chat),
            forall|c: ChatId| c != chat ==> #[trigger] final(self).history_of(c) == old(self).history_of(c),
    {
        self.push(chat, message);
        let ghost q = self.history_of(chat);
        let ghost mid = self.chats@;
        let ghost mid_self = *self;
        assert(forall|c: ChatId| c != chat ==> #[trigger] mid_self.history_of(c) == old(self).history_of(c));
        let list: Vec<Message> = match self.chats.remove(&chat) {
            Some(v) => v,
            None => Vec::new(),
        };
        assert(messages_view(list@) =~= q);
        let mut kept: Vec<Message> = Vec::new();
        if list.len() > MAX_CONVERSATION_HISTORY {
            let start = list.len() - MAX_CONVERSATION_HISTORY;
            let mut i: usize = start;
            while i < list.len()
                invariant
                    start <= i <= list.len(),
                    kept@.len() == i - start,
                    forall|j: int| 0 <= j < i - start ==> #[trigger] kept@[j]@ == list@[start + j]@,
                decreases list.len() - i,
            {
                kept.push(list[i].clone());
                i = i + 1;
            }
            assert(messages_view(kept@) =~= keep_last(q, MAX_CONVERSATION_HISTORY as int));
        } else {
            kept = list;
        }
        let snapshot = self.snapshot_of(&kept);
        self.chats.insert(chat, kept);
        assert forall|c: ChatId| c != chat implies #[trigger] self.history_of(c) == old(self).history_of(c) by {
            assert(mid_self.history_of(c) == old(self).history_of(c));
            assert(self.chats@.contains_key(c) == mid.contains_key(c));
            if mid.contains_key(c) {
                assert(self.chats@[c] == mid[c]);
            }
        }
        snapshot
    }

    /// A copy of a list of messages.
    fn snapshot_of(&self, list: &Vec<Message>) -> (r: Vec<Message>)
        ensures
            messages_view(r@) == messages_view(list@),
    {
        let mut r: Vec<Message> = Vec::new();
        extend_messages(&mut r, list.as_slice());
        assert(messages_view(r@) =~= messages_view(list@));
        r
    }
}

} // verus!
