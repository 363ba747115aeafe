//! Active member tracking: per chat, the humans who spoke most recently,
//! newest first.
use vstd::prelude::*;

use std::collections::HashMap;

use crate::config::MAX_ACTIVE_MEMBERS_TRACKED;
use crate::types::{display_name, format_username, members_view, ChatId, Member, Sender, UserId};
use crate::utils::random_usize;

verus! {

broadcast use vstd::seq_lib::group_seq_properties;

/// No two entries share an identifier.
pub open spec fn distinct_ids(q: Seq<(UserId, Seq<char>)>) -> bool {
    forall|i: int, j: int| 0 <= i < j < q.len() ==> (#[trigger] q[i]).0 != (#[trigger] q[j]).0
}

/// Entries whose identifier is not `id`.
pub open spec fn other_than(id: UserId) -> spec_fn((UserId, Seq<char>)) -> bool {
    |m: (UserId, Seq<char>)| m.0 != id
}

/// A filtered sequence keeps distinct identifiers distinct.
pub proof fn lemma_filter_distinct(q: Seq<(UserId, Seq<char>)>, pred: spec_fn((UserId, Seq<char>)) -> bool)
    requires
        distinct_ids(q),
    ensures
        distinct_ids(q.filter(pred)),
    decreases q.len(),
{
    reveal(Seq::filter);
    if q.len() > 0 {
        let dl = q.drop_last();
        assert(distinct_ids(dl)) by {
            assert forall|i: int, j: int| 0 <= i < j < dl.len() implies (#[trigger] dl[i]).0 != (
            #[trigger] dl[j]).0 by {
                assert(dl[i] == q[i] && dl[j] == q[j]);
            }
        }
        lemma_filter_distinct(dl, pred);
        if pred(q.last()) {
            let f = dl.filter(pred);
            assert forall|i: int| 0 <= i < f.len() implies (#[trigger] f[i]).0 != q.last().0 by {
                assert(f.contains(f[i]));
                dl.lemma_filter_contains_rev(pred, f[i]);
                let k = choose|k: int| 0 <= k < dl.len() && dl[k] == f[i];
                assert(q[k] == dl[k]);
                assert(q[k].0 != q[q.len() - 1].0);
            }
            assert(distinct_ids(f.push(q.last())));
        }
    }
}

/// The queue after `(id, name)` speaks: moved to the front, any older entry
/// of the same user dropped, and the oldest entry dropped beyond the limit.
pub open spec fn after_tracking(q: Seq<(UserId, Seq<char>)>, id: UserId, name: Seq<char>) -> Seq<
    (UserId, Seq<char>),
> {
    let moved = seq![(id, name)] + q.filter(other_than(id));
    if moved.len() > MAX_ACTIVE_MEMBERS_TRACKED {
        moved.drop_last()
    } else {
        moved
    }
}

/// A queue the tracker can hold: within the limit, one entry per user.
pub open spec fn queue_ok(q: Seq<(UserId, Seq<char>)>) -> bool {
    q.len() <= MAX_ACTIVE_MEMBERS_TRACKED && distinct_ids(q)
}

/// The queue a map of member lists holds for a chat.
spec fn members_in(m: Map<ChatId, Vec<Member>>, chat: ChatId) -> Seq<(UserId, Seq<char>)> {
    if m.contains_key(chat) {
        members_view(m[chat]@)
    } else {
        Seq::empty()
    }
}

/// The members tracked in each chat.
pub struct ActiveMembers {
    chats: HashMap<ChatId, Vec<Member>>,
}

impl ActiveMembers {
    /// The members tracked in a chat, newest first.
    pub closed spec fn members_of(self, chat: ChatId) -> Seq<(UserId, Seq<char>)> {
        members_in(self.chats@, chat)
    }

    /// Every chat's queue is one the tracker can hold.
    #[verifier::type_invariant]
    spec fn wf(self) -> bool {
        forall|c: ChatId| #[trigger] queue_ok(self.members_of(c))
    }

    pub fn new() -> (r: ActiveMembers)
        ensures
            forall|c: ChatId| #[trigger] r.members_of(c) == Seq::<(UserId, Seq<char>)>::empty(),
    {
        let r = ActiveMembers { chats: HashMap::new() };
        assert forall|c: ChatId| #[trigger] queue_ok(r.members_of(c)) by {
            assert(r.members_of(c) =~= Seq::<(UserId, Seq<char>)>::empty());
        }
        r
    }

    /// Track an active member in a chat
    ///
    /// Adds the user to the front of the active members queue,
    /// removing any previous instance and maintaining max size.
    pub fn track_active_member(&mut self, chat: ChatId, user: &Sender)
        ensures
            queue_ok(old(self).members_of(chat)),
            queue_ok(final(self).members_of(chat)),
            final(self).members_of(chat) == after_tracking(
                old(self).members_of(chat),
                user.id,
                display_name(*user),
            ),
            forall|c: ChatId| c != chat ==> #[trigger] final(self).members_of(c) == old(self).members_of(c),
    {
        proof {
            use_type_invariant(&*self);
        }
        let ghost q = self.members_of(chat);
        let ghost before = self.chats@;
        assert(queue_ok(q));
        let mut chats: HashMap<ChatId, Vec<Member>> = HashMap::new();
        std::mem::swap(&mut chats, &mut self.chats);
        let old_list: Vec<Member> = match chats.remove(&chat) {
            Some(v) => v,
            None => Vec::new(),
        };
        assert(members_view(old_list@) =~= q);
        let user_id = user.id;
        let username = format_username(user);
        let ghost pred = other_than(user_id);
        let mut list: Vec<Member> = Vec::new();
        list.push(Member { id: user_id, name: username });
        let mut i: usize = 0;
        while i < old_list.len()
            invariant
                i <= old_list.len(),
                members_view(old_list@) == q,
                pred == other_than(user_id),
                members_view(list@) == seq![(user_id, display_name(*user))] + q.take(i as int).filter(pred),
            decreases old_list.len() - i,
        {
            proof {
                q.take(i as int).lemma_filter_push(q[i as int], pred);
                assert(q.take(i as int + 1) =~= q.take(i as int).push(q[i as int]));
            }
            assert(q[i as int] == old_list@[i as int]@);
            if old_list[i].id != user_id {
                let m = old_list[i].clone();
                let ghost prev = list@;
                list.push(m);
                assert(pred(q[i as int]));
                assert(q.take(i as int + 1).filter(pred) == q.take(i as int).filter(pred).push(q[i as int]));
                assert(members_view(list@) =~= members_view(prev).push(q[i as int]));
                assert(members_view(list@) =~= seq![(user_id, display_name(*user))] + q.take(
                    i as int + 1,
                ).filter(pred));
            } else {
                assert(q.take(i as int + 1).filter(pred) == q.take(i as int).filter(pred));
            }
            i = i + 1;
        }
        assert(q.take(old_list.len() as int) =~= q);
        if list.len() > MAX_ACTIVE_MEMBERS_TRACKED {
            list.pop();
            assert(members_view(list@) =~= (seq![(user_id, display_name(*user))] + q.filter(
                pred,
            )).drop_last());
        }
        chats.insert(chat, list);
        proof {
            let nq = after_tracking(q, user_id, display_name(*user));
            assert(members_in(chats@, chat) == nq);
            lemma_filter_distinct(q, pred);
            let f = q.filter(pred);
            assert forall|k: int| 0 <= k < f.len() implies (#[trigger] f[k]).0 != user_id by {
                q.lemma_filter_pred(pred, k);
            }
            let moved = seq![(user_id, display_name(*user))] + f;
            assert(distinct_ids(moved)) by {
                assert forall|a: int, b: int| 0 <= a < b < moved.len() implies (
                #[trigger] moved[a]).0 != (#[trigger] moved[b]).0 by {
                    if a == 0 {
                        assert(moved[b] == f[b - 1]);
                    } else {
                        assert(moved[a] == f[a - 1] && moved[b] == f[b - 1]);
                    }
                }
            }
            q.lemma_filter_len(pred);
            assert(queue_ok(nq)) by {
                if moved.len() > MAX_ACTIVE_MEMBERS_TRACKED {
                    assert forall|a: int, b: int| 0 <= a < b < nq.len() implies (
                    #[trigger] nq[a]).0 != (#[trigger] nq[b]).0 by {
                        assert(nq[a] == moved[a] && nq[b] == moved[b]);
                    }
                }
            }
            assert forall|c: ChatId| #[trigger] queue_ok(members_in(chats@, c)) by {
                if c != chat {
                    assert(members_in(chats@, c) == members_in(before, c));
                    assert(queue_ok(old(self).members_of(c)));
                }
            }
        }
        self.chats = chats;
    }

    /// The member that `draw` selects among the `pool_size` most recent, or
    /// nothing where none or fewer than `min_members` are tracked.
    pub fn pick_active_member(&self, chat: ChatId, min_members: usize, pool_size: usize, draw: usize) -> (r:
        Option<String>)
        requires
            pool_size > 0,
        ensures
            ({
                let q = self.members_of(chat);
                if q.len() == 0 || q.len() < min_members {
                    r is None
                } else {
                    let n = if q.len() < pool_size { q.len() as int } else { pool_size as int };
                    r is Some && r->0@ == q[(draw as int) % n].1
                }
            }),
    {
        let list = match self.chats.get(&chat) {
            Some(v) => v,
            None => {
                return None;
            },
        };
        if list.len() == 0 || list.len() < min_members {
            return None;
        }
        let n = if list.len() < pool_size {
            list.len()
        } else {
            pool_size
        };
        let index = draw % n;
        Some(list[index].name.clone())
    }

    /// Get a random recent active member from a chat: one of the
    /// `pool_size` most recent. Returns None if there aren't enough active
    /// members.
    pub fn get_random_active_member(&self, chat: ChatId, min_members: usize, pool_size: usize) -> (r:
        Option<String>)
        requires
            pool_size > 0,
        ensures
            ({
                let q = self.members_of(chat);
                if q.len() == 0 || q.len() < min_members {
                    r is None
                } else {
                    r is Some && exists|i: int|
                        0 <= i < q.len() && i < pool_size && r->0@ == (#[trigger] q[i]).1
                }
            }),
    {
        let draw = random_usize();
        let r = self.pick_active_member(chat, min_members, pool_size, draw);
        proof {
            let q = self.members_of(chat);
            if q.len() > 0 && q.len() >= min_members {
                let n = if q.len() < pool_size { q.len() as int } else { pool_size as int };
                let i = (draw as int) % n;
                assert(0 <= i < q.len() && i < pool_size);
                assert(r->0@ == q[i].1);
            }
        }
        r
    }
}

} // verus!
