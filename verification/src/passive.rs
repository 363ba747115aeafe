//! Passive response logic - determining when Momo should respond
use vstd::prelude::*;

use crate::text::{chars_of, lowercase, seq_contains, str_contains, to_lowercase};
use crate::types::{ChatKind, EntityKind, IncomingMessage, MessageEntity, UserId};

verus! {

/// The number of UTF-16 code units that encode `c`.
pub open spec fn utf16_units(c: char) -> nat {
    if (c as u32) < 0x10000 {
        1
    } else {
        2
    }
}

/// The number of UTF-16 code units that encode `s`.
pub open spec fn utf16_len(s: Seq<char>) -> nat
    decreases s.len(),
{
    if s.len() == 0 {
        0
    } else {
        utf16_len(s.drop_last()) + utf16_units(s.last())
    }
}

/// The characters `i..j` of `text` span UTF-16 units `offset..offset + length`.
pub open spec fn spans(text: Seq<char>, offset: int, length: int, i: int, j: int) -> bool {
    0 <= i <= j <= text.len() && utf16_len(text.take(i)) == offset && utf16_len(text.take(j))
        == offset + length
}

/// The text under UTF-16 units `offset..offset + length` of `text`, as
/// decoding that slice of its UTF-16 encoding gives it: none where the span
/// runs past the end or cuts a surrogate pair.
pub open spec fn entity_text(text: Seq<char>, offset: int, length: int) -> Option<Seq<char>> {
    if offset + length > utf16_len(text) {
        None
    } else if length == 0 {
        Some(Seq::empty())
    } else if exists|i: int, j: int| spans(text, offset, length, i, j) {
        let (i, j) = choose|i: int, j: int| spans(text, offset, length, i, j);
        Some(text.subrange(i, j))
    } else {
        None
    }
}

/// Longer prefixes take strictly more UTF-16 units.
proof fn lemma_utf16_strictly_grows(s: Seq<char>, a: int, b: int)
    requires
        0 <= a < b <= s.len(),
    ensures
        utf16_len(s.take(a)) < utf16_len(s.take(b)),
    decreases b - a,
{
    assert(s.take(b).drop_last() =~= s.take(b - 1));
    if a < b - 1 {
        lemma_utf16_strictly_grows(s, a, b - 1);
    }
}

/// Prefixes with the same number of UTF-16 units are the same prefix.
proof fn lemma_utf16_prefix_unique(s: Seq<char>, a: int, b: int)
    requires
        0 <= a <= s.len(),
        0 <= b <= s.len(),
        utf16_len(s.take(a)) == utf16_len(s.take(b)),
    ensures
        a == b,
{
    if a < b {
        lemma_utf16_strictly_grows(s, a, b);
    } else if b < a {
        lemma_utf16_strictly_grows(s, b, a);
    }
}

/// The UTF-16 length of two texts one after the other is the sum of theirs.
proof fn lemma_utf16_len_append(a: Seq<char>, b: Seq<char>)
    ensures
        utf16_len(a + b) == utf16_len(a) + utf16_len(b),
    decreases b.len(),
{
    if b.len() == 0 {
        assert(a + b =~= a);
    } else {
        assert((a + b).drop_last() =~= a + b.drop_last());
        lemma_utf16_len_append(a, b.drop_last());
    }
}

/// An entity that covers a part of a message, counted in UTF-16 units as
/// Telegram counts them, reads back exactly that part, whatever stands
/// before and after it (emoji and other characters outside the basic plane
/// included).
pub proof fn law_entity_reads_its_part(before: Seq<char>, part: Seq<char>, after: Seq<char>)
    ensures
        entity_text(before + part + after, utf16_len(before) as int, utf16_len(part) as int)
            == Some(part),
{
    let text = before + part + after;
    let i = before.len() as int;
    let j = (before.len() + part.len()) as int;
    assert(text.take(i) =~= before);
    assert(text.take(j) =~= before + part);
    lemma_utf16_len_append(before, part);
    lemma_utf16_len_append(before + part, after);
    assert(text =~= (before + part) + after);
    if part.len() == 0 {
        assert(part =~= Seq::<char>::empty());
    } else {
        lemma_utf16_strictly_grows(text, i, j);
        assert(spans(text, utf16_len(before) as int, utf16_len(part) as int, i, j));
        let (ci, cj) = choose|a: int, b: int|
            spans(text, utf16_len(before) as int, utf16_len(part) as int, a, b);
        lemma_utf16_prefix_unique(text, ci, i);
        lemma_utf16_prefix_unique(text, cj, j);
        assert(text.subrange(i, j) =~= part);
    }
}

/// Safely extract text from a message using Telegram's UTF-16 offsets
/// Telegram entities use UTF-16 code units, not byte offsets
pub fn extract_entity_text(text: &str, offset: usize, length: usize) -> (r: Option<String>)
    ensures
        match entity_text(text@, offset as int, length as int) {
            Some(t) => r is Some && r->0@ == t,
            None => r is None,
        },
{
    let cs = chars_of(text);
    let ghost s = text@;
    let end: u128 = offset as u128 + length as u128;
    let mut pos: u128 = 0;
    let mut start_idx: Option<usize> = None;
    let mut end_idx: Option<usize> = None;
    let mut k: usize = 0;
    assert(s.take(0) =~= Seq::<char>::empty());
    while k < cs.len()
        invariant
            cs@ == s,
            k <= cs.len(),
            end == offset + length,
            pos == utf16_len(s.take(k as int)),
            pos <= 2 * k,
            match start_idx {
                Some(i) => i < k && utf16_len(s.take(i as int)) == offset,
                None => forall|i: int| 0 <= i < k ==> utf16_len(#[trigger] s.take(i)) != offset,
            },
            match end_idx {
                Some(j) => j < k && utf16_len(s.take(j as int)) == end,
                None => forall|j: int| 0 <= j < k ==> utf16_len(#[trigger] s.take(j)) != end,
            },
        decreases cs.len() - k,
    {
        if pos == offset as u128 {
            start_idx = Some(k);
        }
        if pos == end {
            end_idx = Some(k);
        }
        let c = cs[k];
        let units: u128 = if (c as u32) < 0x10000 {
            1
        } else {
            2
        };
        assert(s.take(k as int + 1).drop_last() =~= s.take(k as int));
        assert(s.take(k as int + 1).last() == c);
        pos = pos + units;
        k = k + 1;
    }
    assert(s.take(cs.len() as int) =~= s);
    if pos == offset as u128 && start_idx.is_none() {
        start_idx = Some(k);
    }
    if pos == end && end_idx.is_none() {
        end_idx = Some(k);
    }
    if end > pos {
        return None;
    }
    if length == 0 {
        return Some(String::new());
    }
    match (start_idx, end_idx) {
        (Some(i), Some(j)) => {
            proof {
                if j < i {
                    lemma_utf16_strictly_grows(s, j as int, i as int);
                }
                assert(spans(s, offset as int, length as int, i as int, j as int));
                let (ci, cj) = choose|a: int, b: int| spans(s, offset as int, length as int, a, b);
                lemma_utf16_prefix_unique(s, ci, i as int);
                lemma_utf16_prefix_unique(s, cj, j as int);
            }
            Some(String::from_str(text.substring_char(i, j)))
        },
        _ => {
            proof {
                assert forall|a: int, b: int| !spans(s, offset as int, length as int, a, b) by {
                    if spans(s, offset as int, length as int, a, b) {
                        if a < cs.len() {
                            assert(utf16_len(s.take(a)) != offset);
                        }
                        if b < cs.len() {
                            assert(utf16_len(s.take(b)) != end);
                        }
                    }
                }
            }
            None
        },
    }
}

/// The text of a message and its entities: the text, else the caption, else
/// the fallback where it is not empty.
pub open spec fn message_source(msg: IncomingMessage, text_fallback: Seq<char>) -> Option<
    (Seq<char>, Seq<MessageEntity>),
> {
    match msg.text {
        Some(t) => Some(
            (
                t@,
                match msg.entities {
                    Some(es) => es@,
                    None => Seq::empty(),
                },
            ),
        ),
        None => match msg.caption {
            Some(c) => Some(
                (
                    c@,
                    match msg.caption_entities {
                        Some(es) => es@,
                        None => Seq::empty(),
                    },
                ),
            ),
            None => if text_fallback.len() > 0 {
                Some((text_fallback, Seq::empty()))
            } else {
                None
            },
        },
    }
}

/// The entity addresses the bot: a mention whose text, lowercased, contains
/// the bot's username, or a text mention of the bot.
pub open spec fn addresses_bot(text: Seq<char>, e: MessageEntity, bot_id: UserId, bot_username: Seq<
    char,
>) -> bool {
    match e.kind {
        EntityKind::Mention => bot_username.len() > 0 && match entity_text(
            text,
            e.offset as int,
            e.length as int,
        ) {
            Some(t) => seq_contains(lowercase(t), bot_username),
            None => false,
        },
        EntityKind::TextMention { user_id } => user_id == bot_id,
        EntityKind::Other => false,
    }
}

/// The message answers one of the bot's own messages: the author of the
/// message it replies to is the bot itself.
pub open spec fn replies_to_bot(msg: IncomingMessage, bot_id: UserId) -> bool {
    match msg.reply_to {
        Some(r) => match r.from {
            Some(u) => u.id == bot_id,
            None => false,
        },
        None => false,
    }
}

/// Momo answers a group message with this text and these entities when an
/// entity addresses her, when it replies to one of her messages, or when
/// "momo" appears in the lowercased text.
pub open spec fn responds_to(
    msg: IncomingMessage,
    text: Seq<char>,
    entities: Seq<MessageEntity>,
    bot_id: UserId,
    bot_username: Seq<char>,
) -> bool {
    ||| exists|k: int|
        0 <= k < entities.len() && addresses_bot(text, #[trigger] entities[k], bot_id, bot_username)
    ||| replies_to_bot(msg, bot_id)
    ||| seq_contains(lowercase(text), "momo"@)
}

/// When Momo answers: always in a private chat; elsewhere never where the
/// message has no text at all, else as `responds_to` says for its text and
/// entities.
pub open spec fn should_respond(msg: IncomingMessage, bot_id: UserId, bot_username: Seq<char>, text_fallback: Seq<
    char,
>) -> bool {
    if msg.chat_kind == ChatKind::Private {
        true
    } else {
        match message_source(msg, text_fallback) {
            None => false,
            Some(src) => responds_to(msg, src.0, src.1, bot_id, bot_username),
        }
    }
}

/// Whether one entity addresses the bot.
fn entity_addresses_bot(text: &str, e: &MessageEntity, bot_id: UserId, bot_username: &str) -> (r:
    bool)
    ensures
        r == addresses_bot(text@, *e, bot_id, bot_username@),
{
    match e.kind {
        EntityKind::Mention => {
            if bot_username.unicode_len() == 0 {
                return false;
            }
            match extract_entity_text(text, e.offset, e.length) {
                Some(mention_text) => {
                    let lower = to_lowercase(mention_text.as_str());
                    str_contains(lower.as_str(), bot_username)
                },
                None => false,
            }
        },
        EntityKind::TextMention { user_id } => user_id == bot_id,
        EntityKind::Other => false,
    }
}

/// Determines if Momo should respond to a message
///
/// In private chats: always respond
/// In groups/channels: respond if mentioned, replied to, or "momo" in text
/// Random responses are handled by proactive behaviors instead
pub fn should_respond_to_message(
    msg: &IncomingMessage,
    bot_id: UserId,
    bot_username: &str,
    text_fallback: &str,
) -> (r: bool)
    ensures
        r == should_respond(*msg, bot_id, bot_username@, text_fallback@),
{
    if msg.chat_kind == ChatKind::Private {
        return true;
    }
    let empty: Vec<MessageEntity> = Vec::new();
    let (text, entities): (&str, &Vec<MessageEntity>) = match &msg.text {
        Some(t) => (
            t.as_str(),
            match &msg.entities {
                Some(es) => es,
                None => &empty,
            },
        ),
        None => match &msg.caption {
            Some(c) => (
                c.as_str(),
                match &msg.caption_entities {
                    Some(es) => es,
                    None => &empty,
                },
            ),
            None => {
                if text_fallback.unicode_len() > 0 {
                    (text_fallback, &empty)
                } else {
                    return false;
                }
            },
        },
    };
    assert(message_source(*msg, text_fallback@) == Some((text@, entities@)));
    let mut k: usize = 0;
    while k < entities.len()
        invariant
            k <= entities.len(),
            message_source(*msg, text_fallback@) == Some((text@, entities@)),
            forall|j: int|
                0 <= j < k ==> !addresses_bot(text@, #[trigger] entities@[j], bot_id, bot_username@),
        decreases entities.len() - k,
    {
        if entity_addresses_bot(text, &entities[k], bot_id, bot_username) {
            assert(addresses_bot(text@, entities@[k as int], bot_id, bot_username@));
            return true;
        }
        k = k + 1;
    }
    match &msg.reply_to {
        Some(reply) => match &reply.from {
            Some(from) => {
                if from.id == bot_id {
                    return true;
                }
            },
            None => {},
        },
        None => {},
    }
    let lower = to_lowercase(text);
    str_contains(lower.as_str(), "momo")
}

} // verus!
