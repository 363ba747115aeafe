//! Properties that hold across Momo's operations.
use vstd::prelude::*;

use crate::active::{behavior_for, start_spec, ProactiveBehavior};
use crate::config::{
    MAX_ACTIVE_MEMBERS_TRACKED, MAX_CONVERSATION_HISTORY, MAX_RECENT_MESSAGES,
    MAX_TIME_BETWEEN_PROACTIVE, MIN_TIME_BETWEEN_PROACTIVE, PROACTIVE_BLOCK_COOLDOWN_SECS,
    ROLL_SCALE,
};
use crate::commands::command_outcome;
use crate::flow::{stages_left, step_spec, Action, Event, Outgoing, Stage};
use crate::handler::{group_context_of, response_plan, sticker_chance, ResponsePlan};
use crate::handler::context_hint_text;
use crate::tracking::context_of;
use crate::config::{CAT_BAIT_RESPONSE_CHANCE, GROUP_CONTEXT_MESSAGES};
use crate::handler::has_cat_bait;
use crate::history::keep_last;
use crate::members::{after_tracking, other_than, queue_ok};
use crate::passive::{entity_text, should_respond};
use crate::retry::{after_failure, pow2, MAX_RETRY_DELAY_SECS, STABLE_RUN_SECS};
use crate::server::{content_type, has_parent_segment, parent_segment_at, route_spec};
use crate::state::{
    expired, mood_duration_secs, proactive_interval_secs, with_mood, ChatState, MomoMood,
    LATEST_TIME_MS,
};
use crate::prompts::status_texts;
use crate::text::{decimal, lowercase, seq_contains, seq_ends_with, seq_starts_with};
use crate::tracking::{after_bot, after_message};
use crate::types::{ChatKind, EntityKind, IncomingMessage, MessageEntity, StoredView, UserId};

verus! {

broadcast use vstd::seq_lib::group_seq_properties;

/// A member who speaks is at the front of the chat's queue, listed once.
pub proof fn law_tracked_member_in_front(q: Seq<(UserId, Seq<char>)>, id: UserId, name: Seq<char>)
    requires
        queue_ok(q),
    ensures
        after_tracking(q, id, name)[0] == (id, name),
        forall|k: int|
            0 < k < after_tracking(q, id, name).len() ==> (#[trigger] after_tracking(q, id, name)[k]).0 != id,
{
    let f = q.filter(other_than(id));
    let moved = seq![(id, name)] + f;
    assert forall|k: int| 0 < k < after_tracking(q, id, name).len() implies (
    #[trigger] after_tracking(q, id, name)[k]).0 != id by {
        assert(after_tracking(q, id, name)[k] == moved[k]);
        assert(moved[k] == f[k - 1]);
        q.lemma_filter_pred(other_than(id), k - 1);
    }
}

/// Tracking the same member twice in a row is the same as tracking them once.
pub proof fn law_track_member_idempotent(q: Seq<(UserId, Seq<char>)>, id: UserId, name: Seq<char>)
    requires
        queue_ok(q),
    ensures
        after_tracking(after_tracking(q, id, name), id, name) == after_tracking(q, id, name),
{
    let q1 = after_tracking(q, id, name);
    law_tracked_member_in_front(q, id, name);
    q.lemma_filter_len(other_than(id));
    assert(q1.len() <= MAX_ACTIVE_MEMBERS_TRACKED);
    let rest = q1.drop_first();
    assert(q1 =~= seq![(id, name)] + rest);
    assert forall|k: int| 0 <= k < rest.len() implies (#[trigger] rest[k]).0 != id by {
        assert(rest[k] == q1[k + 1]);
    }
    lemma_filter_keeps_all(rest, other_than(id));
    assert(q1.filter(other_than(id)) == rest) by {
        assert(q1 == seq![(id, name)].add(rest));
        Seq::filter_distributes_over_add(seq![(id, name)], rest, other_than(id));
        reveal_with_fuel(Seq::filter, 2);
        assert(seq![(id, name)].drop_last() =~= Seq::<(UserId, Seq<char>)>::empty());
        assert(seq![(id, name)].filter(other_than(id)) =~= Seq::<(UserId, Seq<char>)>::empty());
    }
    assert((seq![(id, name)] + rest) =~= q1);
}

/// A filter that every item passes keeps everything.
proof fn lemma_filter_keeps_all<A>(s: Seq<A>, pred: spec_fn(A) -> bool)
    requires
        forall|k: int| 0 <= k < s.len() ==> pred(#[trigger] s[k]),
    ensures
        s.filter(pred) == s,
    decreases s.len(),
{
    reveal(Seq::filter);
    if s.len() > 0 {
        lemma_filter_keeps_all(s.drop_last(), pred);
        assert(pred(s[s.len() - 1]));
        assert(s.drop_last().push(s.last()) =~= s);
    }
}

/// The newest message is in front of the recent messages, and a chat never
/// keeps more than the limit.
pub proof fn law_recent_messages_bounded(q: Seq<StoredView>, m: StoredView)
    requires
        q.len() <= MAX_RECENT_MESSAGES,
    ensures
        after_message(q, m)[0] == m,
        after_message(q, m).len() <= MAX_RECENT_MESSAGES,
{
}

/// Seeing a bot again changes nothing: each bot is listed once, under the
/// name it had when first seen.
pub proof fn law_track_bot_idempotent(list: Seq<(UserId, Seq<char>)>, id: UserId, name: Seq<char>, other_name: Seq<char>)
    ensures
        after_bot(after_bot(list, id, name), id, other_name) == after_bot(list, id, name),
        exists|k: int|
            0 <= k < after_bot(list, id, name).len() && (#[trigger] after_bot(list, id, name)[k]).0 == id,
{
    let l1 = after_bot(list, id, name);
    if !(exists|k: int| 0 <= k < list.len() && (#[trigger] list[k]).0 == id) {
        assert(l1[list.len() as int].0 == id);
    }
}

/// After a user's message the history keeps at most the limit, ending with
/// that message.
pub proof fn law_history_bounded<A>(h: Seq<A>, m: A)
    ensures
        keep_last(h.push(m), MAX_CONVERSATION_HISTORY as int).len() <= MAX_CONVERSATION_HISTORY,
        keep_last(h.push(m), MAX_CONVERSATION_HISTORY as int).last() == m,
{
}

/// The normal mood has no timer; any other mood lasts exactly its duration,
/// after which it wears off into the normal one.
pub proof fn law_mood_lifetime(s: ChatState, mood: MomoMood, now: u64, later: u64)
    requires
        now <= LATEST_TIME_MS,
    ensures
        mood == MomoMood::Normal ==> with_mood(s, mood, now).mood_expires_at is None,
        mood != MomoMood::Normal && later < now + mood_duration_secs(mood) * 1000 ==> expired(
            with_mood(s, mood, now),
            later,
        ).mood == mood,
        mood != MomoMood::Normal && later >= now + mood_duration_secs(mood) * 1000 ==> expired(
            with_mood(s, mood, now),
            later,
        ).mood == MomoMood::Normal,
{
}

/// Wearing off an expired mood twice is the same as once.
pub proof fn law_expiry_idempotent(s: ChatState, now: u64)
    ensures
        expired(expired(s, now), now) == expired(s, now),
{
}

/// The next time-based message comes four to twelve hours later, whatever the draw.
pub proof fn law_proactive_interval(draw: u64)
    ensures
        MIN_TIME_BETWEEN_PROACTIVE <= proactive_interval_secs(draw) < MAX_TIME_BETWEEN_PROACTIVE,
{
}

/// Between attempts the listener never remembers more than five failures,
/// and never waits less than two seconds or more than five minutes.
pub proof fn law_retry_bounded(retry_count: nat, uptime_secs: nat)
    ensures
        retry_count <= 5 ==> after_failure(retry_count, uptime_secs).0 <= 5,
        after_failure(retry_count, uptime_secs).1 <= MAX_RETRY_DELAY_SECS,
        after_failure(retry_count, uptime_secs).1 >= 2,
{
    let base = if uptime_secs >= STABLE_RUN_SECS { 0 } else { retry_count };
    let n = base + 1;
    let e: nat = if n < 8 { n } else { 8 };
    lemma_pow2_at_least_two(e);
}

/// A run that stayed connected for ten minutes forgets the failures before
/// it: the next wait is the shortest, two seconds, and one failure is
/// remembered.
pub proof fn law_retry_reset_after_stable_run(retry_count: nat, uptime_secs: nat)
    requires
        uptime_secs >= STABLE_RUN_SECS,
    ensures
        after_failure(retry_count, uptime_secs) == (1nat, 2nat),
{
    reveal_with_fuel(pow2, 2);
}

/// Two to a positive power is at least two.
proof fn lemma_pow2_at_least_two(e: nat)
    requires
        e >= 1,
    ensures
        pow2(e) >= 2,
    decreases e,
{
    if e > 1 {
        lemma_pow2_at_least_two((e - 1) as nat);
    } else {
        assert(pow2(0) == 1);
    }
}

/// A time-based roll only picks a time-based behaviour; a message-triggered
/// roll never picks a cat post, playful mode or news.
pub proof fn law_behavior_kinds(roll: nat)
    ensures
        ({
            let b = behavior_for(true, roll);
            b == ProactiveBehavior::CatBehavior || b == ProactiveBehavior::PlayfulMode || b
                == ProactiveBehavior::TimeRandomStarter || b == ProactiveBehavior::TimeNewsStarter
        }),
        ({
            let b = behavior_for(false, roll);
            b != ProactiveBehavior::CatBehavior && b != ProactiveBehavior::PlayfulMode && b
                != ProactiveBehavior::TimeNewsStarter
        }),
{
}

/// When a time-based message is due, the rolls left after the cat post and
/// playful mode are split evenly between the random and the news starter.
pub proof fn law_time_starters_split_evenly(roll: nat)
    ensures
        behavior_for(true, roll) == ProactiveBehavior::TimeRandomStarter <==> 450000 <= roll
            < 725000,
        roll < ROLL_SCALE ==> (behavior_for(true, roll) == ProactiveBehavior::TimeNewsStarter
            <==> 725000 <= roll < ROLL_SCALE),
        725000 - 450000 == ROLL_SCALE - 725000,
{
}

/// After a cat behaviour post Momo is busy: for the next three minutes no
/// spontaneous message starts, whatever the rolls.
pub proof fn law_busy_after_cat_post(s0: ChatState, now: u64, roll: nat, draw: u64, later: u64, roll2: nat, draw2: u64)
    requires
        now <= LATEST_TIME_MS,
        now <= later < now + mood_duration_secs(MomoMood::Busy) * 1000,
        start_spec(s0, now, roll, draw).0 matches Some((b, _)) && b == ProactiveBehavior::CatBehavior,
    ensures
        start_spec(start_spec(s0, now, roll, draw).1, later, roll2, draw2).0 is None,
{
}

/// Once a send was refused, Momo starts no spontaneous message in the chat
/// until the cooldown is over, whatever the rolls.
pub proof fn law_refusal_pauses(s0: ChatState, now: u64, later: u64, roll: nat, draw: u64)
    requires
        now <= LATEST_TIME_MS,
        now <= later < now + PROACTIVE_BLOCK_COOLDOWN_SECS * 1000,
    ensures
        start_spec(
            ChatState {
                proactive_blocked_until: Some((now + PROACTIVE_BLOCK_COOLDOWN_SECS * 1000) as u64),
                ..expired(s0, now)
            },
            later,
            roll,
            draw,
        ).0 is None,
{
}

/// Busy mood only holds back what Momo does on her own: a message that
/// addresses her is always answered (or, in playful mood, sulked at),
/// never ignored.
pub proof fn law_addressed_is_answered(
    state: ChatState,
    text: Seq<char>,
    author_is_bot: Option<bool>,
    bait_roll: nat,
    annoy_roll: nat,
)
    ensures
        ({
            let p = response_plan(true, state, text, author_is_bot, bait_roll, annoy_roll);
            p == ResponsePlan::Converse || p == ResponsePlan::Annoyed
        }),
        state.mood != MomoMood::Playful ==> response_plan(
            true,
            state,
            text,
            author_is_bot,
            bait_roll,
            annoy_roll,
        ) == ResponsePlan::Converse,
{
}

/// In a private chat Momo answers every message.
pub proof fn law_private_chats_answered(
    msg: IncomingMessage,
    bot_id: UserId,
    bot_username: Seq<char>,
    fallback: Seq<char>,
)
    requires
        msg.chat_kind == ChatKind::Private,
    ensures
        should_respond(msg, bot_id, bot_username, fallback),
{
}

/// A busy Momo never follows a reply with a sticker, whatever the roll.
pub proof fn law_no_sticker_when_busy(roll: nat)
    ensures
        !(roll < sticker_chance(MomoMood::Busy)),
{
}

/// The image server only reads files named by a path that begins with
/// "assets/cache/images/" and has no `..` segment, so it never climbs out of
/// the image cache directory.
pub proof fn law_served_files_stay_in_cache(path: Seq<char>)
    ensures
        route_spec(path) matches Some((file, _)) ==> seq_starts_with(file, "assets/cache/images/"@)
            && !has_parent_segment(file),
{
    reveal_strlit("assets/cache/");
    reveal_strlit("images/");
    reveal_strlit("assets/cache/images/");
    if let Some((file, _)) = route_spec(path) {
        let p = crate::server::trim_leading_slashes(path);
        let pre = "assets/cache/"@;
        assert(file == pre + p);
        assert(file.subrange(0, 20) =~= pre + p.subrange(0, 7));
        assert(pre + p.subrange(0, 7) =~= "assets/cache/images/"@);
        assert forall|i: int| !parent_segment_at(file, i) by {
            if parent_segment_at(file, i) {
                if i >= 13 {
                    assert(parent_segment_at(p, i - 13));
                } else {
                    assert(file[i] == pre[i] && file[i + 1] == pre[i + 1]);
                }
            }
        }
    }
}

/// "/reset" clears the chat's history, and "/status" then reports zero
/// messages, in either of its wordings.
pub proof fn law_status_after_reset(count: nat, d1: nat, d2: nat)
    ensures
        command_outcome("/reset"@, count, d1).1,
        !command_outcome("/status"@, 0, d2).1,
        command_outcome("/status"@, 0, d2).0 == status_texts(0)[(d2 % 2) as int],
        decimal(0) == seq!['0'],
{
    reveal_strlit("/start");
    reveal_strlit("/help");
    reveal_strlit("/about");
    reveal_strlit("/reset");
    reveal_strlit("/status");
    assert("/reset"@[1] != "/start"@[1] && "/reset"@[1] != "/help"@[1] && "/reset"@[1]
        != "/about"@[1]);
    assert("/status"@[4] != "/start"@[4] && "/status"@[1] != "/help"@[1] && "/status"@[1]
        != "/about"@[1] && "/status"@[1] != "/reset"@[1]);
}

/// Handling a message always ends: every step brings it to a stage nearer
/// the end, so at most seven actions are taken, and once done nothing more
/// happens.
pub proof fn law_handling_ends(stage: Stage, event: Event)
    ensures
        stage != Stage::Done ==> stages_left(step_spec(stage, event).0) < stages_left(stage),
        stage == Stage::Done ==> step_spec(stage, event) == (Stage::Done, Action::Stop),
{
}

/// A command is answered and nothing else: it is neither remembered, nor
/// logged, nor followed by a spontaneous message.
pub proof fn law_commands_only_answered()
    ensures
        step_spec(Stage::Received, Event::Read { has_text: true, is_command: true }) == (
            Stage::Done,
            Action::AnswerCommand,
        ),
{
}

/// A message Telegram refused is always noted; one it took lifts the pause,
/// except the apology for a failed model call.
pub proof fn law_sends_are_followed_up(o: Outgoing)
    ensures
        step_spec(Stage::Sending(o), Event::Sent { ok: false }) == (Stage::Done, Action::NoteRefusal),
        o != Outgoing::ErrorReply ==> step_spec(Stage::Sending(o), Event::Sent { ok: true }).1 is ClearPause,
{
}

/// An entity addresses a bot named `bot_username` (lowercase) with id
/// `bot_id`: a text mention of it, or a mention whose text, lowercased,
/// holds its username.
pub open spec fn names_bot(text: Seq<char>, e: MessageEntity, bot_id: UserId, bot_username: Seq<char>) -> bool {
    ||| e.kind == (EntityKind::TextMention { user_id: bot_id })
    ||| {
        &&& e.kind == EntityKind::Mention
        &&& bot_username.len() > 0
        &&& entity_text(text, e.offset as int, e.length as int) matches Some(t)
        &&& seq_contains(lowercase(t), bot_username)
    }
}

/// A caption's entities count as a text's do: where a message without text
/// has a caption one of whose entities names the bot, Momo answers it, in
/// any kind of chat.
pub proof fn law_caption_mentions_answered(
    msg: IncomingMessage,
    bot_id: UserId,
    bot_username: Seq<char>,
    fallback: Seq<char>,
    k: int,
)
    requires
        msg.text is None,
        msg.caption is Some,
        msg.caption_entities is Some,
        0 <= k < msg.caption_entities->0@.len(),
        names_bot(msg.caption->0@, msg.caption_entities->0@[k], bot_id, bot_username),
    ensures
        should_respond(msg, bot_id, bot_username, fallback),
{
    let es = msg.caption_entities->0@;
    assert(es[k] == msg.caption_entities->0@[k]);
}

/// Whether Momo answers a message without text does not change when its
/// caption and caption entities are moved into its text and text entities.
pub proof fn law_caption_like_text(
    msg: IncomingMessage,
    bot_id: UserId,
    bot_username: Seq<char>,
    fallback: Seq<char>,
)
    requires
        msg.text is None,
        msg.caption is Some,
    ensures
        should_respond(msg, bot_id, bot_username, fallback) == should_respond(
            IncomingMessage {
                text: msg.caption,
                entities: msg.caption_entities,
                caption: None,
                caption_entities: None,
                ..msg
            },
            bot_id,
            bot_username,
            fallback,
        ),
{
}

/// Unaddressed, Momo pounces on cat bait from a human (or an unknown author)
/// whenever the roll falls below the bait chance, in every mood but busy:
/// normal, playful and annoyed alike.
pub proof fn law_bait_taken_unless_busy(
    state: ChatState,
    text: Seq<char>,
    author_is_bot: Option<bool>,
    bait_roll: nat,
    annoy_roll: nat,
)
    requires
        state.mood == MomoMood::Normal || state.mood == MomoMood::Playful || state.mood
            == MomoMood::Annoyed,
        has_cat_bait(text),
        bait_roll < CAT_BAIT_RESPONSE_CHANCE,
        author_is_bot != Some(true),
    ensures
        response_plan(false, state, text, author_is_bot, bait_roll, annoy_roll)
            == ResponsePlan::CatBait,
{
}

/// In every chat but a private one (groups, supergroups and channels) the
/// model's context carries the chat's recent human messages, the same for
/// each of these kinds; a private chat carries none.
pub proof fn law_group_context_outside_private_chats(
    kind: ChatKind,
    recent: Seq<StoredView>,
    db_summaries: Seq<Seq<char>>,
)
    ensures
        kind == ChatKind::Group || kind == ChatKind::Supergroup || kind == ChatKind::Channel
            ==> context_hint_text(db_summaries, group_context_of(kind, recent)) == context_hint_text(
            db_summaries,
            context_of(recent, GROUP_CONTEXT_MESSAGES as int),
        ),
        kind == ChatKind::Private ==> context_hint_text(db_summaries, group_context_of(kind, recent))
            == context_hint_text(db_summaries, Seq::<char>::empty()),
{
}

/// Only a busy mood or a pause holds back a spontaneous message: in a chat
/// whose mood at `now` is normal, playful or annoyed, and that is not
/// paused, one starts for every roll and draw, with the behaviour the roll
/// picks.
pub proof fn law_spontaneous_start_unless_busy_or_paused(s0: ChatState, now: u64, roll: nat, draw: u64)
    requires
        expired(s0, now).mood == MomoMood::Normal || expired(s0, now).mood == MomoMood::Playful
            || expired(s0, now).mood == MomoMood::Annoyed,
        match s0.proactive_blocked_until {
            Some(t) => now >= t,
            None => true,
        },
    ensures
        start_spec(s0, now, roll, draw).0 matches Some((b, due)) && b == behavior_for(due, roll),
{
}

/// Served files get the content type of their extension: ".jpg" and ".jpeg"
/// are JPEG, ".png" is PNG, ".webp" is WebP.
pub proof fn law_content_type_by_extension(path: Seq<char>)
    ensures
        seq_ends_with(path, ".jpg"@) ==> content_type(path) == "image/jpeg"@,
        seq_ends_with(path, ".jpeg"@) ==> content_type(path) == "image/jpeg"@,
        seq_ends_with(path, ".png"@) ==> content_type(path) == "image/png"@,
        seq_ends_with(path, ".webp"@) ==> content_type(path) == "image/webp"@,
{
    reveal_strlit(".jpg");
    reveal_strlit(".jpeg");
    reveal_strlit(".png");
    reveal_strlit(".webp");
    let n = path.len() as int;
    if seq_ends_with(path, ".png"@) {
        assert(path.subrange(n - 4, n)[1] == 'p');
        if seq_ends_with(path, ".jpg"@) {
            assert(path.subrange(n - 4, n)[1] == 'j');
        }
        if seq_ends_with(path, ".jpeg"@) {
            assert(path.subrange(n - 5, n)[1] == path.subrange(n - 4, n)[0]);
            assert(path.subrange(n - 4, n)[0] == '.');
        }
    }
    if seq_ends_with(path, ".webp"@) {
        assert(path.subrange(n - 5, n)[4] == 'p');
        if seq_ends_with(path, ".jpg"@) {
            assert(path.subrange(n - 4, n)[3] == path.subrange(n - 5, n)[4]);
        }
        if seq_ends_with(path, ".jpeg"@) {
            assert(path.subrange(n - 5, n)[1] == 'w');
        }
        if seq_ends_with(path, ".png"@) {
            assert(path.subrange(n - 4, n)[1] == path.subrange(n - 5, n)[2]);
        }
    }
}

/// A served image file is served with the content type of its extension:
/// a path ending in ".jpg" or ".jpeg" as JPEG.
pub proof fn law_served_jpeg_is_jpeg(path: Seq<char>)
    ensures
        match route_spec(path) {
            Some((file, ct)) => seq_ends_with(file, ".jpg"@) || seq_ends_with(file, ".jpeg"@)
                ==> ct == "image/jpeg"@,
            None => true,
        },
{
    reveal_strlit(".jpg");
    reveal_strlit(".jpeg");
    reveal_strlit("images/");
    reveal_strlit("assets/cache/");
    if let Some((file, ct)) = route_spec(path) {
        let p = crate::server::trim_leading_slashes(path);
        let pre = "assets/cache/"@;
        assert(file == pre + p);
        assert(p.len() >= 7);
        let n = p.len() as int;
        let m = file.len() as int;
        assert(p.subrange(n - 4, n) =~= file.subrange(m - 4, m));
        assert(p.subrange(n - 5, n) =~= file.subrange(m - 5, m));
        if seq_ends_with(file, ".jpg"@) {
            assert(seq_ends_with(p, ".jpg"@));
        }
        if seq_ends_with(file, ".jpeg"@) {
            assert(seq_ends_with(p, ".jpeg"@));
        }
        law_content_type_by_extension(p);
    }
}

} // verus!
