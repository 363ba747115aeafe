//! Active/proactive chat features - Momo initiating conversations
use vstd::prelude::*;

use crate::config::{
    CHANCE_BOT_INTERACTION, CHANCE_CAT_BEHAVIOR, CHANCE_MENTION_USER, CHANCE_NATURAL_COMMENT,
    CHANCE_PLAYFUL_MODE, CHANCE_REPLY_TO_MESSAGE, MIN_MEMBERS_FOR_PROACTIVE, PROACTIVE_MEMBER_POOL,
    ROLL_SCALE, TIME_STARTER_SPLIT, USER_MESSAGES_TO_JUDGE,
};
use crate::grok::{
    messages_view, prompt_messages, search_flag, GrokClient, GrokRequest, Message, MessageView,
    Sampling,
};
use crate::history::ConversationHistory;
use crate::members::ActiveMembers;
use crate::prompts::{
    bot_interaction_prompt_text, cat_behavior_prompt_text, mention_user_prompt_text,
    natural_comment_prompt_text, news_starter_prompt_text, playful_prompt_text,
    random_starter_prompt_text, reply_to_message_prompt_text,
};
use crate::state::{
    expired, proactive_interval_secs, with_mood, ChatState, ChatStates, MomoMood, LATEST_TIME_MS,
};
use crate::text::joined;
use crate::tracking::{
    by_human, context_of, first_named, not_me, take_up_to, ChatBots, RecentMessages,
};
use crate::types::{ChatId, StoredView, UserId};
use crate::utils::{random_roll, random_u64, random_usize};

verus! {

/// Proactive behavior types
#[derive(PartialEq, Eq, Structural, Clone, Copy, Debug)]
pub enum ProactiveBehavior {
    /// Natural comment without mentioning anyone
    NaturalComment,
    /// Reply to a random recent message
    ReplyToMessage,
    /// Mention a user and judge their recent messages
    MentionUser,
    /// Interact with another bot
    BotInteraction,
    /// Time-based: random conversation starter
    TimeRandomStarter,
    /// Time-based: news-based conversation starter
    TimeNewsStarter,
    /// Cat behavior post (changes to Busy mode)
    CatBehavior,
    /// Playful mode initiation (changes to Playful mode)
    PlayfulMode,
}

/// The behaviour a roll picks. When a time-based message is due: a cat
/// behaviour post (30%), playful mode (15%), then the rest split evenly
/// between a random starter and a news starter (27.5% each). Otherwise: a natural comment
/// (50%), a reply (30%), a mention (15%), a bot interaction (3%), and a
/// random starter for the rest.
pub open spec fn behavior_for(is_time_based: bool, roll: nat) -> ProactiveBehavior {
    if is_time_based {
        if roll < CHANCE_CAT_BEHAVIOR {
            ProactiveBehavior::CatBehavior
        } else if roll < CHANCE_CAT_BEHAVIOR + CHANCE_PLAYFUL_MODE {
            ProactiveBehavior::PlayfulMode
        } else if roll < TIME_STARTER_SPLIT {
            ProactiveBehavior::TimeRandomStarter
        } else {
            ProactiveBehavior::TimeNewsStarter
        }
    } else if roll < CHANCE_NATURAL_COMMENT {
        ProactiveBehavior::NaturalComment
    } else if roll < CHANCE_NATURAL_COMMENT + CHANCE_REPLY_TO_MESSAGE {
        ProactiveBehavior::ReplyToMessage
    } else if roll < CHANCE_NATURAL_COMMENT + CHANCE_REPLY_TO_MESSAGE + CHANCE_MENTION_USER {
        ProactiveBehavior::MentionUser
    } else if roll < CHANCE_NATURAL_COMMENT + CHANCE_REPLY_TO_MESSAGE + CHANCE_MENTION_USER
        + CHANCE_BOT_INTERACTION {
        ProactiveBehavior::BotInteraction
    } else {
        ProactiveBehavior::TimeRandomStarter
    }
}

/// Select which proactive behavior to use for a roll below `ROLL_SCALE`.
pub fn select_proactive_behavior(is_time_based: bool, roll: u32) -> (r: ProactiveBehavior)
    ensures
        r == behavior_for(is_time_based, roll as nat),
{
    if is_time_based {
        let mut cumulative: u32 = 0;
        cumulative = cumulative + CHANCE_CAT_BEHAVIOR;
        if roll < cumulative {
            return ProactiveBehavior::CatBehavior;
        }
        cumulative = cumulative + CHANCE_PLAYFUL_MODE;
        if roll < cumulative {
            return ProactiveBehavior::PlayfulMode;
        }
        if roll < TIME_STARTER_SPLIT {
            return ProactiveBehavior::TimeRandomStarter;
        } else {
            return ProactiveBehavior::TimeNewsStarter;
        }
    }
    let mut cumulative: u32 = 0;
    cumulative = cumulative + CHANCE_NATURAL_COMMENT;
    if roll < cumulative {
        return ProactiveBehavior::NaturalComment;
    }
    cumulative = cumulative + CHANCE_REPLY_TO_MESSAGE;
    if roll < cumulative {
        return ProactiveBehavior::ReplyToMessage;
    }
    cumulative = cumulative + CHANCE_MENTION_USER;
    if roll < cumulative {
        return ProactiveBehavior::MentionUser;
    }
    cumulative = cumulative + CHANCE_BOT_INTERACTION;
    if roll < cumulative {
        return ProactiveBehavior::BotInteraction;
    }
    ProactiveBehavior::TimeRandomStarter
}

/// Spontaneous messages are paused at `now`.
pub open spec fn paused_at(s: ChatState, now: u64) -> bool {
    s.proactive_blocked_until matches Some(t) && now < t
}

/// The start of a spontaneous message in a chat whose state is `s0`: nothing
/// while Momo is busy or paused; else whether a time-based message is due
/// (scheduling the first one), the behaviour the roll picks for that, and the
/// mood it brings (busy for a cat behaviour post, playful for playful mode).
/// Gives the start, where there is one, and the chat's new state.
pub open spec fn start_spec(s0: ChatState, now: u64, roll: nat, draw: u64) -> (Option<
    (ProactiveBehavior, bool),
>, ChatState) {
    let s = expired(s0, now);
    if s.mood == MomoMood::Busy || paused_at(s, now) {
        (None, s)
    } else {
        let due = match s.next_proactive_time {
            Some(t) => now >= t,
            None => false,
        };
        let s2 = match s.next_proactive_time {
            Some(t) => s,
            None => ChatState {
                next_proactive_time: Some((now + proactive_interval_secs(draw) * 1000) as u64),
                ..s
            },
        };
        let b = behavior_for(due, roll);
        let s3 = if b == ProactiveBehavior::CatBehavior {
            with_mood(s2, MomoMood::Busy, now)
        } else if b == ProactiveBehavior::PlayfulMode {
            with_mood(s2, MomoMood::Playful, now)
        } else {
            s2
        };
        (Some((b, due)), s3)
    }
}

/// A spontaneous message under way: what it does, and whether it is the
/// time-based one.
#[derive(PartialEq, Eq, Structural, Clone, Copy, Debug)]
pub struct ProactiveStart {
    pub behavior: ProactiveBehavior,
    pub is_time_based: bool,
}

/// Starts a spontaneous message with the given roll and scheduling draw.
pub fn begin_proactive_by(states: &mut ChatStates, chat: ChatId, now: u64, roll: u32, draw: u64) -> (r:
    Option<ProactiveStart>)
    requires
        now <= LATEST_TIME_MS,
    ensures
        ({
            let (start, s) = start_spec(old(states).state_of(chat), now, roll as nat, draw);
            &&& match start {
                Some((b, due)) => r == Some(ProactiveStart { behavior: b, is_time_based: due }),
                None => r is None,
            }
            &&& final(states).state_of(chat) == s
        }),
        forall|c: ChatId| c != chat ==> #[trigger] final(states).state_of(c) == old(states).state_of(c),
{
    let state = states.get_chat_state(chat, now);
    if !state.should_respond() || state.proactive_paused(now) {
        return None;
    }
    let is_time_based = states.should_do_time_based_proactive_by(chat, now, draw);
    let behavior = select_proactive_behavior(is_time_based, roll);
    let ghost s2 = states.state_of(chat);
    if behavior == ProactiveBehavior::CatBehavior {
        states.set_chat_mood(chat, MomoMood::Busy, now);
        assert(expired(s2, now) == s2);
    } else if behavior == ProactiveBehavior::PlayfulMode {
        states.set_chat_mood(chat, MomoMood::Playful, now);
        assert(expired(s2, now) == s2);
    }
    Some(ProactiveStart { behavior, is_time_based })
}

/// Starts a spontaneous message, rolling for the behaviour (and for the
/// schedule where none is set yet).
pub fn begin_proactive(states: &mut ChatStates, chat: ChatId, now: u64) -> (r: Option<
    ProactiveStart,
>)
    requires
        now <= LATEST_TIME_MS,
    ensures
        exists|roll: nat, draw: u64|
            roll < ROLL_SCALE && {
                let (start, s) = #[trigger] start_spec(old(states).state_of(chat), now, roll, draw);
                &&& match start {
                    Some((b, due)) => r == Some(ProactiveStart { behavior: b, is_time_based: due }),
                    None => r is None,
                }
                &&& final(states).state_of(chat) == s
            },
        forall|c: ChatId| c != chat ==> #[trigger] final(states).state_of(c) == old(states).state_of(c),
{
    let roll = random_roll();
    let draw = random_u64();
    let r = begin_proactive_by(states, chat, now, roll, draw);
    assert(start_spec(old(states).state_of(chat), now, roll as nat, draw) == start_spec(
        old(states).state_of(chat),
        now,
        roll as nat,
        draw,
    ));
    r
}

/// What a spontaneous message asks the model, for a behaviour and the chat's
/// members, recent messages and bots: the prompt, whether to force a search,
/// and the message to answer; none where the chat offers nothing to work with.
pub open spec fn proactive_prompt(
    behavior: ProactiveBehavior,
    members: Seq<(UserId, Seq<char>)>,
    recent: Seq<StoredView>,
    bots: Seq<(UserId, Seq<char>)>,
    my_bot_id: UserId,
    draw: nat,
) -> Option<(Seq<char>, bool, Option<i32>)> {
    match behavior {
        ProactiveBehavior::NaturalComment => {
            let ctx = context_of(recent, 8);
            if ctx.len() == 0 {
                None
            } else {
                Some((natural_comment_prompt_text(ctx), false, None))
            }
        },
        ProactiveBehavior::ReplyToMessage => {
            let c = take_up_to(recent.filter(crate::tracking::replyable_by(my_bot_id)), 10);
            if c.len() == 0 {
                None
            } else {
                let m = c[(draw as int) % (c.len() as int)];
                Some((reply_to_message_prompt_text(m.username, m.text), false, Some(m.message_id)))
            }
        },
        ProactiveBehavior::MentionUser => {
            if members.len() < MIN_MEMBERS_FOR_PROACTIVE {
                None
            } else {
                let n = if members.len() < PROACTIVE_MEMBER_POOL {
                    members.len() as int
                } else {
                    PROACTIVE_MEMBER_POOL as int
                };
                let name = members[(draw as int) % n].1;
                match first_named(recent, name) {
                    None => None,
                    Some(uid) => {
                        let texts = take_up_to(
                            recent.filter(by_human(uid)),
                            USER_MESSAGES_TO_JUDGE as int,
                        ).map_values(|m: StoredView| m.text);
                        if texts.len() == 0 {
                            None
                        } else {
                            Some((mention_user_prompt_text(name, joined(texts, "\n"@)), false, None))
                        }
                    },
                }
            }
        },
        ProactiveBehavior::BotInteraction => {
            let others = bots.filter(not_me(my_bot_id));
            if others.len() == 0 {
                None
            } else {
                Some(
                    (
                        bot_interaction_prompt_text(others[(draw as int) % (others.len() as int)].1),
                        false,
                        None,
                    ),
                )
            }
        },
        ProactiveBehavior::TimeRandomStarter => Some((random_starter_prompt_text(), false, None)),
        ProactiveBehavior::TimeNewsStarter => {
            let topic = context_of(recent, 5);
            if topic.len() == 0 {
                None
            } else {
                Some((news_starter_prompt_text(topic), true, None))
            }
        },
        ProactiveBehavior::CatBehavior => Some((cat_behavior_prompt_text(), false, None)),
        ProactiveBehavior::PlayfulMode => Some((playful_prompt_text(), false, None)),
    }
}

/// A spontaneous message ready to ask for: the request, and the message it answers.
pub struct ProactivePlan {
    pub request: GrokRequest,
    pub reply_to: Option<i32>,
}

/// The request asks the proactive model for `prompt` after `history`.
pub open spec fn asks_for(
    grok: GrokClient,
    req: GrokRequest,
    prompt: Seq<char>,
    history: Seq<MessageView>,
    force_search: bool,
) -> bool {
    &&& req.model@ == grok.config.proactive_model@
    &&& messages_view(req.messages@) == prompt_messages(prompt, history)
    &&& req.sampling == Sampling::Proactive
    &&& req.max_tokens == grok.config.max_tokens
    &&& req.search == search_flag(grok.config.enable_search || force_search)
}

/// Prepares the request of a spontaneous message, with `draw` making the
/// random picks (which message, member or bot).
pub fn plan_proactive_by(
    grok: &GrokClient,
    behavior: ProactiveBehavior,
    members: &ActiveMembers,
    recent: &RecentMessages,
    bots: &ChatBots,
    history: &[Message],
    chat: ChatId,
    my_bot_id: UserId,
    draw: usize,
) -> (r: Option<ProactivePlan>)
    ensures
        match proactive_prompt(
            behavior,
            members.members_of(chat),
            recent.messages_of(chat),
            bots.bots_of(chat),
            my_bot_id,
            draw as nat,
        ) {
            Some((prompt, force, reply)) => r matches Some(p) && p.reply_to == reply && asks_for(
                *grok,
                p.request,
                prompt,
                messages_view(history@),
                force,
            ),
            None => r is None,
        },
{
    match behavior {
        ProactiveBehavior::NaturalComment => {
            let context = recent.get_recent_context(chat, 8);
            if context.as_str().unicode_len() == 0 {
                return None;
            }
            let request = grok.natural_comment_request(context.as_str(), history);
            Some(ProactivePlan { request, reply_to: None })
        },
        ProactiveBehavior::ReplyToMessage => {
            match recent.pick_replyable_message(chat, my_bot_id, draw) {
                Some((msg_id, username, text)) => {
                    let request = grok.reply_to_message_request(
                        username.as_str(),
                        text.as_str(),
                        history,
                    );
                    Some(ProactivePlan { request, reply_to: Some(msg_id) })
                },
                None => None,
            }
        },
        ProactiveBehavior::MentionUser => {
            let username = match members.pick_active_member(
                chat,
                MIN_MEMBERS_FOR_PROACTIVE,
                PROACTIVE_MEMBER_POOL,
                draw,
            ) {
                Some(u) => u,
                None => {
                    return None;
                },
            };
            let user_id = match recent.find_user_id(chat, username.as_str()) {
                Some(id) => id,
                None => {
                    return None;
                },
            };
            let user_messages = recent.get_user_recent_messages(
                chat,
                user_id,
                USER_MESSAGES_TO_JUDGE,
            );
            if user_messages.len() == 0 {
                return None;
            }
            let request = grok.mention_user_request(
                username.as_str(),
                user_messages.as_slice(),
                history,
            );
            Some(ProactivePlan { request, reply_to: None })
        },
        ProactiveBehavior::BotInteraction => {
            match bots.pick_bot(chat, my_bot_id, draw) {
                Some(bot_username) => {
                    let request = grok.bot_interaction_request(bot_username.as_str(), history);
                    Some(ProactivePlan { request, reply_to: None })
                },
                None => None,
            }
        },
        ProactiveBehavior::TimeRandomStarter => {
            Some(ProactivePlan { request: grok.random_starter_request(history), reply_to: None })
        },
        ProactiveBehavior::TimeNewsStarter => {
            match recent.extract_topic_from_recent(chat) {
                Some(topic) => {
                    let request = grok.news_starter_request(topic.as_str(), history);
                    Some(ProactivePlan { request, reply_to: None })
                },
                None => None,
            }
        },
        ProactiveBehavior::CatBehavior => {
            Some(ProactivePlan { request: grok.cat_behavior_request(history), reply_to: None })
        },
        ProactiveBehavior::PlayfulMode => {
            Some(ProactivePlan { request: grok.playful_mode_request(history), reply_to: None })
        },
    }
}

/// Prepares the request of a spontaneous message, making its random picks.
pub fn plan_proactive(
    grok: &GrokClient,
    behavior: ProactiveBehavior,
    members: &ActiveMembers,
    recent: &RecentMessages,
    bots: &ChatBots,
    history: &[Message],
    chat: ChatId,
    my_bot_id: UserId,
) -> (r: Option<ProactivePlan>)
    ensures
        exists|draw: nat|
            match #[trigger] proactive_prompt(
                behavior,
                members.members_of(chat),
                recent.messages_of(chat),
                bots.bots_of(chat),
                my_bot_id,
                draw,
            ) {
                Some((prompt, force, reply)) => r matches Some(p) && p.reply_to == reply && asks_for(
                    *grok,
                    p.request,
                    prompt,
                    messages_view(history@),
                    force,
                ),
                None => r is None,
            },
{
    let draw = random_usize();
    let r = plan_proactive_by(grok, behavior, members, recent, bots, history, chat, my_bot_id, draw);
    assert(proactive_prompt(
        behavior,
        members.members_of(chat),
        recent.messages_of(chat),
        bots.bots_of(chat),
        my_bot_id,
        draw as nat,
    ) == proactive_prompt(
        behavior,
        members.members_of(chat),
        recent.messages_of(chat),
        bots.bots_of(chat),
        my_bot_id,
        draw as nat,
    ));
    r
}

/// The chat's state once a time-based message went out at `now`: sent now,
/// and the next one scheduled by the draw.
pub open spec fn after_time_based(s: ChatState, now: u64, draw: u64) -> ChatState {
    ChatState {
        last_proactive_time: Some(now),
        next_proactive_time: Some((now + proactive_interval_secs(draw) * 1000) as u64),
        ..s
    }
}

/// Records a spontaneous message the model wrote: it joins the chat's
/// history as Momo's, and a time-based one reschedules the next.
pub fn finish_proactive_by(
    history: &mut ConversationHistory,
    states: &mut ChatStates,
    chat: ChatId,
    reply: String,
    is_time_based: bool,
    now: u64,
    draw: u64,
)
    requires
        now <= LATEST_TIME_MS,
    ensures
        final(history).history_of(chat) == old(history).history_of(chat).push(
            crate::grok::text_message("assistant"@, reply@),
        ),
        forall|c: ChatId| c != chat ==> #[trigger] final(history).history_of(c) == old(history).history_of(c),
        is_time_based ==> final(states).state_of(chat) == after_time_based(
            expired(old(states).state_of(chat), now),
            now,
            draw,
        ),
        !is_time_based ==> *final(states) == *old(states),
        forall|c: ChatId| c != chat ==> #[trigger] final(states).state_of(c) == old(states).state_of(c),
{
    history.push(chat, Message::text("assistant", reply));
    if is_time_based {
        let mut state = states.get_chat_state(chat, now);
        state.last_proactive_time = Some(now);
        state.schedule_next_proactive_by(now, draw);
        states.update_chat_state(chat, state);
    }
}

/// Records a spontaneous message the model wrote, scheduling the next
/// time-based one at random where this one was time-based.
pub fn finish_proactive(
    history: &mut ConversationHistory,
    states: &mut ChatStates,
    chat: ChatId,
    reply: String,
    is_time_based: bool,
    now: u64,
)
    requires
        now <= LATEST_TIME_MS,
    ensures
        final(history).history_of(chat) == old(history).history_of(chat).push(
            crate::grok::text_message("assistant"@, reply@),
        ),
        forall|c: ChatId| c != chat ==> #[trigger] final(history).history_of(c) == old(history).history_of(c),
        is_time_based ==> exists|draw: u64|
            final(states).state_of(chat) == #[trigger] after_time_based(
                expired(old(states).state_of(chat), now),
                now,
                draw,
            ),
        !is_time_based ==> *final(states) == *old(states),
        forall|c: ChatId| c != chat ==> #[trigger] final(states).state_of(c) == old(states).state_of(c),
{
    let draw = random_u64();
    finish_proactive_by(history, states, chat, reply, is_time_based, now, draw);
}

} // verus!
