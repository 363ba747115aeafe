//! Momo's moods and the per-chat state that times them and her spontaneous
//! messages. Times are milliseconds on a monotonic clock.
use vstd::prelude::*;

use std::collections::HashMap;

use crate::config::{MAX_TIME_BETWEEN_PROACTIVE, MIN_TIME_BETWEEN_PROACTIVE};
use crate::types::ChatId;
use crate::utils::random_u64;

verus! {

/// The latest time the state machine accepts, far beyond any clock reading;
/// it keeps every deadline it computes within `u64`.
pub const LATEST_TIME_MS: u64 = 4611686018427387904;

/// Momo's current mood/mode
#[derive(PartialEq, Eq, Structural, Clone, Copy, Debug)]
pub enum MomoMood {
    /// Default tsundere mode
    Normal,
    /// Cat is busy doing cat things, won't respond
    Busy,
    /// Wants to play and interact
    Playful,
    /// Annoyed by too much interaction
    Annoyed,
}

/// How long a mood lasts, in seconds (0 for the normal mood, which has no timer).
pub open spec fn mood_duration_secs(mood: MomoMood) -> u64 {
    match mood {
        MomoMood::Normal => 0,
        MomoMood::Busy => 180,
        MomoMood::Playful => 120,
        MomoMood::Annoyed => 300,
    }
}

impl MomoMood {
    /// Get typical duration for this mood, in seconds
    pub fn duration(&self) -> (r: u64)
        ensures
            r == mood_duration_secs(*self),
    {
        match self {
            MomoMood::Normal => 0,
            MomoMood::Busy => 180,
            MomoMood::Playful => 120,
            MomoMood::Annoyed => 300,
        }
    }
}

/// State tracking for a chat
#[derive(PartialEq, Eq, Structural, Clone, Copy, Debug)]
pub struct ChatState {
    pub mood: MomoMood,
    pub mood_expires_at: Option<u64>,
    pub last_proactive_time: Option<u64>,
    pub next_proactive_time: Option<u64>,
    /// Until when spontaneous messages are paused after Telegram refused a
    /// send. The pause, and the check of it before a spontaneous message
    /// starts, are this library's own design.
    pub proactive_blocked_until: Option<u64>,
}

/// The state of a chat that nothing has happened in yet.
pub open spec fn fresh_state() -> ChatState {
    ChatState {
        mood: MomoMood::Normal,
        mood_expires_at: None,
        last_proactive_time: None,
        next_proactive_time: None,
        proactive_blocked_until: None,
    }
}

/// The state once a mood whose time is up at `now` has worn off.
pub open spec fn expired(s: ChatState, now: u64) -> ChatState {
    match s.mood_expires_at {
        Some(t) => if now >= t {
            ChatState { mood: MomoMood::Normal, mood_expires_at: None, ..s }
        } else {
            s
        },
        None => s,
    }
}

/// The state with a new mood set at `now`: every mood but the normal one
/// expires after its duration.
pub open spec fn with_mood(s: ChatState, mood: MomoMood, now: u64) -> ChatState {
    ChatState {
        mood,
        mood_expires_at: if mood != MomoMood::Normal {
            Some((now + mood_duration_secs(mood) * 1000) as u64)
        } else {
            None
        },
        ..s
    }
}

/// The interval, in seconds, before the next time-based message, for a draw.
pub open spec fn proactive_interval_secs(draw: u64) -> u64 {
    (MIN_TIME_BETWEEN_PROACTIVE + (draw as int) % ((MAX_TIME_BETWEEN_PROACTIVE - MIN_TIME_BETWEEN_PROACTIVE) as int)) as u64
}

/// The interval before the next time-based message for a draw: between the
/// minimum (included) and the maximum (excluded).
pub fn proactive_interval(draw: u64) -> (r: u64)
    ensures
        r == proactive_interval_secs(draw),
        MIN_TIME_BETWEEN_PROACTIVE <= r < MAX_TIME_BETWEEN_PROACTIVE,
{
    MIN_TIME_BETWEEN_PROACTIVE + draw % (MAX_TIME_BETWEEN_PROACTIVE - MIN_TIME_BETWEEN_PROACTIVE)
}

impl ChatState {
    pub fn new() -> (r: ChatState)
        ensures
            r == fresh_state(),
    {
        ChatState {
            mood: MomoMood::Normal,
            mood_expires_at: None,
            last_proactive_time: None,
            next_proactive_time: None,
            proactive_blocked_until: None,
        }
    }

    /// Sets the next time-based message `proactive_interval_secs(draw)` seconds after `now`.
    pub fn schedule_next_proactive_by(&mut self, now: u64, draw: u64)
        requires
            now <= LATEST_TIME_MS,
        ensures
            *final(self) == (ChatState {
                next_proactive_time: Some((now + proactive_interval_secs(draw) * 1000) as u64),
                ..*old(self)
            }),
    {
        let interval = proactive_interval(draw);
        self.next_proactive_time = Some(now + interval * 1000);
    }

    /// Set the next proactive time with random interval: four to twelve hours from `now`.
    pub fn schedule_next_proactive(&mut self, now: u64)
        requires
            now <= LATEST_TIME_MS,
        ensures
            exists|draw: u64|
                *final(self) == (ChatState {
                    next_proactive_time: Some(
                        (now + #[trigger] proactive_interval_secs(draw) * 1000) as u64,
                    ),
                    ..*old(self)
                }),
            final(self).next_proactive_time matches Some(t) && now + MIN_TIME_BETWEEN_PROACTIVE
                * 1000 <= t < now + MAX_TIME_BETWEEN_PROACTIVE * 1000,
    {
        let draw = random_u64();
        self.schedule_next_proactive_by(now, draw);
    }

    /// Check if mood has expired and reset to normal
    pub fn check_mood_expiry(&mut self, now: u64)
        ensures
            *final(self) == expired(*old(self), now),
    {
        if let Some(expires_at) = self.mood_expires_at {
            if now >= expires_at {
                self.mood = MomoMood::Normal;
                self.mood_expires_at = None;
            }
        }
    }

    /// Set a new mood with duration
    pub fn set_mood(&mut self, mood: MomoMood, now: u64)
        requires
            now <= LATEST_TIME_MS,
        ensures
            *final(self) == with_mood(*old(self), mood, now),
    {
        self.mood = mood;
        if mood != MomoMood::Normal {
            self.mood_expires_at = Some(now + mood.duration() * 1000);
        } else {
            self.mood_expires_at = None;
        }
    }

    /// Check if bot should respond based on current mood
    /// Only affects proactive behaviors - explicit mentions always work
    pub fn should_respond(&self) -> (r: bool)
        ensures
            r == (self.mood != MomoMood::Busy),
    {
        match self.mood {
            MomoMood::Normal | MomoMood::Playful | MomoMood::Annoyed => true,
            MomoMood::Busy => false,
        }
    }

    /// Whether spontaneous messages are paused at `now`.
    pub fn proactive_paused(&self, now: u64) -> (r: bool)
        ensures
            r == (self.proactive_blocked_until matches Some(t) && now < t),
    {
        match self.proactive_blocked_until {
            Some(t) => now < t,
            None => false,
        }
    }
}

/// The states of all chats.
pub struct ChatStates {
    pub states: HashMap<ChatId, ChatState>,
}

impl ChatStates {
    /// The recorded state of a chat, or the fresh one.
    pub open spec fn state_of(self, chat: ChatId) -> ChatState {
        if self.states@.contains_key(chat) {
            self.states@[chat]
        } else {
            fresh_state()
        }
    }

    pub fn new() -> (r: ChatStates)
        ensures
            forall|c: ChatId| #[trigger] r.state_of(c) == fresh_state(),
    {
        ChatStates { states: HashMap::new() }
    }

    /// Get or create chat state, with any expired mood worn off.
    pub fn get_chat_state(&mut self, chat: ChatId, now: u64) -> (r: ChatState)
        ensures
            r == expired(old(self).state_of(chat), now),
            final(self).state_of(chat) == r,
            forall|c: ChatId| c != chat ==> #[trigger] final(self).state_of(c) == old(self).state_of(c),
    {
        let mut state = match self.states.get(&chat) {
            Some(s) => *s,
            None => ChatState::new(),
        };
        state.check_mood_expiry(now);
        self.states.insert(chat, state);
        state
    }

    /// Update chat state
    pub fn update_chat_state(&mut self, chat: ChatId, state: ChatState)
        ensures
            final(self).state_of(chat) == state,
            forall|c: ChatId| c != chat ==> #[trigger] final(self).state_of(c) == old(self).state_of(c),
    {
        self.states.insert(chat, state);
    }

    /// Set mood for a chat
    pub fn set_chat_mood(&mut self, chat: ChatId, mood: MomoMood, now: u64)
        requires
            now <= LATEST_TIME_MS,
        ensures
            final(self).state_of(chat) == with_mood(expired(old(self).state_of(chat), now), mood, now),
            forall|c: ChatId| c != chat ==> #[trigger] final(self).state_of(c) == old(self).state_of(c),
    {
        let mut state = self.get_chat_state(chat, now);
        state.set_mood(mood, now);
        self.update_chat_state(chat, state);
    }

    /// Pauses spontaneous messages in a chat for `cooldown_secs` seconds.
    pub fn pause_proactive(&mut self, chat: ChatId, now: u64, cooldown_secs: u64)
        requires
            now <= LATEST_TIME_MS,
            cooldown_secs <= LATEST_TIME_MS / 1000,
        ensures
            final(self).state_of(chat) == (ChatState {
                proactive_blocked_until: Some((now + cooldown_secs * 1000) as u64),
                ..expired(old(self).state_of(chat), now)
            }),
            forall|c: ChatId| c != chat ==> #[trigger] final(self).state_of(c) == old(self).state_of(c),
    {
        let mut state = self.get_chat_state(chat, now);
        state.proactive_blocked_until = Some(now + cooldown_secs * 1000);
        self.update_chat_state(chat, state);
    }

    /// Lifts any pause on spontaneous messages in a chat.
    pub fn clear_proactive_block(&mut self, chat: ChatId, now: u64)
        ensures
            final(self).state_of(chat) == (ChatState {
                proactive_blocked_until: None,
                ..expired(old(self).state_of(chat), now)
            }),
            forall|c: ChatId| c != chat ==> #[trigger] final(self).state_of(c) == old(self).state_of(c),
    {
        let mut state = self.get_chat_state(chat, now);
        state.proactive_blocked_until = None;
        self.update_chat_state(chat, state);
    }

    /// Whether a time-based message is due: the first time a chat is asked,
    /// a time is scheduled and the answer is no; after that it is due once
    /// the scheduled time has come.
    pub fn should_do_time_based_proactive_by(&mut self, chat: ChatId, now: u64, draw: u64) -> (r:
        bool)
        requires
            now <= LATEST_TIME_MS,
        ensures
            ({
                let s = expired(old(self).state_of(chat), now);
                match s.next_proactive_time {
                    None => !r && final(self).state_of(chat) == (ChatState {
                        next_proactive_time: Some(
                            (now + proactive_interval_secs(draw) * 1000) as u64,
                        ),
                        ..s
                    }),
                    Some(t) => r == (now >= t) && final(self).state_of(chat) == s,
                }
            }),
            forall|c: ChatId| c != chat ==> #[trigger] final(self).state_of(c) == old(self).state_of(c),
    {
        let mut state = self.get_chat_state(chat, now);
        if state.next_proactive_time.is_none() {
            state.schedule_next_proactive_by(now, draw);
            self.update_chat_state(chat, state);
            return false;
        }
        match state.next_proactive_time {
            Some(next_time) => now >= next_time,
            None => false,
        }
    }

    /// Whether a time-based message is due, scheduling one at random the
    /// first time a chat is asked.
    pub fn should_do_time_based_proactive(&mut self, chat: ChatId, now: u64) -> (r: bool)
        requires
            now <= LATEST_TIME_MS,
        ensures
            exists|draw: u64|
                {
                    let s = expired(old(self).state_of(chat), now);
                    match s.next_proactive_time {
                        None => !r && final(self).state_of(chat) == (ChatState {
                            next_proactive_time: Some(
                                (now + #[trigger] proactive_interval_secs(draw) * 1000) as u64,
                            ),
                            ..s
                        }),
                        Some(t) => r == (now >= t) && final(self).state_of(chat) == s,
                    }
                },
            forall|c: ChatId| c != chat ==> #[trigger] final(self).state_of(c) == old(self).state_of(c),
    {
        let draw = random_u64();
        let r = self.should_do_time_based_proactive_by(chat, now, draw);
        assert(proactive_interval_secs(draw) == proactive_interval_secs(draw));
        r
    }
}

} // verus!
