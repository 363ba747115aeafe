//! Tunable limits and chances of Momo's behaviour.
//!
//! Chances are written in parts per million of `ROLL_SCALE`: a roll drawn
//! uniformly below `ROLL_SCALE` that falls under a chance makes it happen.
use vstd::prelude::*;

verus! {

/// The range of a chance roll: rolls are drawn from `0..ROLL_SCALE`.
pub const ROLL_SCALE: u32 = 1000000;

/// Chance for a proactive message in groups (2.5%, about 1 in 40 messages).
pub const ACTIVE_MESSAGE_CHANCE: u32 = 25000;

/// Maximum number of active members to track per chat
pub const MAX_ACTIVE_MEMBERS_TRACKED: usize = 15;

/// Maximum conversation history to keep (messages)
pub const MAX_CONVERSATION_HISTORY: usize = 20;

/// Maximum recent messages to track per chat
pub const MAX_RECENT_MESSAGES: usize = 30;

/// Minimum active members required before proactive engagement
pub const MIN_MEMBERS_FOR_PROACTIVE: usize = 3;

/// Number of recent members to pick from for proactive mentions
pub const PROACTIVE_MEMBER_POOL: usize = 5;

/// Proactive behaviour chances: just say something naturally (50%)
pub const CHANCE_NATURAL_COMMENT: u32 = 500000;
/// Reply to a message (30%)
pub const CHANCE_REPLY_TO_MESSAGE: u32 = 300000;
/// Mention and judge a user (15%)
pub const CHANCE_MENTION_USER: u32 = 150000;
/// Interact with another bot (3%); the remaining 2% is a conversation starter.
pub const CHANCE_BOT_INTERACTION: u32 = 30000;

/// Minimum seconds between time-based proactive messages (4 hours)
pub const MIN_TIME_BETWEEN_PROACTIVE: u64 = 14400;
/// Maximum seconds between time-based proactive messages (12 hours)
pub const MAX_TIME_BETWEEN_PROACTIVE: u64 = 43200;
/// Chance for a cat behaviour post when a time-based message is due (30%)
pub const CHANCE_CAT_BEHAVIOR: u32 = 300000;
/// Chance for playful mode when a time-based message is due (15%)
pub const CHANCE_PLAYFUL_MODE: u32 = 150000;
/// Where a time-based roll passes from the random starter to the news
/// starter: the rolls left after the cat post and playful mode (55%) are
/// split evenly between the two starters, 27.5% each.
pub const TIME_STARTER_SPLIT: u32 = 725000;

/// Number of recent messages from a user to judge
pub const USER_MESSAGES_TO_JUDGE: usize = 5;

/// Chance to answer a cat-bait keyword without being addressed (25%; a
/// value of this library's own choosing)
pub const CAT_BAIT_RESPONSE_CHANCE: u32 = 250000;
/// Chance to follow a reply with a sticker, in the normal mood (10%; a value
/// of this library's own choosing)
pub const STICKER_REPLY_CHANCE: u32 = 100000;
/// Chance per addressed message that playful Momo turns annoyed (20%)
pub const CHANCE_PLAYFUL_TO_ANNOYED: u32 = 200000;

/// Number of stored message summaries given to the model as context (a
/// value of this library's own choosing)
pub const DB_CONTEXT_SUMMARIES: usize = 10;
/// Number of recent group messages given to the model as context (a value
/// of this library's own choosing)
pub const GROUP_CONTEXT_MESSAGES: usize = 10;
/// Maximum number of images attached to one model request (a value of this
/// library's own choosing)
pub const MAX_MEDIA_ATTACHMENTS: usize = 4;
/// Seconds proactive messages stay paused after Telegram refuses a message
/// (one hour; a value of this library's own choosing)
pub const PROACTIVE_BLOCK_COOLDOWN_SECS: u64 = 3600;

/// Grok API configuration
pub const GROK_API_URL: &'static str = "https://api.x.ai/v1/chat/completions";
/// Default chat model
pub const GROK_MODEL: &'static str = "grok-4-fast-reasoning";
/// Default model for spontaneous messages (the chat model; a value of this
/// library's own choosing)
pub const GROK_MODEL_PROACTIVE: &'static str = "grok-4-fast-reasoning";
/// Default completion budget
pub const GROK_MAX_TOKENS: u32 = 1024;
/// Whether live search is on unless configured (off; a value of this
/// library's own choosing)
pub const GROK_ENABLE_SEARCH_DEFAULT: bool = false;
/// Whether images are sent to the model unless configured (on; a value of
/// this library's own choosing)
pub const GROK_ENABLE_MULTIMODAL_DEFAULT: bool = true;

} // verus!
