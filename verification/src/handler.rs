//! The decisions of the message handler: what a message says and carries,
//! how it is summarised and remembered, whether and how Momo answers, and
//! what a refused send does to her spontaneous messages.
use vstd::prelude::*;

use crate::config::{
    ACTIVE_MESSAGE_CHANCE, CAT_BAIT_RESPONSE_CHANCE, CHANCE_PLAYFUL_TO_ANNOYED,
    GROUP_CONTEXT_MESSAGES, MAX_CONVERSATION_HISTORY, MAX_MEDIA_ATTACHMENTS,
    PROACTIVE_BLOCK_COOLDOWN_SECS, ROLL_SCALE, STICKER_REPLY_CHANCE,
};
use crate::db::DbEntry;
use crate::grok::{
    chat_messages, clone_parts, messages_view, opt_view, parts_view, search_flag, Content,
    ContentPart, ContentView, GrokClient, GrokRequest, ImageUrl, Message, MessageView, PartView,
    Sampling,
};
use crate::history::{keep_last, ConversationHistory};
use crate::utils::is_group_or_channel;
use crate::prompts::CAT_BAIT_RESPONSES;
use crate::state::{expired, ChatState, ChatStates, MomoMood, LATEST_TIME_MS};
use crate::text::{
    chars_of, contains_chars, join_strings, joined, lowercase, seq_contains, str_contains,
    string_views, to_lowercase,
};
use crate::members::{after_tracking, ActiveMembers};
use crate::tracking::{
    after_bot, after_message, context_of, stored_from, take_up_to, ChatBots, RecentMessages,
};
use crate::types::{
    display_name, format_username, ChatId, ChatKind, IncomingMessage, PhotoInfo, Sender,
    StickerInfo, StoredView,
};

verus! {

broadcast use vstd::seq_lib::group_seq_properties;

/// What a message carries besides its text.
pub struct MediaCapture {
    pub attachments: Vec<ContentPart>,
    pub attachment_file_ids: Vec<String>,
    pub media_type: Option<String>,
    pub media_ref: Option<String>,
    pub summary: Option<String>,
}

/// The name of a message's author: their display name, else "someone".
pub open spec fn sender_name(msg: IncomingMessage) -> Seq<char> {
    match msg.from {
        Some(u) => display_name(u),
        None => "someone"@,
    }
}

/// The pixel area of a photo size.
pub open spec fn area(p: PhotoInfo) -> nat {
    p.height as nat * p.width as nat
}

/// The index of the largest photo size; among equals, the last.
pub open spec fn best_photo(ps: Seq<PhotoInfo>) -> int
    decreases ps.len(),
{
    if ps.len() <= 1 {
        0
    } else {
        let b = best_photo(ps.drop_last());
        if area(ps.last()) >= area(ps[b]) {
            ps.len() - 1
        } else {
            b
        }
    }
}

/// `best_photo` picks an index of the sequence.
proof fn lemma_best_photo_in_range(ps: Seq<PhotoInfo>)
    requires
        ps.len() > 0,
    ensures
        0 <= best_photo(ps) < ps.len(),
    decreases ps.len(),
{
    if ps.len() > 1 {
        lemma_best_photo_in_range(ps.drop_last());
    }
}

/// The sticker's emoji, else a grinning cat.
pub open spec fn sticker_emoji(s: StickerInfo) -> Seq<char> {
    match s.emoji {
        Some(e) => e@,
        None => "😼"@,
    }
}

/// The kind of media a message carries: a sticker, else a photo.
pub open spec fn media_type_of(msg: IncomingMessage) -> Option<Seq<char>> {
    match msg.sticker {
        Some(_) => Some("sticker"@),
        None => match msg.photos {
            Some(ps) => if ps@.len() > 0 {
                Some("photo"@)
            } else {
                None
            },
            None => None,
        },
    }
}

/// The file of the media a message carries: the sticker, else the largest photo.
pub open spec fn media_ref_of(msg: IncomingMessage) -> Option<Seq<char>> {
    match msg.sticker {
        Some(s) => Some(s.file_id@),
        None => match msg.photos {
            Some(ps) => if ps@.len() > 0 {
                Some(ps@[best_photo(ps@)].file_id@)
            } else {
                None
            },
            None => None,
        },
    }
}

/// How a message's media reads in a summary.
pub open spec fn media_summary_of(msg: IncomingMessage) -> Option<Seq<char>> {
    match msg.sticker {
        Some(s) => Some("sticker "@ + sticker_emoji(s) + " from @"@ + sender_name(msg)),
        None => match msg.photos {
            Some(ps) => if ps@.len() > 0 {
                let caption = match msg.caption {
                    Some(c) => c@,
                    None => Seq::<char>::empty(),
                };
                if caption.len() == 0 {
                    Some("photo from @"@ + sender_name(msg))
                } else {
                    Some("photo from @"@ + sender_name(msg) + " (caption: "@ + caption + ")"@)
                }
            } else {
                None
            },
            None => None,
        },
    }
}

/// The image of a message to show the model, where images are allowed: a
/// still sticker, or the largest photo.
pub open spec fn image_to_fetch(msg: IncomingMessage, allow_multimodal: bool, allow_media: bool) -> Option<
    Seq<char>,
> {
    if !(allow_multimodal && allow_media) {
        None
    } else {
        match msg.sticker {
            Some(s) => if !s.is_animated && !s.is_video {
                Some(s.file_id@)
            } else {
                None
            },
            None => media_ref_of(msg),
        }
    }
}

/// The media of a message, before any image is fetched, and the image to fetch.
pub struct MediaPlan {
    pub capture: MediaCapture,
    pub fetch: Option<String>,
}

/// The pixel area of a photo size.
fn photo_area(p: &PhotoInfo) -> (r: u64)
    ensures
        r == area(*p),
{
    let h = p.height as u64;
    let w = p.width as u64;
    assert(h * w <= u64::MAX) by (nonlinear_arith)
        requires
            h <= u32::MAX,
            w <= u32::MAX,
    ;
    h * w
}

/// The largest photo size; among equals, the last.
fn best_photo_index(photos: &Vec<PhotoInfo>) -> (r: usize)
    requires
        photos@.len() > 0,
    ensures
        r == best_photo(photos@),
        r < photos@.len(),
{
    let mut best: usize = 0;
    let mut i: usize = 1;
    assert(photos@.take(1).len() == 1);
    while i < photos.len()
        invariant
            1 <= i <= photos.len(),
            best < i,
            best == best_photo(photos@.take(i as int)),
        decreases photos.len() - i,
    {
        let a = photo_area(&photos[i]);
        let b = photo_area(&photos[best]);
        assert(photos@.take(i as int + 1).drop_last() =~= photos@.take(i as int));
        assert(photos@.take(i as int)[best as int] == photos@[best as int]);
        if a >= b {
            best = i;
        }
        i = i + 1;
    }
    assert(photos@.take(photos.len() as int) =~= photos@);
    best
}

/// The sender's name, as `sender_name` says.
fn sender_name_of(msg: &IncomingMessage) -> (r: String)
    ensures
        r@ == sender_name(*msg),
{
    match &msg.from {
        Some(u) => format_username(u),
        None => String::from_str("someone"),
    }
}

/// The media of a message, and the image to fetch for the model.
pub fn capture_media(msg: &IncomingMessage, allow_multimodal: bool, allow_media: bool) -> (r: MediaPlan)
    ensures
        r.capture.attachments@.len() == 0,
        r.capture.attachment_file_ids@.len() == 0,
        opt_view(r.capture.media_type) == media_type_of(*msg),
        opt_view(r.capture.media_ref) == media_ref_of(*msg),
        opt_view(r.capture.summary) == media_summary_of(*msg),
        opt_view(r.fetch) == image_to_fetch(*msg, allow_multimodal, allow_media),
{
    let sender = sender_name_of(msg);
    let mut capture = MediaCapture {
        attachments: Vec::new(),
        attachment_file_ids: Vec::new(),
        media_type: None,
        media_ref: None,
        summary: None,
    };
    let mut fetch: Option<String> = None;
    match &msg.sticker {
        Some(sticker) => {
            capture.media_type = Some(String::from_str("sticker"));
            capture.media_ref = Some(sticker.file_id.clone());
            let emoji = match &sticker.emoji {
                Some(e) => e.clone(),
                None => String::from_str("😼"),
            };
            let mut summary = String::from_str("sticker ");
            summary.append(emoji.as_str());
            summary.append(" from @");
            summary.append(sender.as_str());
            capture.summary = Some(summary);
            let is_raster = !sticker.is_animated && !sticker.is_video;
            if allow_multimodal && allow_media && is_raster {
                fetch = Some(sticker.file_id.clone());
            }
        },
        None => match &msg.photos {
            Some(photos) => {
                if photos.len() > 0 {
                    let best = best_photo_index(photos);
                    capture.media_type = Some(String::from_str("photo"));
                    capture.media_ref = Some(photos[best].file_id.clone());
                    if allow_multimodal && allow_media {
                        fetch = Some(photos[best].file_id.clone());
                    }
                    let mut summary = String::from_str("photo from @");
                    summary.append(sender.as_str());
                    match &msg.caption {
                        Some(caption) => {
                            if caption.as_str().unicode_len() > 0 {
                                summary.append(" (caption: ");
                                summary.append(caption.as_str());
                                summary.append(")");
                            }
                        },
                        None => {},
                    }
                    capture.summary = Some(summary);
                }
            },
            None => {},
        },
    }
    MediaPlan { capture, fetch }
}

/// Adds a fetched image to a message's media.
pub fn add_attachment(capture: &mut MediaCapture, file_id: String, part: ContentPart)
    ensures
        parts_view(final(capture).attachments@) == parts_view(old(capture).attachments@).push(part@),
        string_views(final(capture).attachment_file_ids@) == string_views(
            old(capture).attachment_file_ids@,
        ).push(file_id@),
        opt_view(final(capture).media_type) == opt_view(old(capture).media_type),
        opt_view(final(capture).media_ref) == opt_view(old(capture).media_ref),
        opt_view(final(capture).summary) == opt_view(old(capture).summary),
{
    let ghost a = parts_view(capture.attachments@);
    let ghost f = string_views(capture.attachment_file_ids@);
    capture.attachment_file_ids.push(file_id);
    capture.attachments.push(part);
    assert(parts_view(capture.attachments@) =~= a.push(part@));
    assert(string_views(capture.attachment_file_ids@) =~= f.push(file_id@));
}

/// The attachment part that shows the model an image, in high detail.
pub fn image_attachment(data_url: String) -> (r: ContentPart)
    ensures
        r@ == (PartView::ImageUrl { url: data_url@, detail: Some("high"@) }),
{
    ContentPart::ImageUrl {
        image_url: ImageUrl { url: data_url, detail: Some(String::from_str("high")) },
    }
}

/// The text of a message: its text, else its caption, else its media summary.
pub open spec fn message_text(msg: IncomingMessage, summary: Option<Seq<char>>) -> Option<Seq<char>> {
    match msg.text {
        Some(t) => Some(t@),
        None => match msg.caption {
            Some(c) => Some(c@),
            None => summary,
        },
    }
}

/// The text of a message: its text, else its caption, else its media
/// summary; none for a message with none of these.
pub fn text_of(msg: &IncomingMessage, media: &MediaCapture) -> (r: Option<String>)
    ensures
        opt_view(r) == message_text(*msg, opt_view(media.summary)),
{
    match &msg.text {
        Some(t) => Some(t.clone()),
        None => match &msg.caption {
            Some(c) => Some(c.clone()),
            None => match &media.summary {
                Some(s) => Some(s.clone()),
                None => None,
            },
        },
    }
}

/// The first `max` characters of a text, followed by "…" where any were cut.
pub open spec fn truncated(text: Seq<char>, max: nat) -> Seq<char> {
    if text.len() <= max {
        text
    } else {
        text.take(max as int) + "…"@
    }
}

/// Shortens a text to `max` characters, marking the cut with "…".
pub fn truncate_for_context(text: &str, max: usize) -> (r: String)
    ensures
        r@ == truncated(text@, max as nat),
{
    if text.unicode_len() <= max {
        String::from_str(text)
    } else {
        let mut r = String::from_str(text.substring_char(0, max));
        r.append("…");
        r
    }
}

/// A reply's summary: "@who: snippet", with the media summary in brackets.
pub open spec fn reply_summary_text(reply_user: Option<Seq<char>>, text: Seq<char>, media_summary: Option<
    Seq<char>,
>) -> Seq<char> {
    let who = match reply_user {
        Some(u) => u,
        None => "someone"@,
    };
    let snippet = truncated(text, 160);
    match media_summary {
        Some(m) => "@"@ + who + ": "@ + snippet + " ("@ + m + ")"@,
        None => "@"@ + who + ": "@ + snippet,
    }
}

/// The view of an optional string slice.
pub open spec fn opt_str(o: Option<&str>) -> Option<Seq<char>> {
    match o {
        Some(s) => Some(s@),
        None => None,
    }
}

/// Summarises the message being replied to (always some summary).
pub fn format_reply_summary(reply_user: Option<String>, text: &str, media_summary: Option<&str>) -> (r:
    Option<String>)
    ensures
        r matches Some(s) && s@ == reply_summary_text(opt_view(reply_user), text@, opt_str(media_summary)),
{
    let who = match reply_user {
        Some(u) => u,
        None => String::from_str("someone"),
    };
    let snippet = truncate_for_context(text, 160);
    let mut r = String::from_str("@");
    r.append(who.as_str());
    r.append(": ");
    r.append(snippet.as_str());
    match media_summary {
        Some(m) => {
            r.append(" (");
            r.append(m);
            r.append(")");
        },
        None => {},
    }
    Some(r)
}

/// The author of the message being replied to, by display name.
pub open spec fn reply_author(msg: IncomingMessage) -> Option<Seq<char>> {
    match msg.reply_to {
        Some(m) => match m.from {
            Some(u) => Some(display_name(u)),
            None => None,
        },
        None => None,
    }
}

/// The author of the message being replied to, by display name.
pub fn reply_to_username(msg: &IncomingMessage) -> (r: Option<String>)
    ensures
        opt_view(r) == reply_author(*msg),
{
    match &msg.reply_to {
        Some(m) => match &m.from {
            Some(u) => Some(format_username(u)),
            None => None,
        },
        None => None,
    }
}

/// The summary of a message for the log: "@user: text" (text cut at 180
/// characters), then "[reply to …]" and "[media: …]" where there are such,
/// separated by spaces.
pub open spec fn db_summary_text(username: Seq<char>, text: Seq<char>, reply_summary: Option<
    Seq<char>,
>, media_summary: Option<Seq<char>>) -> Seq<char> {
    let first = "@"@ + username + ": "@ + truncated(text, 180);
    let parts = seq![first] + match reply_summary {
        Some(r) => seq!["[reply to "@ + r + "]"@],
        None => Seq::empty(),
    } + match media_summary {
        Some(m) => seq!["[media: "@ + m + "]"@],
        None => Seq::empty(),
    };
    joined(parts, " "@)
}

/// The summary of a message for the log.
pub fn build_db_summary(username: &str, text: &str, reply_summary: Option<&str>, media: &MediaCapture) -> (r:
    String)
    ensures
        r@ == db_summary_text(username@, text@, opt_str(reply_summary), opt_view(media.summary)),
{
    let mut parts: Vec<String> = Vec::new();
    let mut first = String::from_str("@");
    first.append(username);
    first.append(": ");
    let t = truncate_for_context(text, 180);
    first.append(t.as_str());
    parts.push(first);
    match reply_summary {
        Some(reply) => {
            let mut p = String::from_str("[reply to ");
            p.append(reply);
            p.append("]");
            parts.push(p);
        },
        None => {},
    }
    match &media.summary {
        Some(m) => {
            let mut p = String::from_str("[media: ");
            p.append(m.as_str());
            p.append("]");
            parts.push(p);
        },
        None => {},
    }
    let ghost expected = seq!["@"@ + username@ + ": "@ + truncated(text@, 180)] + match opt_str(reply_summary) {
        Some(r) => seq!["[reply to "@ + r + "]"@],
        None => Seq::<Seq<char>>::empty(),
    } + match opt_view(media.summary) {
        Some(m) => seq!["[media: "@ + m + "]"@],
        None => Seq::<Seq<char>>::empty(),
    };
    assert(string_views(parts@) =~= expected);
    join_strings(parts.as_slice(), " ")
}

/// `e` logs the message `message_id` that `user` sent in `chat_id`, with
/// its text, media and summary.
pub open spec fn entry_for(
    e: DbEntry,
    chat_id: ChatId,
    message_id: i32,
    user: Sender,
    text: Seq<char>,
    reply_summary: Option<Seq<char>>,
    media: MediaCapture,
) -> bool {
    &&& e.chat_id == chat_id
    &&& e.message_id == message_id
    &&& e.user_id == user.id as i64
    &&& e.username@ == display_name(user)
    &&& e.text@ == text
    &&& opt_view(e.media_type) == opt_view(media.media_type)
    &&& opt_view(e.media_ref) == opt_view(media.media_ref)
    &&& e.summary@ == db_summary_text(display_name(user), text, reply_summary, opt_view(media.summary))
}

/// The log entry of a message from `user`.
pub fn build_db_entry(
    chat_id: ChatId,
    message_id: i32,
    user: &Sender,
    text: &str,
    reply_summary: Option<&str>,
    media: &MediaCapture,
) -> (r: DbEntry)
    ensures
        entry_for(r, chat_id, message_id, *user, text@, opt_str(reply_summary), *media),
{
    let username = format_username(user);
    let summary = build_db_summary(username.as_str(), text, reply_summary, media);
    let media_type = match &media.media_type {
        Some(m) => Some(m.clone()),
        None => None,
    };
    let media_ref = match &media.media_ref {
        Some(m) => Some(m.clone()),
        None => None,
    };
    DbEntry {
        chat_id,
        message_id,
        user_id: user.id as i64,
        username,
        text: String::from_str(text),
        media_type,
        media_ref,
        summary,
    }
}

/// The keywords that bait the cat.
pub open spec fn bait_keywords() -> Seq<Seq<char>> {
    seq![
        "shrimp"@,
        "prawn"@,
        "🍤"@,
        "虾"@,
        "虾仁"@,
        "catnip"@,
        "snack"@,
        "treat"@,
        "rua"@,
        "摸摸"@,
        "pet me"@,
        "petting"@,
    ]
}

/// Every character is ASCII.
pub open spec fn all_ascii(s: Seq<char>) -> bool {
    forall|i: int| 0 <= i < s.len() ==> (#[trigger] s[i] as u32) < 128
}

/// A keyword is found: one with other than ASCII characters in the text as
/// it is, an ASCII one in the lowercased text.
pub open spec fn keyword_found(text: Seq<char>, kw: Seq<char>) -> bool {
    if !all_ascii(kw) {
        seq_contains(text, kw)
    } else {
        seq_contains(lowercase(text), kw)
    }
}

/// The text holds a cat-bait keyword.
pub open spec fn has_cat_bait(text: Seq<char>) -> bool {
    exists|k: int| 0 <= k < bait_keywords().len() && keyword_found(text, #[trigger] bait_keywords()[k])
}

/// Whether every character of `s` is ASCII.
fn is_all_ascii(s: &Vec<char>) -> (r: bool)
    ensures
        r == all_ascii(s@),
{
    let mut i: usize = 0;
    while i < s.len()
        invariant
            i <= s.len(),
            forall|j: int| 0 <= j < i ==> (#[trigger] s@[j] as u32) < 128,
        decreases s.len() - i,
    {
        if s[i] as u32 >= 128 {
            return false;
        }
        i = i + 1;
    }
    true
}

/// Whether the text holds a cat-bait keyword: snacks, shrimp, catnip or petting.
pub fn contains_cat_bait(text: &str) -> (r: bool)
    ensures
        r == has_cat_bait(text@),
{
    let lower = to_lowercase(text);
    let lower_chars = chars_of(lower.as_str());
    let text_chars = chars_of(text);
    let keywords: [&'static str; 12] = [
        "shrimp",
        "prawn",
        "🍤",
        "虾",
        "虾仁",
        "catnip",
        "snack",
        "treat",
        "rua",
        "摸摸",
        "pet me",
        "petting",
    ];
    assert(keywords@.map_values(|s: &'static str| s@) =~= bait_keywords());
    let mut k: usize = 0;
    while k < 12
        invariant
            k <= 12,
            keywords@.map_values(|s: &'static str| s@) == bait_keywords(),
            lower_chars@ == lowercase(text@),
            text_chars@ == text@,
            forall|j: int| 0 <= j < k ==> !keyword_found(text@, #[trigger] bait_keywords()[j]),
        decreases 12 - k,
    {
        let kw = chars_of(keywords[k]);
        assert(kw@ == bait_keywords()[k as int]);
        let found = if !is_all_ascii(&kw) {
            contains_chars(&text_chars, &kw)
        } else {
            contains_chars(&lower_chars, &kw)
        };
        if found {
            return true;
        }
        k = k + 1;
    }
    false
}

/// The reply to a cat-bait keyword that `draw` selects.
pub fn cat_bait_response(draw: usize) -> (r: &'static str)
    ensures
        r@ == CAT_BAIT_RESPONSES@[(draw % 4) as int]@,
{
    CAT_BAIT_RESPONSES[draw % 4]
}

/// The kinds of Telegram API errors that matter to Momo's manners.
#[derive(PartialEq, Eq, Structural, Clone, Copy, Debug)]
pub enum ApiErrorKind {
    BotBlocked,
    BotKicked,
    BotKickedFromSupergroup,
    ChatNotFound,
    UserDeactivated,
    Other,
}

/// The kind of a failed send.
#[derive(PartialEq, Eq, Structural, Clone, Copy, Debug)]
pub enum SendErrorKind {
    /// Telegram asked to slow down.
    RetryAfter,
    /// Telegram refused the request.
    Api(ApiErrorKind),
    /// The request failed otherwise (network, parsing).
    Other,
}

/// A failed send: its kind, and the error's message as it displays.
pub struct SendError {
    pub kind: SendErrorKind,
    pub message: String,
}

/// A refusal that means Momo cannot speak in the chat: she was blocked or
/// removed, the chat or user is gone, or the error says the bot may not
/// start the conversation, is forbidden, or lacks rights. Any other failure
/// counts only where its message says forbidden.
pub open spec fn pauses_proactive(kind: SendErrorKind, message: Seq<char>) -> bool {
    let m = lowercase(message);
    match kind {
        SendErrorKind::Api(k) => k != ApiErrorKind::Other || seq_contains(
            m,
            "initiate conversation with a user"@,
        ) || seq_contains(m, "forbidden"@) || seq_contains(m, "not enough rights"@),
        _ => seq_contains(m, "forbidden"@),
    }
}

/// Whether a failed send should pause spontaneous messages.
pub fn should_pause_proactive(err: &SendError) -> (r: bool)
    ensures
        r == pauses_proactive(err.kind, err.message@),
{
    let m = to_lowercase(err.message.as_str());
    match err.kind {
        SendErrorKind::Api(k) => {
            k != ApiErrorKind::Other || str_contains(m.as_str(), "initiate conversation with a user")
                || str_contains(m.as_str(), "forbidden") || str_contains(
                m.as_str(),
                "not enough rights",
            )
        },
        _ => str_contains(m.as_str(), "forbidden"),
    }
}

/// Deals with a failed send: a rate limit is waited out; a refusal pauses
/// spontaneous messages in the chat for the cooldown.
pub fn handle_send_error(states: &mut ChatStates, chat: ChatId, err: &SendError, now: u64)
    requires
        now <= LATEST_TIME_MS,
    ensures
        err.kind != SendErrorKind::RetryAfter && pauses_proactive(err.kind, err.message@)
            ==> final(states).state_of(chat) == (ChatState {
            proactive_blocked_until: Some((now + PROACTIVE_BLOCK_COOLDOWN_SECS * 1000) as u64),
            ..expired(old(states).state_of(chat), now)
        }),
        !(err.kind != SendErrorKind::RetryAfter && pauses_proactive(err.kind, err.message@))
            ==> *final(states) == *old(states),
        forall|c: ChatId| c != chat ==> #[trigger] final(states).state_of(c) == old(states).state_of(c),
{
    if err.kind == SendErrorKind::RetryAfter {
        return ;
    }
    if should_pause_proactive(err) {
        states.pause_proactive(chat, now, PROACTIVE_BLOCK_COOLDOWN_SECS);
    }
}

/// The chance of following a reply with a sticker in a mood: likelier when
/// playful, less so when annoyed, never when busy.
pub open spec fn sticker_chance(mood: MomoMood) -> nat {
    let c = match mood {
        MomoMood::Playful => (STICKER_REPLY_CHANCE as nat) * 3 / 2,
        MomoMood::Annoyed => (STICKER_REPLY_CHANCE as nat) / 2,
        MomoMood::Busy => 0nat,
        MomoMood::Normal => STICKER_REPLY_CHANCE as nat,
    };
    if c > ROLL_SCALE {
        ROLL_SCALE as nat
    } else {
        c
    }
}

/// Whether a sticker follows the reply, for a roll below `ROLL_SCALE`:
/// where the roll falls below the mood's chance, so never when busy.
pub fn sticker_wanted(mood: MomoMood, roll: u32) -> (r: bool)
    ensures
        r == (roll < sticker_chance(mood)),
{
    let chance: u32 = match mood {
        MomoMood::Playful => STICKER_REPLY_CHANCE * 3 / 2,
        MomoMood::Annoyed => STICKER_REPLY_CHANCE / 2,
        MomoMood::Busy => 0,
        MomoMood::Normal => STICKER_REPLY_CHANCE,
    };
    let capped = if chance > ROLL_SCALE {
        ROLL_SCALE
    } else {
        chance
    };
    roll < capped
}

/// Whether a message sets off a spontaneous message: in groups and channels
/// only, by chance.
pub fn should_be_proactive(kind: ChatKind, roll: u32) -> (r: bool)
    ensures
        r == (kind != ChatKind::Private && roll < ACTIVE_MESSAGE_CHANCE),
{
    kind != ChatKind::Private && roll < ACTIVE_MESSAGE_CHANCE
}

/// How Momo deals with a message once no spontaneous message went out.
#[derive(PartialEq, Eq, Structural, Clone, Copy, Debug)]
pub enum ResponsePlan {
    /// Say nothing.
    Ignore,
    /// Pounce on a cat-bait keyword with a canned reply.
    CatBait,
    /// Turn annoyed and sulk at the author.
    Annoyed,
    /// Answer through the model.
    Converse,
}

/// The plan for a message: when not addressed, a cat-bait reply where her
/// mood allows, the text baits her, the roll succeeds and the author is not a
/// bot (or unknown), else nothing; when addressed in playful mood, turn
/// annoyed for a lucky roll; else converse.
pub open spec fn response_plan(
    addressed: bool,
    state: ChatState,
    text: Seq<char>,
    author_is_bot: Option<bool>,
    bait_roll: nat,
    annoy_roll: nat,
) -> ResponsePlan {
    if !addressed {
        if state.mood != MomoMood::Busy && has_cat_bait(text) && bait_roll < CAT_BAIT_RESPONSE_CHANCE
            && author_is_bot != Some(true) {
            ResponsePlan::CatBait
        } else {
            ResponsePlan::Ignore
        }
    } else if state.mood == MomoMood::Playful && annoy_roll < CHANCE_PLAYFUL_TO_ANNOYED {
        ResponsePlan::Annoyed
    } else {
        ResponsePlan::Converse
    }
}

/// Decides how to deal with a message.
pub fn plan_response(
    addressed: bool,
    state: &ChatState,
    text: &str,
    author_is_bot: Option<bool>,
    bait_roll: u32,
    annoy_roll: u32,
) -> (r: ResponsePlan)
    ensures
        r == response_plan(addressed, *state, text@, author_is_bot, bait_roll as nat, annoy_roll as nat),
{
    if !addressed {
        let human = match author_is_bot {
            Some(b) => !b,
            None => true,
        };
        if state.should_respond() && contains_cat_bait(text) && bait_roll < CAT_BAIT_RESPONSE_CHANCE
            && human {
            return ResponsePlan::CatBait;
        }
        return ResponsePlan::Ignore;
    }
    if state.mood == MomoMood::Playful && annoy_roll < CHANCE_PLAYFUL_TO_ANNOYED {
        return ResponsePlan::Annoyed;
    }
    ResponsePlan::Converse
}

/// Attachments of the reply first, then of the message itself, at most
/// `MAX_MEDIA_ATTACHMENTS` of them; their file ids alike.
pub fn combine_attachments(reply: Option<&MediaCapture>, current: &MediaCapture) -> (r: (
    Vec<ContentPart>,
    Vec<String>,
))
    ensures
        parts_view(r.0@) == take_up_to(
            match reply {
                Some(m) => parts_view(m.attachments@),
                None => Seq::empty(),
            } + parts_view(current.attachments@),
            MAX_MEDIA_ATTACHMENTS as int,
        ),
        string_views(r.1@) == take_up_to(
            match reply {
                Some(m) => string_views(m.attachment_file_ids@),
                None => Seq::empty(),
            } + string_views(current.attachment_file_ids@),
            MAX_MEDIA_ATTACHMENTS as int,
        ),
{
    let mut attachments: Vec<ContentPart> = Vec::new();
    let mut ids: Vec<String> = Vec::new();
    match reply {
        Some(m) => {
            attachments = clone_parts(&m.attachments);
            ids = clone_strings(&m.attachment_file_ids);
        },
        None => {},
    }
    let more = clone_parts(&current.attachments);
    let more_ids = clone_strings(&current.attachment_file_ids);
    let all = append_parts(attachments, more);
    let all_ids = append_strings(ids, more_ids);
    let kept = keep_parts(all, MAX_MEDIA_ATTACHMENTS);
    let kept_ids = keep_strings(all_ids, MAX_MEDIA_ATTACHMENTS);
    (kept, kept_ids)
}

/// A copy of a list of strings.
pub fn clone_strings(v: &Vec<String>) -> (r: Vec<String>)
    ensures
        string_views(r@) == string_views(v@),
{
    let mut r: Vec<String> = Vec::new();
    let mut i: usize = 0;
    while i < v.len()
        invariant
            i <= v.len(),
            r@.len() == i,
            forall|j: int| 0 <= j < i ==> #[trigger] r@[j]@ == v@[j]@,
        decreases v.len() - i,
    {
        r.push(v[i].clone());
        i = i + 1;
    }
    assert(string_views(r@) =~= string_views(v@));
    r
}

/// The parts of `a`, then those of `b`.
fn append_parts(a: Vec<ContentPart>, b: Vec<ContentPart>) -> (r: Vec<ContentPart>)
    ensures
        parts_view(r@) == parts_view(a@) + parts_view(b@),
{
    let mut r = a;
    let mut b = b;
    let ghost av = parts_view(r@);
    let ghost bv = parts_view(b@);
    r.append(&mut b);
    assert(parts_view(r@) =~= av + bv);
    r
}

/// The strings of `a`, then those of `b`.
fn append_strings(a: Vec<String>, b: Vec<String>) -> (r: Vec<String>)
    ensures
        string_views(r@) == string_views(a@) + string_views(b@),
{
    let mut r = a;
    let mut b = b;
    let ghost av = string_views(r@);
    let ghost bv = string_views(b@);
    r.append(&mut b);
    assert(string_views(r@) =~= av + bv);
    r
}

/// The first `n` parts.
fn keep_parts(v: Vec<ContentPart>, n: usize) -> (r: Vec<ContentPart>)
    ensures
        parts_view(r@) == take_up_to(parts_view(v@), n as int),
{
    let mut r = v;
    let ghost rv = parts_view(r@);
    if r.len() > n {
        r.truncate(n);
        assert(parts_view(r@) =~= rv.take(n as int));
    }
    r
}

/// The first `n` strings.
fn keep_strings(v: Vec<String>, n: usize) -> (r: Vec<String>)
    ensures
        string_views(r@) == take_up_to(string_views(v@), n as int),
{
    let mut r = v;
    let ghost rv = string_views(r@);
    if r.len() > n {
        r.truncate(n);
        assert(string_views(r@) =~= rv.take(n as int));
    }
    r
}

/// The user's text for the model: with the replied-to message's summary
/// after a blank line.
pub open spec fn composed_text(text: Seq<char>, reply_summary: Option<Seq<char>>) -> Seq<char> {
    match reply_summary {
        Some(s) => text + "\n\n[replying to "@ + s + "]"@,
        None => text,
    }
}

/// Composes the user's text with a hint of what it replies to.
pub fn compose_user_text(text: &str, reply_summary: Option<&str>) -> (r: String)
    ensures
        r@ == composed_text(text@, opt_str(reply_summary)),
{
    let mut r = String::from_str(text);
    match reply_summary {
        Some(s) => {
            r.append("\n\n[replying to ");
            r.append(s);
            r.append("]");
        },
        None => {},
    }
    r
}

/// The content of the user's message: the text with the images after it
/// where images are allowed and there are any, else the text alone.
pub open spec fn user_content_view(allow_multimodal: bool, composed: Seq<char>, attachments: Seq<PartView>) -> ContentView {
    if allow_multimodal && attachments.len() > 0 {
        ContentView::Parts(seq![PartView::Text(composed)] + attachments)
    } else {
        ContentView::Text(composed)
    }
}

/// Builds the content of the user's message.
pub fn user_content(allow_multimodal: bool, composed: String, attachments: &Vec<ContentPart>) -> (r:
    Content)
    ensures
        r@ == user_content_view(allow_multimodal, composed@, parts_view(attachments@)),
{
    if allow_multimodal && attachments.len() > 0 {
        let mut parts: Vec<ContentPart> = Vec::new();
        let ghost c = composed@;
        parts.push(ContentPart::Text { text: composed });
        let rest = clone_parts(attachments);
        let all = append_parts(parts, rest);
        assert(parts_view(all@) =~= seq![PartView::Text(c)] + parts_view(attachments@));
        Content::Parts(all)
    } else {
        Content::Text(composed)
    }
}

/// The context hint for the model: the stored summaries joined by newlines
/// and the group's recent context, each where not empty, joined by a
/// newline; none where both are empty.
pub open spec fn context_hint_text(db_summaries: Seq<Seq<char>>, group_context: Seq<char>) -> Option<
    Seq<char>,
> {
    let pieces = (if db_summaries.len() > 0 {
        seq![joined(db_summaries, "\n"@)]
    } else {
        Seq::empty()
    }) + (if group_context.len() > 0 {
        seq![group_context]
    } else {
        Seq::empty()
    });
    if pieces.len() > 0 {
        Some(joined(pieces, "\n"@))
    } else {
        None
    }
}

/// Builds the context hint from the stored summaries and the group context
/// (empty outside groups).
pub fn build_context_hint(db_summaries: &[String], group_context: &str) -> (r: Option<String>)
    ensures
        opt_view(r) == context_hint_text(string_views(db_summaries@), group_context@),
{
    let mut pieces: Vec<String> = Vec::new();
    if db_summaries.len() > 0 {
        pieces.push(join_strings(db_summaries, "\n"));
    }
    if group_context.unicode_len() > 0 {
        pieces.push(String::from_str(group_context));
    }
    let ghost expected = (if string_views(db_summaries@).len() > 0 {
        seq![joined(string_views(db_summaries@), "\n"@)]
    } else {
        Seq::<Seq<char>>::empty()
    }) + (if group_context@.len() > 0 {
        seq![group_context@]
    } else {
        Seq::<Seq<char>>::empty()
    });
    assert(string_views(pieces@) =~= expected);
    if pieces.len() > 0 {
        Some(join_strings(pieces.as_slice(), "\n"))
    } else {
        None
    }
}

/// The bot's own username for matching mentions: lowercased, empty where it has none.
pub fn bot_username_for(username: Option<&str>) -> (r: String)
    ensures
        r@ == match username {
            Some(u) => lowercase(u@),
            None => Seq::<char>::empty(),
        },
{
    match username {
        Some(u) => to_lowercase(u),
        None => String::new(),
    }
}

/// Whether a message is a command: its text begins with '/'.
pub fn is_command(text: &str) -> (r: bool)
    ensures
        r == (text@.len() > 0 && text@[0] == '/'),
{
    text.unicode_len() > 0 && text.get_char(0) == '/'
}

/// Remembers a message and its author: the message joins the chat's recent
/// messages; a bot author joins the chat's bots, a human one moves to the
/// front of its active members.
pub fn track_sender(
    recent: &mut RecentMessages,
    bots: &mut ChatBots,
    members: &mut ActiveMembers,
    chat: ChatId,
    message_id: i32,
    user: &Sender,
    text: &str,
)
    ensures
        final(recent).messages_of(chat) == after_message(
            old(recent).messages_of(chat),
            stored_from(message_id, *user, text@),
        ),
        forall|c: ChatId| c != chat ==> #[trigger] final(recent).messages_of(c) == old(recent).messages_of(c),
        user.is_bot ==> final(bots).bots_of(chat) == after_bot(old(bots).bots_of(chat), user.id, display_name(*user)),
        user.is_bot ==> *final(members) == *old(members),
        !user.is_bot ==> final(members).members_of(chat) == after_tracking(
            old(members).members_of(chat),
            user.id,
            display_name(*user),
        ),
        !user.is_bot ==> *final(bots) == *old(bots),
        forall|c: ChatId| c != chat ==> #[trigger] final(bots).bots_of(c) == old(bots).bots_of(c),
        forall|c: ChatId| c != chat ==> #[trigger] final(members).members_of(c) == old(members).members_of(c),
{
    recent.track_message(chat, message_id, user, text);
    if user.is_bot {
        bots.track_bot(chat, user);
    } else {
        members.track_active_member(chat, user);
    }
}

/// The message being replied to, as read: its text and media.
pub struct ReplyContext {
    pub text: String,
    pub media: MediaCapture,
}

/// The summary of the message being replied to, where it was read.
pub open spec fn reply_summary_of(msg: IncomingMessage, reply: Option<&ReplyContext>) -> Option<
    Seq<char>,
> {
    match reply {
        Some(c) => Some(reply_summary_text(reply_author(msg), c.text@, opt_view(c.media.summary))),
        None => None,
    }
}

/// The attachments of the replied-to message, where it was read.
pub open spec fn reply_parts(reply: Option<&ReplyContext>) -> Seq<PartView> {
    match reply {
        Some(c) => parts_view(c.media.attachments@),
        None => Seq::empty(),
    }
}

/// A message made ready for the model and the log.
pub struct PreparedMessage {
    /// The text for the model, with what it replies to.
    pub composed: String,
    /// The images for the model: the reply's first, at most four.
    pub attachments: Vec<ContentPart>,
    /// The log entry, where the message has an author.
    pub entry: Option<DbEntry>,
}

/// Takes in a message that is not a command: remembers it and its author,
/// and prepares its text, images and log entry.
pub fn prepare_message(
    recent: &mut RecentMessages,
    bots: &mut ChatBots,
    members: &mut ActiveMembers,
    msg: &IncomingMessage,
    text: &str,
    current: &MediaCapture,
    reply: Option<&ReplyContext>,
) -> (r: PreparedMessage)
    ensures
        match msg.from {
            Some(user) => {
                &&& final(recent).messages_of(msg.chat_id) == after_message(
                    old(recent).messages_of(msg.chat_id),
                    stored_from(msg.id, user, text@),
                )
                &&& user.is_bot ==> final(bots).bots_of(msg.chat_id) == after_bot(
                    old(bots).bots_of(msg.chat_id),
                    user.id,
                    display_name(user),
                )
                &&& user.is_bot ==> *final(members) == *old(members)
                &&& !user.is_bot ==> final(members).members_of(msg.chat_id) == after_tracking(
                    old(members).members_of(msg.chat_id),
                    user.id,
                    display_name(user),
                )
                &&& !user.is_bot ==> *final(bots) == *old(bots)
                &&& r.entry matches Some(e) && entry_for(
                    e,
                    msg.chat_id,
                    msg.id,
                    user,
                    text@,
                    reply_summary_of(*msg, reply),
                    *current,
                )
            },
            None => {
                &&& *final(recent) == *old(recent)
                &&& *final(bots) == *old(bots)
                &&& *final(members) == *old(members)
                &&& r.entry is None
            },
        },
        forall|c: ChatId| c != msg.chat_id ==> #[trigger] final(recent).messages_of(c) == old(recent).messages_of(c),
        forall|c: ChatId| c != msg.chat_id ==> #[trigger] final(bots).bots_of(c) == old(bots).bots_of(c),
        forall|c: ChatId| c != msg.chat_id ==> #[trigger] final(members).members_of(c) == old(members).members_of(c),
        r.composed@ == composed_text(text@, reply_summary_of(*msg, reply)),
        parts_view(r.attachments@) == take_up_to(
            reply_parts(reply) + parts_view(current.attachments@),
            MAX_MEDIA_ATTACHMENTS as int,
        ),
{
    let chat = msg.chat_id;
    let reply_summary: Option<String> = match reply {
        Some(c) => {
            let media_summary: Option<&str> = match &c.media.summary {
                Some(m) => Some(m.as_str()),
                None => None,
            };
            format_reply_summary(reply_to_username(msg), c.text.as_str(), media_summary)
        },
        None => None,
    };
    let rs: Option<&str> = match &reply_summary {
        Some(x) => Some(x.as_str()),
        None => None,
    };
    assert(opt_str(rs) == reply_summary_of(*msg, reply));
    let entry = match &msg.from {
        Some(user) => {
            track_sender(recent, bots, members, chat, msg.id, user, text);
            Some(build_db_entry(chat, msg.id, user, text, rs, current))
        },
        None => None,
    };
    let reply_media: Option<&MediaCapture> = match reply {
        Some(c) => Some(&c.media),
        None => None,
    };
    let (attachments, _file_ids) = combine_attachments(reply_media, current);
    let composed = compose_user_text(text, rs);
    PreparedMessage { composed, attachments, entry }
}

/// The recent group context for the model: the recent human messages of a
/// group or channel, nothing in a private chat.
pub open spec fn group_context_of(kind: ChatKind, recent: Seq<StoredView>) -> Seq<char> {
    if kind != ChatKind::Private {
        context_of(recent, GROUP_CONTEXT_MESSAGES as int)
    } else {
        Seq::empty()
    }
}

/// The user's message as it joins the history.
pub open spec fn user_message_view(allow_multimodal: bool, composed: Seq<char>, attachments: Seq<PartView>) -> MessageView {
    MessageView { role: "user"@, content: user_content_view(allow_multimodal, composed, attachments) }
}

/// Records the user's message in the chat's history (keeping the last
/// twenty) and builds the request for Momo's answer: the history after the
/// system prompt and the context from the log and, in groups, from the
/// chat's recent messages.
pub fn converse_request(
    history: &mut ConversationHistory,
    grok: &GrokClient,
    recent: &RecentMessages,
    chat: ChatId,
    kind: ChatKind,
    composed: String,
    attachments: &Vec<ContentPart>,
    db_summaries: &[String],
) -> (r: GrokRequest)
    ensures
        final(history).history_of(chat) == keep_last(
            old(history).history_of(chat).push(
                user_message_view(grok.config.enable_multimodal, composed@, parts_view(attachments@)),
            ),
            MAX_CONVERSATION_HISTORY as int,
        ),
        forall|c: ChatId| c != chat ==> #[trigger] final(history).history_of(c) == old(history).history_of(c),
        r.model@ == grok.config.chat_model@,
        messages_view(r.messages@) == chat_messages(
            final(history).history_of(chat),
            context_hint_text(
                string_views(db_summaries@),
                group_context_of(kind, recent.messages_of(chat)),
            ),
        ),
        r.sampling == Sampling::Chat,
        r.max_tokens == grok.config.max_tokens,
        r.search == search_flag(grok.config.enable_search),
{
    let content = user_content(grok.allows_multimodal(), composed, attachments);
    let message = Message { role: String::from_str("user"), content };
    let snapshot = history.push_and_trim(chat, message);
    let group_context = if is_group_or_channel(kind) {
        recent.get_recent_context(chat, GROUP_CONTEXT_MESSAGES)
    } else {
        String::new()
    };
    let hint = build_context_hint(db_summaries, group_context.as_str());
    let hint_str: Option<&str> = match &hint {
        Some(h) => Some(h.as_str()),
        None => None,
    };
    grok.chat_request(snapshot.as_slice(), hint_str)
}

} // verus!
