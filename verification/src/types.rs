//! Identifiers and the plain records that the bot keeps about chats and users.
use vstd::prelude::*;

verus! {

/// A Telegram chat identifier.
pub type ChatId = i64;

/// A Telegram user identifier.
pub type UserId = u64;

/// What the bot knows of the author of a message.
pub struct Sender {
    pub id: UserId,
    pub is_bot: bool,
    pub username: Option<String>,
    pub first_name: String,
}

/// The name a user goes by: their username, else their first name.
pub open spec fn display_name(user: Sender) -> Seq<char> {
    match user.username {
        Some(u) => u@,
        None => user.first_name@,
    }
}

/// The name a user goes by: their username, else their first name.
pub fn format_username(user: &Sender) -> (r: String)
    ensures
        r@ == display_name(*user),
{
    match &user.username {
        Some(u) => u.clone(),
        None => user.first_name.clone(),
    }
}

/// What a stored message holds.
pub struct StoredView {
    pub message_id: i32,
    pub user_id: UserId,
    pub username: Seq<char>,
    pub text: Seq<char>,
    pub is_bot: bool,
}

/// Stored message info for tracking recent messages
pub struct StoredMessage {
    pub message_id: i32,
    pub user_id: UserId,
    pub username: String,
    pub text: String,
    pub is_bot: bool,
}

impl View for StoredMessage {
    type V = StoredView;

    open spec fn view(&self) -> StoredView {
        StoredView {
            message_id: self.message_id,
            user_id: self.user_id,
            username: self.username@,
            text: self.text@,
            is_bot: self.is_bot,
        }
    }
}

impl Clone for StoredMessage {
    fn clone(&self) -> (r: Self)
        ensures
            r@ == self@,
    {
        StoredMessage {
            message_id: self.message_id,
            user_id: self.user_id,
            username: self.username.clone(),
            text: self.text.clone(),
            is_bot: self.is_bot,
        }
    }
}

/// The views of a sequence of stored messages.
pub open spec fn stored_view(s: Seq<StoredMessage>) -> Seq<StoredView> {
    s.map_values(|m: StoredMessage| m@)
}

/// A member or bot of a chat: their identifier and the name they go by.
pub struct Member {
    pub id: UserId,
    pub name: String,
}

impl View for Member {
    type V = (UserId, Seq<char>);

    open spec fn view(&self) -> (UserId, Seq<char>) {
        (self.id, self.name@)
    }
}

impl Clone for Member {
    fn clone(&self) -> (r: Self)
        ensures
            r@ == self@,
    {
        Member { id: self.id, name: self.name.clone() }
    }
}

/// The views of a sequence of members.
pub open spec fn members_view(s: Seq<Member>) -> Seq<(UserId, Seq<char>)> {
    s.map_values(|m: Member| m@)
}

/// The kind of a chat, as far as Momo's manners go.
#[derive(PartialEq, Eq, Structural, Clone, Copy, Debug)]
pub enum ChatKind {
    Private,
    Group,
    Supergroup,
    Channel,
}

/// What a message entity marks out.
#[derive(PartialEq, Eq, Structural, Clone, Copy, Debug)]
pub enum EntityKind {
    /// An @username mention.
    Mention,
    /// A mention of a user who has no username.
    TextMention { user_id: UserId },
    /// Any other formatting.
    Other,
}

/// A marked-out span of a message's text, in UTF-16 code units.
#[derive(PartialEq, Eq, Structural, Clone, Copy, Debug)]
pub struct MessageEntity {
    pub kind: EntityKind,
    pub offset: usize,
    pub length: usize,
}

/// A sticker attached to a message.
pub struct StickerInfo {
    pub file_id: String,
    pub emoji: Option<String>,
    pub is_animated: bool,
    pub is_video: bool,
}

/// One size of an attached photo.
pub struct PhotoInfo {
    pub file_id: String,
    pub width: u32,
    pub height: u32,
}

/// What the bot reads of an incoming Telegram message.
pub struct IncomingMessage {
    pub id: i32,
    pub chat_id: ChatId,
    pub chat_kind: ChatKind,
    pub from: Option<Sender>,
    pub text: Option<String>,
    pub entities: Option<Vec<MessageEntity>>,
    pub caption: Option<String>,
    pub caption_entities: Option<Vec<MessageEntity>>,
    pub sticker: Option<StickerInfo>,
    pub photos: Option<Vec<PhotoInfo>>,
    pub reply_to: Option<Box<IncomingMessage>>,
}

} // verus!
