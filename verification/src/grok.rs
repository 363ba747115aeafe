//! The conversation model of the Grok chat API: messages, their contents,
//! the client's configuration, and the requests that Momo sends.
use vstd::prelude::*;

use crate::config::{
    GROK_ENABLE_MULTIMODAL_DEFAULT, GROK_ENABLE_SEARCH_DEFAULT, GROK_MAX_TOKENS, GROK_MODEL,
    GROK_MODEL_PROACTIVE,
};
use crate::prompts::{
    annoyed_mode_response_prompt, bot_interaction_prompt, cat_behavior_prompt,
    news_conversation_starter_prompt, playful_mode_prompt, proactive_mention_user_prompt,
    proactive_natural_comment_prompt, proactive_reply_to_message_prompt,
    random_conversation_starter_prompt, MOMO_SYSTEM_PROMPT,
};
use crate::text::{
    blank, is_blank, join_strings, joined, lowercase, parse_u32, parsed_u32, str_eq, string_views,
    to_lowercase,
};

verus! {

/// What one part of a message holds.
pub enum PartView {
    Text(Seq<char>),
    ImageUrl { url: Seq<char>, detail: Option<Seq<char>> },
}

/// What a message content holds.
pub enum ContentView {
    Text(Seq<char>),
    Parts(Seq<PartView>),
}

/// What a message holds.
pub struct MessageView {
    pub role: Seq<char>,
    pub content: ContentView,
}

/// A link to an image, with the detail level the model should look at it in.
pub struct ImageUrl {
    pub url: String,
    pub detail: Option<String>,
}

/// The view of an optional string.
pub open spec fn opt_view(o: Option<String>) -> Option<Seq<char>> {
    match o {
        Some(s) => Some(s@),
        None => None,
    }
}

impl Clone for ImageUrl {
    fn clone(&self) -> (r: Self)
        ensures
            r.url@ == self.url@,
            opt_view(r.detail) == opt_view(self.detail),
    {
        let detail = match &self.detail {
            Some(d) => Some(d.clone()),
            None => None,
        };
        ImageUrl { url: self.url.clone(), detail }
    }
}

/// One part of a multimodal message: text, or an image.
pub enum ContentPart {
    Text { text: String },
    ImageUrl { image_url: ImageUrl },
}

impl View for ContentPart {
    type V = PartView;

    open spec fn view(&self) -> PartView {
        match self {
            ContentPart::Text { text } => PartView::Text(text@),
            ContentPart::ImageUrl { image_url } => PartView::ImageUrl {
                url: image_url.url@,
                detail: opt_view(image_url.detail),
            },
        }
    }
}

impl Clone for ContentPart {
    fn clone(&self) -> (r: Self)
        ensures
            r@ == self@,
    {
        match self {
            ContentPart::Text { text } => ContentPart::Text { text: text.clone() },
            ContentPart::ImageUrl { image_url } => ContentPart::ImageUrl {
                image_url: image_url.clone(),
            },
        }
    }
}

/// The views of a sequence of parts.
pub open spec fn parts_view(s: Seq<ContentPart>) -> Seq<PartView> {
    s.map_values(|p: ContentPart| p@)
}

/// A copy of the parts with the same views.
pub fn clone_parts(parts: &Vec<ContentPart>) -> (r: Vec<ContentPart>)
    ensures
        parts_view(r@) == parts_view(parts@),
{
    let mut r: Vec<ContentPart> = Vec::new();
    let mut i: usize = 0;
    while i < parts.len()
        invariant
            i <= parts.len(),
            r@.len() == i,
            forall|j: int| 0 <= j < i ==> #[trigger] r@[j]@ == parts@[j]@,
        decreases parts.len() - i,
    {
        r.push(parts[i].clone());
        i = i + 1;
    }
    assert(parts_view(r@) =~= parts_view(parts@));
    r
}

/// A message body: plain text, or a list of parts.
pub enum Content {
    Text(String),
    Parts(Vec<ContentPart>),
}

impl View for Content {
    type V = ContentView;

    open spec fn view(&self) -> ContentView {
        match self {
            Content::Text(t) => ContentView::Text(t@),
            Content::Parts(ps) => ContentView::Parts(parts_view(ps@)),
        }
    }
}

impl Clone for Content {
    fn clone(&self) -> (r: Self)
        ensures
            r@ == self@,
    {
        match self {
            Content::Text(t) => Content::Text(t.clone()),
            Content::Parts(ps) => Content::Parts(clone_parts(ps)),
        }
    }
}

/// How a part reads as text: its text, or a marker for an image.
pub open spec fn part_text(p: PartView) -> Seq<char> {
    match p {
        PartView::Text(t) => t,
        PartView::ImageUrl { .. } => "[image attached]"@,
    }
}

/// How a content reads as text: the text itself, or the parts' texts joined by spaces.
pub open spec fn content_text(c: ContentView) -> Seq<char> {
    match c {
        ContentView::Text(t) => t,
        ContentView::Parts(ps) => joined(ps.map_values(|p: PartView| part_text(p)), " "@),
    }
}

impl Content {
    /// The content as plain text; images read as "[image attached]".
    pub fn as_text(&self) -> (r: String)
        ensures
            r@ == content_text(self@),
    {
        match self {
            Content::Text(t) => t.clone(),
            Content::Parts(parts) => {
                let ghost texts = parts_view(parts@).map_values(|p: PartView| part_text(p));
                let mut pieces: Vec<String> = Vec::new();
                let mut i: usize = 0;
                while i < parts.len()
                    invariant
                        i <= parts.len(),
                        pieces@.len() == i,
                        forall|j: int|
                            0 <= j < i ==> #[trigger] pieces@[j]@ == part_text(parts@[j]@),
                    decreases parts.len() - i,
                {
                    let piece = match &parts[i] {
                        ContentPart::Text { text } => text.clone(),
                        ContentPart::ImageUrl { .. } => String::from_str("[image attached]"),
                    };
                    pieces.push(piece);
                    i = i + 1;
                }
                assert(string_views(pieces@) =~= texts);
                join_strings(pieces.as_slice(), " ")
            },
        }
    }
}

/// One chat message: who speaks, and what is said.
pub struct Message {
    pub role: String,
    pub content: Content,
}

impl View for Message {
    type V = MessageView;

    open spec fn view(&self) -> MessageView {
        MessageView { role: self.role@, content: self.content@ }
    }
}

impl Clone for Message {
    fn clone(&self) -> (r: Self)
        ensures
            r@ == self@,
    {
        Message { role: self.role.clone(), content: self.content.clone() }
    }
}

/// The views of a sequence of messages.
pub open spec fn messages_view(s: Seq<Message>) -> Seq<MessageView> {
    s.map_values(|m: Message| m@)
}

/// A plain-text message with the given role.
pub open spec fn text_message(role: Seq<char>, content: Seq<char>) -> MessageView {
    MessageView { role, content: ContentView::Text(content) }
}

impl Message {
    /// A plain-text message with the given role.
    pub fn text(role: &str, content: String) -> (r: Message)
        ensures
            r@ == text_message(role@, content@),
    {
        Message { role: String::from_str(role), content: Content::Text(content) }
    }
}

/// Copies `src` onto the end of `dst`.
pub fn extend_messages(dst: &mut Vec<Message>, src: &[Message])
    ensures
        messages_view(final(dst)@) == messages_view(old(dst)@) + messages_view(src@),
{
    let ghost start = dst@;
    let mut i: usize = 0;
    while i < src.len()
        invariant
            i <= src.len(),
            dst@.len() == start.len() + i,
            forall|j: int| 0 <= j < start.len() ==> #[trigger] dst@[j] == start[j],
            forall|j: int| 0 <= j < i ==> #[trigger] dst@[start.len() + j]@ == src@[j]@,
        decreases src.len() - i,
    {
        dst.push(src[i].clone());
        i = i + 1;
    }
    assert forall|j: int| 0 <= j < dst@.len() implies #[trigger] messages_view(dst@)[j] == (
    messages_view(start) + messages_view(src@))[j] by {
        if j >= start.len() {
            assert(dst@[start.len() + (j - start.len())]@ == src@[j - start.len()]@);
        }
    }
    assert(messages_view(dst@) =~= messages_view(start) + messages_view(src@));
}

/// The raw settings the client is configured from: the values of the
/// variables GROK_MODEL, GROK_MODEL_PROACTIVE, GROK_MAX_TOKENS,
/// GROK_ENABLE_SEARCH and GROK_ENABLE_MULTIMODAL, where they are set.
pub struct GrokSettings {
    pub model: Option<String>,
    pub model_proactive: Option<String>,
    pub max_tokens: Option<String>,
    pub enable_search: Option<String>,
    pub enable_multimodal: Option<String>,
}

/// Which models, budget and features the client uses.
pub struct GrokConfig {
    pub chat_model: String,
    pub proactive_model: String,
    pub max_tokens: u32,
    pub enable_search: bool,
    pub enable_multimodal: bool,
}

/// The words that switch a flag on, compared after lowercasing.
pub open spec fn flag_on(value: Seq<char>) -> bool {
    let l = lowercase(value);
    l == "1"@ || l == "true"@ || l == "yes"@ || l == "y"@ || l == "on"@
}

/// A flag's value: on or off by its text where it is set, else the default.
pub open spec fn flag_value(value: Option<Seq<char>>, default: bool) -> bool {
    match value {
        Some(v) => flag_on(v),
        None => default,
    }
}

/// Reads a boolean setting: "1", "true", "yes", "y" or "on" in any case
/// turn it on, any other text turns it off, and an unset one keeps `default`.
pub fn parse_bool_setting(value: &Option<String>, default: bool) -> (r: bool)
    ensures
        r == flag_value(opt_view(*value), default),
{
    match value {
        Some(v) => {
            let l = to_lowercase(v.as_str());
            str_eq(l.as_str(), "1") || str_eq(l.as_str(), "true") || str_eq(l.as_str(), "yes")
                || str_eq(l.as_str(), "y") || str_eq(l.as_str(), "on")
        },
        None => default,
    }
}

/// The chat model: the one set, else the default.
pub open spec fn chosen_chat_model(settings: GrokSettings) -> Seq<char> {
    match opt_view(settings.model) {
        Some(m) => m,
        None => GROK_MODEL@,
    }
}

/// The proactive model: its own setting, else the chat model's setting,
/// else the default proactive model.
pub open spec fn chosen_proactive_model(settings: GrokSettings) -> Seq<char> {
    match opt_view(settings.model_proactive) {
        Some(m) => m,
        None => match opt_view(settings.model) {
            Some(m) => m,
            None => GROK_MODEL_PROACTIVE@,
        },
    }
}

/// The completion budget: the setting where it parses as a `u32`, else the default.
pub open spec fn chosen_max_tokens(settings: GrokSettings) -> u32 {
    match opt_view(settings.max_tokens) {
        Some(v) => match parsed_u32(v) {
            Some(n) => n,
            None => GROK_MAX_TOKENS,
        },
        None => GROK_MAX_TOKENS,
    }
}

impl GrokConfig {
    /// The configuration that the settings describe.
    pub fn from_settings(settings: &GrokSettings) -> (r: GrokConfig)
        ensures
            r.chat_model@ == chosen_chat_model(*settings),
            r.proactive_model@ == chosen_proactive_model(*settings),
            r.max_tokens == chosen_max_tokens(*settings),
            r.enable_search == flag_value(opt_view(settings.enable_search), GROK_ENABLE_SEARCH_DEFAULT),
            r.enable_multimodal == flag_value(
                opt_view(settings.enable_multimodal),
                GROK_ENABLE_MULTIMODAL_DEFAULT,
            ),
    {
        let chat_model = match &settings.model {
            Some(m) => m.clone(),
            None => String::from_str(GROK_MODEL),
        };
        let proactive_model = match &settings.model_proactive {
            Some(m) => m.clone(),
            None => match &settings.model {
                Some(m) => m.clone(),
                None => String::from_str(GROK_MODEL_PROACTIVE),
            },
        };
        let max_tokens = match &settings.max_tokens {
            Some(v) => match parse_u32(v.as_str()) {
                Some(n) => n,
                None => GROK_MAX_TOKENS,
            },
            None => GROK_MAX_TOKENS,
        };
        GrokConfig {
            chat_model,
            proactive_model,
            max_tokens,
            enable_search: parse_bool_setting(&settings.enable_search, GROK_ENABLE_SEARCH_DEFAULT),
            enable_multimodal: parse_bool_setting(
                &settings.enable_multimodal,
                GROK_ENABLE_MULTIMODAL_DEFAULT,
            ),
        }
    }
}

/// How freely the model samples: the chat temperature, or the warmer one of
/// spontaneous messages.
#[derive(PartialEq, Eq, Structural, Clone, Copy, Debug)]
pub enum Sampling {
    Chat,
    Proactive,
}

/// A chat completion request, ready to be sent.
pub struct GrokRequest {
    pub model: String,
    pub messages: Vec<Message>,
    pub sampling: Sampling,
    pub max_tokens: u32,
    pub search: Option<bool>,
}

/// The client of the Grok chat API: its key and its configuration.
pub struct GrokClient {
    pub api_key: String,
    pub config: GrokConfig,
}

/// The system message that gives Momo her personality.
pub open spec fn system_prompt_message() -> MessageView {
    text_message("system"@, MOMO_SYSTEM_PROMPT@)
}

/// The messages of a chat request: the system prompt, the recent group
/// context where it is not blank, then the conversation.
pub open spec fn chat_messages(conversation: Seq<MessageView>, context_hint: Option<Seq<char>>) -> Seq<
    MessageView,
> {
    let hint = match context_hint {
        Some(ctx) => if !blank(ctx) {
            seq![text_message("system"@, "Recent group context (latest first):\n"@ + ctx)]
        } else {
            Seq::empty()
        },
        None => Seq::empty(),
    };
    seq![system_prompt_message()] + hint + conversation
}

/// The messages of a prompted request: the system prompt, the history, then
/// the prompt as the user's message.
pub open spec fn prompt_messages(prompt: Seq<char>, history: Seq<MessageView>) -> Seq<MessageView> {
    seq![system_prompt_message()] + history + seq![text_message("user"@, prompt)]
}

/// The search switch of a request: on where asked for, else left out.
pub open spec fn search_flag(on: bool) -> Option<bool> {
    if on {
        Some(true)
    } else {
        None
    }
}

/// The view of an optional string slice.
pub open spec fn opt_str_view(o: Option<&str>) -> Option<Seq<char>> {
    match o {
        Some(s) => Some(s@),
        None => None,
    }
}

impl GrokClient {
    pub fn with_config(api_key: String, config: GrokConfig) -> (r: GrokClient)
        ensures
            r.api_key == api_key,
            r.config == config,
    {
        GrokClient { api_key, config }
    }

    pub fn allows_multimodal(&self) -> (r: bool)
        ensures
            r == self.config.enable_multimodal,
    {
        self.config.enable_multimodal
    }

    pub fn chat_model_name(&self) -> (r: &str)
        ensures
            r@ == self.config.chat_model@,
    {
        self.config.chat_model.as_str()
    }

    pub fn proactive_model_name(&self) -> (r: &str)
        ensures
            r@ == self.config.proactive_model@,
    {
        self.config.proactive_model.as_str()
    }

    pub fn search_enabled(&self) -> (r: bool)
        ensures
            r == self.config.enable_search,
    {
        self.config.enable_search
    }

    /// The request for a conversational reply, with an optional hint of
    /// recent group context.
    pub fn chat_request(&self, conversation: &[Message], context_hint: Option<&str>) -> (r:
        GrokRequest)
        ensures
            r.model@ == self.config.chat_model@,
            messages_view(r.messages@) == chat_messages(
                messages_view(conversation@),
                opt_str_view(context_hint),
            ),
            r.sampling == Sampling::Chat,
            r.max_tokens == self.config.max_tokens,
            r.search == search_flag(self.config.enable_search),
    {
        let mut messages: Vec<Message> = Vec::new();
        messages.push(Message::text("system", String::from_str(MOMO_SYSTEM_PROMPT)));
        let ghost head = messages_view(messages@);
        if let Some(ctx) = context_hint {
            if !is_blank(ctx) {
                let mut hint = String::from_str("Recent group context (latest first):\n");
                hint.append(ctx);
                messages.push(Message::text("system", hint));
            }
        }
        let ghost before = messages_view(messages@);
        extend_messages(&mut messages, conversation);
        proof {
            let hint = match opt_str_view(context_hint) {
                Some(ctx) => if !blank(ctx) {
                    seq![text_message("system"@, "Recent group context (latest first):\n"@ + ctx)]
                } else {
                    Seq::<MessageView>::empty()
                },
                None => Seq::<MessageView>::empty(),
            };
            assert(before =~= seq![system_prompt_message()] + hint);
        }
        GrokRequest {
            model: self.config.chat_model.clone(),
            messages,
            sampling: Sampling::Chat,
            max_tokens: self.config.max_tokens,
            search: if self.config.enable_search {
                Some(true)
            } else {
                None
            },
        }
    }

    /// The request that sends `prompt` after the history, for a spontaneous
    /// message; `force_search` turns search on whatever the configuration says.
    pub fn prompt_request(&self, prompt: String, history: &[Message], force_search: bool) -> (r:
        GrokRequest)
        ensures
            r.model@ == self.config.proactive_model@,
            messages_view(r.messages@) == prompt_messages(prompt@, messages_view(history@)),
            r.sampling == Sampling::Proactive,
            r.max_tokens == self.config.max_tokens,
            r.search == search_flag(self.config.enable_search || force_search),
    {
        let mut messages: Vec<Message> = Vec::new();
        messages.push(Message::text("system", String::from_str(MOMO_SYSTEM_PROMPT)));
        extend_messages(&mut messages, history);
        let ghost before = messages_view(messages@);
        messages.push(Message::text("user", prompt));
        assert(messages_view(messages@) =~= before.push(text_message("user"@, prompt@)));
        GrokRequest {
            model: self.config.proactive_model.clone(),
            messages,
            sampling: Sampling::Proactive,
            max_tokens: self.config.max_tokens,
            search: if self.config.enable_search || force_search {
                Some(true)
            } else {
                None
            },
        }
    }

    /// The request for a message that mentions a user and judges their messages.
    pub fn mention_user_request(
        &self,
        username: &str,
        recent_messages: &[String],
        history: &[Message],
    ) -> (r: GrokRequest)
        ensures
            r.model@ == self.config.proactive_model@,
            messages_view(r.messages@) == prompt_messages(
                crate::prompts::mention_user_prompt_text(
                    username@,
                    joined(string_views(recent_messages@), "\n"@),
                ),
                messages_view(history@),
            ),
            r.sampling == Sampling::Proactive,
            r.max_tokens == self.config.max_tokens,
            r.search == search_flag(self.config.enable_search),
    {
        self.prompt_request(proactive_mention_user_prompt(username, recent_messages), history, false)
    }

    /// The request for a reply to one message of a user.
    pub fn reply_to_message_request(&self, username: &str, message: &str, history: &[Message]) -> (r:
        GrokRequest)
        ensures
            r.model@ == self.config.proactive_model@,
            messages_view(r.messages@) == prompt_messages(
                crate::prompts::reply_to_message_prompt_text(username@, message@),
                messages_view(history@),
            ),
            r.sampling == Sampling::Proactive,
            r.max_tokens == self.config.max_tokens,
            r.search == search_flag(self.config.enable_search),
    {
        self.prompt_request(proactive_reply_to_message_prompt(username, message), history, false)
    }

    /// The request for a comment on the recent conversation.
    pub fn natural_comment_request(&self, recent_context: &str, history: &[Message]) -> (r:
        GrokRequest)
        ensures
            r.model@ == self.config.proactive_model@,
            messages_view(r.messages@) == prompt_messages(
                crate::prompts::natural_comment_prompt_text(recent_context@),
                messages_view(history@),
            ),
            r.sampling == Sampling::Proactive,
            r.max_tokens == self.config.max_tokens,
            r.search == search_flag(self.config.enable_search),
    {
        self.prompt_request(proactive_natural_comment_prompt(recent_context), history, false)
    }

    /// The request for a random conversation starter.
    pub fn random_starter_request(&self, history: &[Message]) -> (r: GrokRequest)
        ensures
            r.model@ == self.config.proactive_model@,
            messages_view(r.messages@) == prompt_messages(
                crate::prompts::random_starter_prompt_text(),
                messages_view(history@),
            ),
            r.sampling == Sampling::Proactive,
            r.max_tokens == self.config.max_tokens,
            r.search == search_flag(self.config.enable_search),
    {
        self.prompt_request(String::from_str(random_conversation_starter_prompt()), history, false)
    }

    /// The request for a news-based conversation starter; it always searches.
    pub fn news_starter_request(&self, topic: &str, history: &[Message]) -> (r: GrokRequest)
        ensures
            r.model@ == self.config.proactive_model@,
            messages_view(r.messages@) == prompt_messages(
                crate::prompts::news_starter_prompt_text(topic@),
                messages_view(history@),
            ),
            r.sampling == Sampling::Proactive,
            r.max_tokens == self.config.max_tokens,
            r.search == Some(true),
    {
        self.prompt_request(news_conversation_starter_prompt(topic), history, true)
    }

    /// The request for a message that teases another bot.
    pub fn bot_interaction_request(&self, bot_username: &str, history: &[Message]) -> (r:
        GrokRequest)
        ensures
            r.model@ == self.config.proactive_model@,
            messages_view(r.messages@) == prompt_messages(
                crate::prompts::bot_interaction_prompt_text(bot_username@),
                messages_view(history@),
            ),
            r.sampling == Sampling::Proactive,
            r.max_tokens == self.config.max_tokens,
            r.search == search_flag(self.config.enable_search),
    {
        self.prompt_request(bot_interaction_prompt(bot_username), history, false)
    }

    /// The request for a short post about what the cat is doing.
    pub fn cat_behavior_request(&self, history: &[Message]) -> (r: GrokRequest)
        ensures
            r.model@ == self.config.proactive_model@,
            messages_view(r.messages@) == prompt_messages(
                crate::prompts::cat_behavior_prompt_text(),
                messages_view(history@),
            ),
            r.sampling == Sampling::Proactive,
            r.max_tokens == self.config.max_tokens,
            r.search == search_flag(self.config.enable_search),
    {
        self.prompt_request(String::from_str(cat_behavior_prompt()), history, false)
    }

    /// The request for an invitation to play.
    pub fn playful_mode_request(&self, history: &[Message]) -> (r: GrokRequest)
        ensures
            r.model@ == self.config.proactive_model@,
            messages_view(r.messages@) == prompt_messages(
                crate::prompts::playful_prompt_text(),
                messages_view(history@),
            ),
            r.sampling == Sampling::Proactive,
            r.max_tokens == self.config.max_tokens,
            r.search == search_flag(self.config.enable_search),
    {
        self.prompt_request(String::from_str(playful_mode_prompt()), history, false)
    }

    /// The request for an annoyed answer to a user.
    pub fn annoyed_response_request(&self, username: &str, history: &[Message]) -> (r: GrokRequest)
        ensures
            r.model@ == self.config.proactive_model@,
            messages_view(r.messages@) == prompt_messages(
                crate::prompts::annoyed_prompt_text(username@),
                messages_view(history@),
            ),
            r.sampling == Sampling::Proactive,
            r.max_tokens == self.config.max_tokens,
            r.search == search_flag(self.config.enable_search),
    {
        self.prompt_request(annoyed_mode_response_prompt(username), history, false)
    }
}

/// The text of the model's answer: the first choice read as text, if any.
pub fn first_choice_text(choices: &[Message]) -> (r: Option<String>)
    ensures
        choices@.len() == 0 ==> r is None,
        choices@.len() > 0 ==> r is Some && r->0@ == content_text(choices@[0].content@),
{
    if choices.len() == 0 {
        None
    } else {
        Some(choices[0].content.as_text())
    }
}

} // verus!
