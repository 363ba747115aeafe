use momo_bot::grok::{Content, ContentPart, ImageUrl};
use momo_bot::handler::{
    bot_username_for, build_context_hint, build_db_entry, build_db_summary, capture_media,
    cat_bait_response, combine_attachments, compose_user_text, contains_cat_bait,
    format_reply_summary, handle_send_error, image_attachment, is_command, plan_response,
    reply_to_username, should_be_proactive, should_pause_proactive, sticker_wanted, text_of,
    track_sender, truncate_for_context, user_content, ApiErrorKind, MediaCapture, ResponsePlan,
    SendError, SendErrorKind,
};
use momo_bot::members::ActiveMembers;
use momo_bot::handler::{converse_request, prepare_message, ReplyContext};
use momo_bot::history::ConversationHistory;
use momo_bot::grok::{GrokClient, GrokConfig, Sampling};
use momo_bot::passive::{extract_entity_text, should_respond_to_message};
use momo_bot::prompts::CAT_BAIT_RESPONSES;
use momo_bot::state::{ChatState, ChatStates, MomoMood};
use momo_bot::tracking::{ChatBots, RecentMessages};
use momo_bot::types::{ChatKind, EntityKind, IncomingMessage, MessageEntity, PhotoInfo, Sender, StickerInfo};

fn user(id: u64, name: Option<&str>, first: &str, is_bot: bool) -> Sender {
    Sender { id, is_bot, username: name.map(|s| s.to_string()), first_name: first.to_string() }
}

fn message(kind: ChatKind, from: Option<Sender>, text: Option<&str>) -> IncomingMessage {
    IncomingMessage {
        id: 1,
        chat_id: -100,
        chat_kind: kind,
        from,
        text: text.map(|t| t.to_string()),
        entities: None,
        caption: None,
        caption_entities: None,
        sticker: None,
        photos: None,
        reply_to: None,
    }
}

fn empty_capture() -> MediaCapture {
    MediaCapture {
        attachments: vec![],
        attachment_file_ids: vec![],
        media_type: None,
        media_ref: None,
        summary: None,
    }
}

#[test]
fn entity_text_counts_utf16_units() {
    assert_eq!(extract_entity_text("hi @momo_bot!", 3, 9), Some("@momo_bot".to_string()));
    assert_eq!(extract_entity_text("😺 @momo", 3, 5), Some("@momo".to_string()));
    assert_eq!(extract_entity_text("😺 @momo", 0, 2), Some("😺".to_string()));
    assert_eq!(extract_entity_text("😺 @momo", 1, 2), None);
    assert_eq!(extract_entity_text("abc", 2, 2), None);
    assert_eq!(extract_entity_text("abc", 3, 0), Some(String::new()));
    assert_eq!(extract_entity_text("中文@猫", 2, 2), Some("@猫".to_string()));
}

#[test]
fn entity_law_on_concrete_text() {
    let before = "🐾 hey ";
    let part = "@Momo_Bot";
    let after = " 🍤!";
    let text = format!("{}{}{}", before, part, after);
    let off = before.encode_utf16().count();
    let len = part.encode_utf16().count();
    assert_eq!(extract_entity_text(&text, off, len), Some(part.to_string()));
}

#[test]
fn private_chats_always_answered() {
    let m = message(ChatKind::Private, Some(user(1, Some("a"), "A", false)), Some("hello"));
    assert!(should_respond_to_message(&m, 99, "momo_bot", "hello"));
    let m = message(ChatKind::Private, None, None);
    assert!(should_respond_to_message(&m, 99, "momo_bot", ""));
    assert!(should_respond_to_message(&m, 99, "momo_bot", "photo from @a"));
}

#[test]
fn groups_need_an_address() {
    let mut m = message(ChatKind::Group, Some(user(1, Some("a"), "A", false)), Some("hey @Kitty_Bot look"));
    assert!(!should_respond_to_message(&m, 99, "kitty_bot", ""));
    m.entities = Some(vec![MessageEntity { kind: EntityKind::Mention, offset: 4, length: 10 }]);
    assert!(should_respond_to_message(&m, 99, "kitty_bot", ""));
    assert!(!should_respond_to_message(&m, 99, "", ""));
    m.text = Some("hey @other_bot look".to_string());
    m.entities = Some(vec![MessageEntity { kind: EntityKind::Mention, offset: 4, length: 10 }]);
    assert!(!should_respond_to_message(&m, 99, "kitty_bot", ""));
    m.entities = Some(vec![MessageEntity { kind: EntityKind::TextMention { user_id: 99 }, offset: 0, length: 3 }]);
    assert!(should_respond_to_message(&m, 99, "kitty_bot", ""));
    m.entities = Some(vec![MessageEntity { kind: EntityKind::Other, offset: 0, length: 3 }]);
    assert!(!should_respond_to_message(&m, 99, "kitty_bot", ""));
    m.entities = None;
    m.text = Some("I miss MOMO".to_string());
    assert!(should_respond_to_message(&m, 99, "kitty_bot", ""));
    m.text = Some("nothing here".to_string());
    m.reply_to = Some(Box::new(message(ChatKind::Group, Some(user(99, Some("kitty_bot"), "Momo", true)), Some("nya"))));
    assert!(should_respond_to_message(&m, 99, "kitty_bot", ""));
    m.reply_to = Some(Box::new(message(ChatKind::Group, Some(user(5, None, "Ann", false)), Some("hi"))));
    assert!(!should_respond_to_message(&m, 99, "kitty_bot", ""));
    m.reply_to = Some(Box::new(message(ChatKind::Group, Some(user(2, Some("other_bot"), "Other", true)), Some("beep"))));
    assert!(!should_respond_to_message(&m, 99, "kitty_bot", ""));
    let mut g = message(ChatKind::Group, None, None);
    assert!(!should_respond_to_message(&g, 99, "kitty_bot", ""));
    g.reply_to = Some(Box::new(message(ChatKind::Group, Some(user(99, Some("kitty_bot"), "Momo", true)), Some("nya"))));
    assert!(!should_respond_to_message(&g, 99, "kitty_bot", ""));
    assert!(should_respond_to_message(&g, 99, "kitty_bot", "sticker 😼 from @someone"));
}

#[test]
fn captions_and_their_entities_count() {
    let mut m = message(ChatKind::Supergroup, Some(user(1, None, "A", false)), None);
    m.caption = Some("look @momo_bot".to_string());
    m.caption_entities = Some(vec![MessageEntity { kind: EntityKind::Mention, offset: 5, length: 9 }]);
    assert!(should_respond_to_message(&m, 99, "momo_bot", "ignored"));
}

#[test]
fn media_capture_of_a_sticker() {
    let mut m = message(ChatKind::Group, Some(user(1, Some("ann"), "Ann", false)), None);
    m.sticker = Some(StickerInfo { file_id: "stk1".to_string(), emoji: None, is_animated: false, is_video: false });
    let plan = capture_media(&m, true, true);
    assert_eq!(plan.capture.media_type, Some("sticker".to_string()));
    assert_eq!(plan.capture.media_ref, Some("stk1".to_string()));
    assert_eq!(plan.capture.summary, Some("sticker 😼 from @ann".to_string()));
    assert_eq!(plan.fetch, Some("stk1".to_string()));
    assert_eq!(capture_media(&m, false, true).fetch, None);
    m.sticker = Some(StickerInfo { file_id: "stk2".to_string(), emoji: Some("🐟".to_string()), is_animated: true, is_video: false });
    let plan = capture_media(&m, true, true);
    assert_eq!(plan.fetch, None);
    assert_eq!(plan.capture.summary, Some("sticker 🐟 from @ann".to_string()));
    assert_eq!(text_of(&m, &plan.capture), Some("sticker 🐟 from @ann".to_string()));
}

#[test]
fn media_capture_of_photos_picks_the_largest() {
    let mut m = message(ChatKind::Group, None, None);
    m.photos = Some(vec![
        PhotoInfo { file_id: "small".to_string(), width: 90, height: 90 },
        PhotoInfo { file_id: "big".to_string(), width: 800, height: 600 },
        PhotoInfo { file_id: "same".to_string(), width: 600, height: 800 },
    ]);
    let plan = capture_media(&m, true, true);
    assert_eq!(plan.capture.media_type, Some("photo".to_string()));
    assert_eq!(plan.capture.media_ref, Some("same".to_string()));
    assert_eq!(plan.fetch, Some("same".to_string()));
    assert_eq!(plan.capture.summary, Some("photo from @someone".to_string()));
    m.caption = Some("my cat".to_string());
    let plan = capture_media(&m, true, false);
    assert_eq!(plan.fetch, None);
    assert_eq!(plan.capture.summary, Some("photo from @someone (caption: my cat)".to_string()));
    assert_eq!(text_of(&m, &plan.capture), Some("my cat".to_string()));
    m.photos = Some(vec![]);
    let plan = capture_media(&m, true, true);
    assert_eq!(plan.capture.media_type, None);
    let plain = message(ChatKind::Group, None, None);
    assert_eq!(text_of(&plain, &capture_media(&plain, true, true).capture), None);
}

#[test]
fn truncation_and_summaries() {
    assert_eq!(truncate_for_context("short", 10), "short");
    assert_eq!(truncate_for_context("abcdef", 3), "abc…");
    assert_eq!(truncate_for_context("喵喵喵喵", 2), "喵喵…");
    assert_eq!(
        format_reply_summary(Some("ann".to_string()), "hi", Some("photo from @ann")),
        Some("@ann: hi (photo from @ann)".to_string())
    );
    assert_eq!(format_reply_summary(None, "x", None), Some("@someone: x".to_string()));
    let long = "a".repeat(200);
    let s = format_reply_summary(None, &long, None).unwrap();
    assert_eq!(s, format!("@someone: {}…", "a".repeat(160)));
    let mut media = empty_capture();
    assert_eq!(build_db_summary("bob", "hello", None, &media), "@bob: hello");
    media.summary = Some("photo from @bob".to_string());
    assert_eq!(
        build_db_summary("bob", "hello", Some("@ann: hi"), &media),
        "@bob: hello [reply to @ann: hi] [media: photo from @bob]"
    );
    let entry = build_db_entry(-5, 42, &user(7, None, "Bob", false), "hello", None, &media);
    assert_eq!(entry.chat_id, -5);
    assert_eq!(entry.message_id, 42);
    assert_eq!(entry.user_id, 7);
    assert_eq!(entry.username, "Bob");
    assert_eq!(entry.text, "hello");
    assert_eq!(entry.summary, "@Bob: hello [media: photo from @bob]");
}

#[test]
fn reply_author_and_composition() {
    let mut m = message(ChatKind::Group, None, Some("yes"));
    assert_eq!(reply_to_username(&m), None);
    m.reply_to = Some(Box::new(message(ChatKind::Group, Some(user(2, None, "Ann", false)), Some("q"))));
    assert_eq!(reply_to_username(&m), Some("Ann".to_string()));
    assert_eq!(compose_user_text("yes", Some("@Ann: q")), "yes\n\n[replying to @Ann: q]");
    assert_eq!(compose_user_text("yes", None), "yes");
}

#[test]
fn cat_bait_keywords() {
    assert!(contains_cat_bait("Who wants SHRIMP?"));
    assert!(contains_cat_bait("我有虾仁"));
    assert!(contains_cat_bait("🍤🍤"));
    assert!(contains_cat_bait("can I pet me... er, PETTING time"));
    assert!(contains_cat_bait("rua!"));
    assert!(!contains_cat_bait("good morning"));
    assert!(!contains_cat_bait(""));
    for d in 0..8 {
        assert_eq!(cat_bait_response(d), CAT_BAIT_RESPONSES[d % 4]);
    }
}

#[test]
fn send_errors_that_pause() {
    let e = |kind, m: &str| SendError { kind, message: m.to_string() };
    assert!(should_pause_proactive(&e(SendErrorKind::Api(ApiErrorKind::BotBlocked), "x")));
    assert!(should_pause_proactive(&e(SendErrorKind::Api(ApiErrorKind::ChatNotFound), "x")));
    assert!(should_pause_proactive(&e(SendErrorKind::Api(ApiErrorKind::Other), "Forbidden: bot can't initiate conversation with a user")));
    assert!(should_pause_proactive(&e(SendErrorKind::Api(ApiErrorKind::Other), "Bad Request: not enough rights to send text messages")));
    assert!(!should_pause_proactive(&e(SendErrorKind::Api(ApiErrorKind::Other), "Bad Request: message is too long")));
    assert!(should_pause_proactive(&e(SendErrorKind::Other, "HTTP 403 FORBIDDEN")));
    assert!(!should_pause_proactive(&e(SendErrorKind::Other, "connection reset")));

    let mut states = ChatStates::new();
    handle_send_error(&mut states, 1, &e(SendErrorKind::RetryAfter, "forbidden"), 1_000);
    assert_eq!(states.get_chat_state(1, 1_000).proactive_blocked_until, None);
    handle_send_error(&mut states, 1, &e(SendErrorKind::Other, "timeout"), 1_000);
    assert_eq!(states.get_chat_state(1, 1_000).proactive_blocked_until, None);
    handle_send_error(&mut states, 1, &e(SendErrorKind::Api(ApiErrorKind::BotKicked), "kicked"), 1_000);
    assert_eq!(states.get_chat_state(1, 1_000).proactive_blocked_until, Some(3_601_000));
    assert_eq!(states.get_chat_state(2, 1_000).proactive_blocked_until, None);
}

#[test]
fn stickers_and_proactive_chances() {
    assert!(sticker_wanted(MomoMood::Normal, 99_999));
    assert!(!sticker_wanted(MomoMood::Normal, 100_000));
    assert!(sticker_wanted(MomoMood::Playful, 149_999));
    assert!(!sticker_wanted(MomoMood::Playful, 150_000));
    assert!(sticker_wanted(MomoMood::Annoyed, 49_999));
    assert!(!sticker_wanted(MomoMood::Annoyed, 50_000));
    assert!(!sticker_wanted(MomoMood::Busy, 0));
    assert!((0..1_000_000).step_by(7).all(|r| !sticker_wanted(MomoMood::Busy, r)));
    assert!(should_be_proactive(ChatKind::Group, 24_999));
    assert!(!should_be_proactive(ChatKind::Group, 25_000));
    assert!(!should_be_proactive(ChatKind::Private, 0));
}

#[test]
fn response_plans() {
    let normal = ChatState::new();
    let mut busy = ChatState::new();
    busy.set_mood(MomoMood::Busy, 0);
    let mut playful = ChatState::new();
    playful.set_mood(MomoMood::Playful, 0);
    assert_eq!(plan_response(false, &normal, "shrimp!", Some(false), 0, 0), ResponsePlan::CatBait);
    assert_eq!(plan_response(false, &normal, "shrimp!", None, 249_999, 0), ResponsePlan::CatBait);
    assert_eq!(plan_response(false, &normal, "shrimp!", Some(false), 250_000, 0), ResponsePlan::Ignore);
    assert_eq!(plan_response(false, &normal, "shrimp!", Some(true), 0, 0), ResponsePlan::Ignore);
    assert_eq!(plan_response(false, &busy, "shrimp!", Some(false), 0, 0), ResponsePlan::Ignore);
    assert_eq!(plan_response(false, &normal, "hello", Some(false), 0, 0), ResponsePlan::Ignore);
    assert_eq!(plan_response(true, &playful, "hi", Some(false), 0, 199_999), ResponsePlan::Annoyed);
    assert_eq!(plan_response(true, &playful, "hi", Some(false), 0, 200_000), ResponsePlan::Converse);
    assert_eq!(plan_response(true, &busy, "hi", Some(false), 0, 0), ResponsePlan::Converse);
}

#[test]
fn attachments_and_content() {
    let img = |u: &str| ContentPart::ImageUrl { image_url: ImageUrl { url: u.to_string(), detail: Some("high".to_string()) } };
    let mut reply = empty_capture();
    reply.attachments = vec![img("r1"), img("r2"), img("r3")];
    reply.attachment_file_ids = vec!["r1".into(), "r2".into(), "r3".into()];
    let mut cur = empty_capture();
    cur.attachments = vec![img("c1"), img("c2")];
    cur.attachment_file_ids = vec!["c1".into(), "c2".into()];
    let (parts, ids) = combine_attachments(Some(&reply), &cur);
    assert_eq!(ids, vec!["r1", "r2", "r3", "c1"]);
    assert_eq!(parts.len(), 4);
    let (parts, ids) = combine_attachments(None, &cur);
    assert_eq!(ids, vec!["c1", "c2"]);
    match user_content(true, "look".to_string(), &parts) {
        Content::Parts(ps) => {
            assert_eq!(ps.len(), 3);
            assert!(matches!(&ps[0], ContentPart::Text { text } if text == "look"));
            assert!(matches!(&ps[2], ContentPart::ImageUrl { image_url } if image_url.url == "c2"));
        }
        Content::Text(_) => panic!("expected parts"),
    }
    assert!(matches!(user_content(false, "look".to_string(), &parts), Content::Text(t) if t == "look"));
    assert!(matches!(user_content(true, "look".to_string(), &vec![]), Content::Text(t) if t == "look"));
    match image_attachment("data:x".to_string()) {
        ContentPart::ImageUrl { image_url } => {
            assert_eq!(image_url.url, "data:x");
            assert_eq!(image_url.detail, Some("high".to_string()));
        }
        _ => panic!("expected an image"),
    }
    let c = user_content(true, "look".to_string(), &vec![img("u")]);
    assert_eq!(c.as_text(), "look [image attached]");
}

#[test]
fn context_hints() {
    assert_eq!(build_context_hint(&[], ""), None);
    assert_eq!(build_context_hint(&["a".to_string(), "b".to_string()], ""), Some("a\nb".to_string()));
    assert_eq!(build_context_hint(&[], "x: y"), Some("x: y".to_string()));
    assert_eq!(build_context_hint(&["a".to_string()], "x: y"), Some("a\nx: y".to_string()));
}

#[test]
fn small_helpers() {
    assert_eq!(bot_username_for(Some("Momo_MyCat_Bot")), "momo_mycat_bot");
    assert_eq!(bot_username_for(None), "");
    assert!(is_command("/start"));
    assert!(!is_command("start"));
    assert!(!is_command(""));
}

#[test]
fn tracking_a_sender() {
    let mut recent = RecentMessages::new();
    let mut bots = ChatBots::new();
    let mut members = ActiveMembers::new();
    track_sender(&mut recent, &mut bots, &mut members, 1, 10, &user(5, Some("ann"), "Ann", false), "hi");
    track_sender(&mut recent, &mut bots, &mut members, 1, 11, &user(6, Some("x_bot"), "X", true), "beep");
    assert_eq!(members.pick_active_member(1, 1, 5, 0), Some("ann".to_string()));
    assert_eq!(members.pick_active_member(1, 2, 5, 0), None);
    assert_eq!(bots.pick_bot(1, 99, 0), Some("x_bot".to_string()));
    assert_eq!(recent.get_recent_context(1, 10), "ann: hi");
}

#[test]
fn preparing_a_reply_with_images() {
    let img = |u: &str| ContentPart::ImageUrl { image_url: ImageUrl { url: u.to_string(), detail: Some("high".to_string()) } };
    let mut recent = RecentMessages::new();
    let mut bots = ChatBots::new();
    let mut members = ActiveMembers::new();
    let mut m = message(ChatKind::Group, Some(user(5, Some("ann"), "Ann", false)), Some("what is this?"));
    m.id = 77;
    m.reply_to = Some(Box::new(message(ChatKind::Group, Some(user(6, None, "Bob", false)), None)));
    let mut reply_media = empty_capture();
    reply_media.attachments = vec![img("r1")];
    reply_media.attachment_file_ids = vec!["r1".to_string()];
    reply_media.summary = Some("photo from @Bob".to_string());
    let reply = ReplyContext { text: "photo from @Bob".to_string(), media: reply_media };
    let mut current = empty_capture();
    current.attachments = vec![img("c1")];
    current.attachment_file_ids = vec!["c1".to_string()];
    let p = prepare_message(&mut recent, &mut bots, &mut members, &m, "what is this?", &current, Some(&reply));
    assert_eq!(p.composed, "what is this?\n\n[replying to @Bob: photo from @Bob (photo from @Bob)]");
    assert_eq!(p.attachments.len(), 2);
    assert!(matches!(&p.attachments[0], ContentPart::ImageUrl { image_url } if image_url.url == "r1"));
    let e = p.entry.unwrap();
    assert_eq!(e.message_id, 77);
    assert_eq!(e.summary, "@ann: what is this? [reply to @Bob: photo from @Bob (photo from @Bob)]");
    assert_eq!(members.pick_active_member(-100, 1, 5, 0), Some("ann".to_string()));
    assert_eq!(recent.get_recent_context(-100, 5), "ann: what is this?");

    let anon = message(ChatKind::Channel, None, Some("news"));
    let p = prepare_message(&mut recent, &mut bots, &mut members, &anon, "news", &empty_capture(), None);
    assert!(p.entry.is_none());
    assert_eq!(p.composed, "news");
    assert_eq!(recent.get_recent_context(-100, 5), "ann: what is this?");

    let grok = GrokClient::with_config(
        "k".to_string(),
        GrokConfig { chat_model: "c".to_string(), proactive_model: "p".to_string(), max_tokens: 9, enable_search: false, enable_multimodal: true },
    );
    let mut history = ConversationHistory::new();
    let req = converse_request(&mut history, &grok, &recent, -100, ChatKind::Group, "hello".to_string(), &vec![img("x")], &["@ann: hi".to_string()]);
    assert_eq!(req.sampling, Sampling::Chat);
    assert_eq!(req.messages.len(), 3);
    assert_eq!(req.messages[1].content.as_text(), "Recent group context (latest first):\n@ann: hi\nann: what is this?");
    assert_eq!(req.messages[2].content.as_text(), "hello [image attached]");
    assert_eq!(history.message_count(-100), 1);
    let req = converse_request(&mut history, &grok, &recent, -100, ChatKind::Private, "again".to_string(), &vec![], &[]);
    assert_eq!(req.messages.len(), 3);
    assert_eq!(req.messages[2].content.as_text(), "again");
    assert_eq!(history.message_count(-100), 2);
}
