use momo_bot::active::ProactiveBehavior::{
    BotInteraction, CatBehavior, MentionUser, NaturalComment, PlayfulMode, ReplyToMessage,
    TimeNewsStarter, TimeRandomStarter,
};
use momo_bot::active::{
    begin_proactive, begin_proactive_by, finish_proactive, finish_proactive_by, plan_proactive,
    plan_proactive_by, select_proactive_behavior, ProactiveBehavior, ProactiveStart,
};
use momo_bot::config::{GROK_MAX_TOKENS, GROK_MODEL, GROK_MODEL_PROACTIVE};
use momo_bot::db::{cached_image_from_row, image_cache_needs_rebuild};
use momo_bot::grok::{
    first_choice_text, parse_bool_setting, Content, ContentPart, GrokClient, GrokConfig,
    GrokRequest, GrokSettings, ImageUrl, Message, Sampling,
};
use momo_bot::history::ConversationHistory;
use momo_bot::members::ActiveMembers;
use momo_bot::prompts::{cat_behavior_prompt, MOMO_SYSTEM_PROMPT};
use momo_bot::state::{ChatStates, MomoMood};
use momo_bot::tracking::{ChatBots, RecentMessages};
use momo_bot::types::Sender;

fn settings() -> GrokSettings {
    GrokSettings { model: None, model_proactive: None, max_tokens: None, enable_search: None, enable_multimodal: None }
}

fn client(search: bool) -> GrokClient {
    GrokClient::with_config(
        "key".to_string(),
        GrokConfig {
            chat_model: "chat-m".to_string(),
            proactive_model: "pro-m".to_string(),
            max_tokens: 333,
            enable_search: search,
            enable_multimodal: true,
        },
    )
}

fn text_of(m: &Message) -> (String, String) {
    (m.role.clone(), m.content.as_text())
}

fn user(id: u64, name: &str, is_bot: bool) -> Sender {
    Sender { id, is_bot, username: Some(name.to_string()), first_name: name.to_string() }
}

#[test]
fn content_as_text() {
    assert_eq!(Content::Text("hi".to_string()).as_text(), "hi");
    let c = Content::Parts(vec![
        ContentPart::Text { text: "look".to_string() },
        ContentPart::ImageUrl { image_url: ImageUrl { url: "u".to_string(), detail: None } },
        ContentPart::Text { text: "cute".to_string() },
    ]);
    assert_eq!(c.as_text(), "look [image attached] cute");
    assert_eq!(Content::Parts(vec![]).as_text(), "");
    let m = Message::text("user", "hello".to_string());
    assert_eq!(m.role, "user");
    assert_eq!(m.content.as_text(), "hello");
}

#[test]
fn config_defaults_and_overrides() {
    let c = GrokConfig::from_settings(&settings());
    assert_eq!(c.chat_model, GROK_MODEL);
    assert_eq!(c.proactive_model, GROK_MODEL_PROACTIVE);
    assert_eq!(c.max_tokens, GROK_MAX_TOKENS);
    assert!(!c.enable_search);
    assert!(c.enable_multimodal);
    let mut s = settings();
    s.model = Some("m1".to_string());
    s.max_tokens = Some("2048".to_string());
    s.enable_search = Some("YES".to_string());
    s.enable_multimodal = Some("off".to_string());
    let c = GrokConfig::from_settings(&s);
    assert_eq!(c.chat_model, "m1");
    assert_eq!(c.proactive_model, "m1");
    assert_eq!(c.max_tokens, 2048);
    assert!(c.enable_search);
    assert!(!c.enable_multimodal);
    s.model_proactive = Some("m2".to_string());
    s.max_tokens = Some("lots".to_string());
    let c = GrokConfig::from_settings(&s);
    assert_eq!(c.proactive_model, "m2");
    assert_eq!(c.max_tokens, GROK_MAX_TOKENS);
    for (v, want) in [("1", true), ("true", true), ("On", true), ("y", true), ("no", false), ("", false), (" true", false)] {
        assert_eq!(parse_bool_setting(&Some(v.to_string()), false), want, "{}", v);
    }
    assert!(parse_bool_setting(&None, true));
}

#[test]
fn client_getters() {
    let g = client(false);
    assert!(g.allows_multimodal());
    assert_eq!(g.chat_model_name(), "chat-m");
    assert_eq!(g.proactive_model_name(), "pro-m");
    assert!(!g.search_enabled());
}

#[test]
fn chat_request_layout() {
    let g = client(false);
    let conv = vec![Message::text("user", "hi".to_string()), Message::text("assistant", "nya".to_string())];
    let r = g.chat_request(&conv, Some("ann: hello"));
    assert_eq!(r.model, "chat-m");
    assert_eq!(r.sampling, Sampling::Chat);
    assert_eq!(r.max_tokens, 333);
    assert_eq!(r.search, None);
    let got: Vec<_> = r.messages.iter().map(text_of).collect();
    assert_eq!(
        got,
        vec![
            ("system".to_string(), MOMO_SYSTEM_PROMPT.to_string()),
            ("system".to_string(), "Recent group context (latest first):\nann: hello".to_string()),
            ("user".to_string(), "hi".to_string()),
            ("assistant".to_string(), "nya".to_string()),
        ]
    );
    assert_eq!(g.chat_request(&conv, Some("  \n")).messages.len(), 3);
    assert_eq!(g.chat_request(&conv, None).messages.len(), 3);
    assert_eq!(client(true).chat_request(&conv, None).search, Some(true));
}

#[test]
fn prompted_requests() {
    let g = client(false);
    let hist = vec![Message::text("user", "earlier".to_string())];
    let r: GrokRequest = g.cat_behavior_request(&hist);
    assert_eq!(r.model, "pro-m");
    assert_eq!(r.sampling, Sampling::Proactive);
    assert_eq!(r.search, None);
    let got: Vec<_> = r.messages.iter().map(text_of).collect();
    assert_eq!(
        got,
        vec![
            ("system".to_string(), MOMO_SYSTEM_PROMPT.to_string()),
            ("user".to_string(), "earlier".to_string()),
            ("user".to_string(), cat_behavior_prompt().to_string()),
        ]
    );
    let r = g.news_starter_request("space", &hist);
    assert_eq!(r.search, Some(true));
    assert!(r.messages[2].content.as_text().starts_with("Topic: space."));
    let r = g.prompt_request("custom".to_string(), &[], false);
    assert_eq!(r.messages.len(), 2);
    assert_eq!(r.messages[1].content.as_text(), "custom");
    assert!(g.annoyed_response_request("ann", &[]).messages[1].content.as_text().contains("@ann"));
    assert!(g.bot_interaction_request("b_bot", &[]).messages[1].content.as_text().starts_with("Mention @b_bot"));
    assert!(g.mention_user_request("ann", &["x".to_string()], &[]).messages[1].content.as_text().contains(":\nx\n\n"));
    assert!(g.reply_to_message_request("ann", "q?", &[]).messages[1].content.as_text().contains("\"q?\""));
    assert!(g.natural_comment_request("ctx", &[]).messages[1].content.as_text().starts_with("Recent conversation:\nctx"));
    assert!(g.random_starter_request(&[]).messages[1].content.as_text().starts_with("Start chat"));
    assert!(g.playful_mode_request(&[]).messages[1].content.as_text().starts_with("Feel playful"));
}

#[test]
fn first_choice() {
    assert_eq!(first_choice_text(&[]), None);
    let m = vec![Message::text("assistant", "a".to_string()), Message::text("assistant", "b".to_string())];
    assert_eq!(first_choice_text(&m), Some("a".to_string()));
}

#[test]
fn behaviour_rolls() {
    assert_eq!(select_proactive_behavior(true, 0), CatBehavior);
    assert_eq!(select_proactive_behavior(true, 299_999), CatBehavior);
    assert_eq!(select_proactive_behavior(true, 300_000), PlayfulMode);
    assert_eq!(select_proactive_behavior(true, 449_999), PlayfulMode);
    assert_eq!(select_proactive_behavior(true, 450_000), TimeRandomStarter);
    assert_eq!(select_proactive_behavior(true, 499_999), TimeRandomStarter);
    assert_eq!(select_proactive_behavior(true, 724_999), TimeRandomStarter);
    assert_eq!(select_proactive_behavior(true, 725_000), TimeNewsStarter);
    assert_eq!(select_proactive_behavior(true, 999_999), TimeNewsStarter);
    assert_eq!(select_proactive_behavior(false, 0), NaturalComment);
    assert_eq!(select_proactive_behavior(false, 499_999), NaturalComment);
    assert_eq!(select_proactive_behavior(false, 500_000), ReplyToMessage);
    assert_eq!(select_proactive_behavior(false, 799_999), ReplyToMessage);
    assert_eq!(select_proactive_behavior(false, 800_000), MentionUser);
    assert_eq!(select_proactive_behavior(false, 949_999), MentionUser);
    assert_eq!(select_proactive_behavior(false, 950_000), BotInteraction);
    assert_eq!(select_proactive_behavior(false, 979_999), BotInteraction);
    assert_eq!(select_proactive_behavior(false, 980_000), TimeRandomStarter);
}

#[test]
fn behaviour_kinds_on_all_rolls() {
    for roll in (0..1_000_000u32).step_by(997) {
        let b = select_proactive_behavior(true, roll);
        assert!(matches!(b, CatBehavior | PlayfulMode | TimeRandomStarter | TimeNewsStarter));
        let b = select_proactive_behavior(false, roll);
        assert!(!matches!(b, CatBehavior | PlayfulMode | TimeNewsStarter));
    }
}

#[test]
fn first_start_schedules_then_cat_post_makes_busy() {
    let mut states = ChatStates::new();
    let r = begin_proactive_by(&mut states, 1, 0, 0, 0);
    assert_eq!(r, Some(ProactiveStart { behavior: ProactiveBehavior::NaturalComment, is_time_based: false }));
    assert_eq!(states.get_chat_state(1, 0).next_proactive_time, Some(14_400_000));
    let r = begin_proactive_by(&mut states, 1, 14_400_000, 0, 0);
    assert_eq!(r, Some(ProactiveStart { behavior: ProactiveBehavior::CatBehavior, is_time_based: true }));
    let s = states.get_chat_state(1, 14_400_000);
    assert_eq!(s.mood, MomoMood::Busy);
    assert_eq!(begin_proactive_by(&mut states, 1, 14_400_000 + 179_999, 0, 0), None);
    assert!(begin_proactive_by(&mut states, 1, 14_400_000 + 180_000, 0, 0).is_some());
}

#[test]
fn playful_start_and_pause() {
    let mut states = ChatStates::new();
    states.get_chat_state(2, 0);
    let mut s = states.get_chat_state(2, 0);
    s.next_proactive_time = Some(10);
    states.update_chat_state(2, s);
    let r = begin_proactive_by(&mut states, 2, 10, 300_000, 0).unwrap();
    assert_eq!(r.behavior, ProactiveBehavior::PlayfulMode);
    assert_eq!(states.get_chat_state(2, 10).mood, MomoMood::Playful);
    states.pause_proactive(2, 20, 3600);
    assert_eq!(begin_proactive_by(&mut states, 2, 3_600_019, 0, 0), None);
    assert!(begin_proactive(&mut states, 2, 3_600_020).is_some());
    assert!(begin_proactive(&mut states, 3, 0).is_some());
}

fn sample_chat() -> (ActiveMembers, RecentMessages, ChatBots) {
    let mut members = ActiveMembers::new();
    let mut recent = RecentMessages::new();
    let mut bots = ChatBots::new();
    let ann = user(1, "ann", false);
    let bob = user(2, "bob", false);
    let cat = user(3, "cat", false);
    let other = user(50, "other_bot", true);
    for (i, (u, t)) in [(&ann, "hi"), (&bob, "yo"), (&cat, "meow"), (&ann, "shrimp?")].iter().enumerate() {
        recent.track_message(1, 100 + i as i32, u, t);
        members.track_active_member(1, u);
    }
    recent.track_message(1, 200, &other, "beep");
    bots.track_bot(1, &other);
    (members, recent, bots)
}

#[test]
fn plans_for_each_behaviour() {
    let g = client(false);
    let (members, recent, bots) = sample_chat();
    let hist: Vec<Message> = vec![];
    let p = plan_proactive_by(&g, ProactiveBehavior::NaturalComment, &members, &recent, &bots, &hist, 1, 99, 0).unwrap();
    assert_eq!(p.reply_to, None);
    assert_eq!(
        p.request.messages[1].content.as_text(),
        momo_bot::prompts::proactive_natural_comment_prompt("ann: shrimp?\ncat: meow\nbob: yo\nann: hi")
    );
    let p = plan_proactive_by(&g, ProactiveBehavior::ReplyToMessage, &members, &recent, &bots, &hist, 1, 99, 1).unwrap();
    assert_eq!(p.reply_to, Some(102));
    assert_eq!(
        p.request.messages[1].content.as_text(),
        momo_bot::prompts::proactive_reply_to_message_prompt("cat", "meow")
    );
    let p = plan_proactive_by(&g, ProactiveBehavior::MentionUser, &members, &recent, &bots, &hist, 1, 99, 0).unwrap();
    assert_eq!(
        p.request.messages[1].content.as_text(),
        momo_bot::prompts::proactive_mention_user_prompt("ann", &["shrimp?".to_string(), "hi".to_string()])
    );
    let p = plan_proactive_by(&g, ProactiveBehavior::BotInteraction, &members, &recent, &bots, &hist, 1, 99, 7).unwrap();
    assert_eq!(p.request.messages[1].content.as_text(), momo_bot::prompts::bot_interaction_prompt("other_bot"));
    assert!(plan_proactive_by(&g, ProactiveBehavior::BotInteraction, &members, &recent, &bots, &hist, 1, 50, 0).is_none());
    let p = plan_proactive_by(&g, ProactiveBehavior::TimeNewsStarter, &members, &recent, &bots, &hist, 1, 99, 0).unwrap();
    assert_eq!(p.request.search, Some(true));
    assert_eq!(
        p.request.messages[1].content.as_text(),
        momo_bot::prompts::news_conversation_starter_prompt("ann: shrimp?\ncat: meow\nbob: yo\nann: hi")
    );
    for b in [ProactiveBehavior::TimeRandomStarter, ProactiveBehavior::CatBehavior, ProactiveBehavior::PlayfulMode] {
        assert!(plan_proactive_by(&g, b, &members, &recent, &bots, &hist, 2, 99, 0).is_some());
    }
    for b in [ProactiveBehavior::NaturalComment, ProactiveBehavior::ReplyToMessage, ProactiveBehavior::MentionUser, ProactiveBehavior::TimeNewsStarter] {
        assert!(plan_proactive_by(&g, b, &members, &recent, &bots, &hist, 2, 99, 0).is_none());
        assert!(plan_proactive(&g, b, &members, &recent, &bots, &hist, 2, 99).is_none());
    }
}

#[test]
fn finishing_records_and_reschedules() {
    let mut h = ConversationHistory::new();
    let mut states = ChatStates::new();
    finish_proactive_by(&mut h, &mut states, 1, "meow".to_string(), false, 5, 0);
    assert_eq!(h.message_count(1), 1);
    assert_eq!(h.messages(1)[0].role, "assistant");
    assert_eq!(states.get_chat_state(1, 5).last_proactive_time, None);
    finish_proactive_by(&mut h, &mut states, 1, "nya".to_string(), true, 1_000, 10);
    let s = states.get_chat_state(1, 1_000);
    assert_eq!(s.last_proactive_time, Some(1_000));
    assert_eq!(s.next_proactive_time, Some(1_000 + 14_410_000));
    finish_proactive(&mut h, &mut states, 1, "purr".to_string(), true, 2_000);
    let t = states.get_chat_state(1, 2_000).next_proactive_time.unwrap();
    assert!(t >= 2_000 + 14_400_000 && t < 2_000 + 43_200_000);
    assert_eq!(h.message_count(1), 3);
}

#[test]
fn history_keeps_twenty() {
    let mut h = ConversationHistory::new();
    let mut last = Vec::new();
    for i in 0..25 {
        last = h.push_and_trim(4, Message::text("user", format!("m{}", i)));
    }
    assert_eq!(last.len(), 20);
    assert_eq!(last[0].content.as_text(), "m5");
    assert_eq!(last[19].content.as_text(), "m24");
    assert_eq!(h.message_count(4), 20);
    h.reset(4);
    assert_eq!(h.message_count(4), 0);
}

#[test]
fn db_rows() {
    let c = cached_image_from_row(("image/png".to_string(), "data:x".to_string(), None));
    assert_eq!(c.mime_type, "image/png");
    assert_eq!(c.data_url, "data:x");
    assert_eq!(c.description, None);
    assert!(image_cache_needs_rebuild(true, false));
    assert!(!image_cache_needs_rebuild(true, true));
    assert!(!image_cache_needs_rebuild(false, false));
}
