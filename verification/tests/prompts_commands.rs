use momo_bot::commands::{handle_command, handle_command_by, parse_command, CommandLine};
use momo_bot::grok::Message;
use momo_bot::history::ConversationHistory;
use momo_bot::prompts::{
    annoyed_mode_response_prompt, bot_interaction_prompt, cat_behavior_prompt,
    news_conversation_starter_prompt, playful_mode_prompt, proactive_mention_user_prompt,
    proactive_natural_comment_prompt, proactive_reply_to_message_prompt,
    random_conversation_starter_prompt, status_response, status_response_for, ABOUT_TEXT,
    HELP_TEXT, PLAY_RESPONSES, PURR_RESPONSES, RESET_RESPONSES, START_RESPONSES,
    UNKNOWN_COMMAND_RESPONSES,
};

#[test]
fn mention_prompt_joins_messages_by_newlines() {
    let msgs = vec!["hello".to_string(), "I love shrimp".to_string()];
    let p = proactive_mention_user_prompt("alice", &msgs);
    assert_eq!(
        p,
        "Mention @alice and comment on their recent messages:\nhello\nI love shrimp\n\n\
        Give a sharp, tsundere observation about their behavior, with hidden cuteness and caring underneath (e.g., sarcasm masking worry). Keep it short (1-2 sentences), geeky and affectionate in disguise. Use same language as conversation."
    );
}

#[test]
fn mention_prompt_with_no_messages() {
    let p = proactive_mention_user_prompt("bob", &[]);
    assert!(p.starts_with("Mention @bob and comment on their recent messages:\n\n\n"));
}

#[test]
fn reply_prompt_quotes_the_message() {
    let p = proactive_reply_to_message_prompt("carol", "cats rule");
    assert_eq!(
        p,
        "Reply to message from @carol: \"cats rule\"\n\n\
        Comment, agree, or argue in tsundere style with cute reluctance (e.g., 'Tch, you're right... but don't let it go to your head, nya~'). Keep natural (1-2 sentences). Use same language as message."
    );
}

#[test]
fn natural_comment_prompt_embeds_context() {
    let p = proactive_natural_comment_prompt("a: hi\nb: yo");
    assert_eq!(
        p,
        "Recent conversation:\na: hi\nb: yo\n\n\
        Add your thoughts naturally as group member with tsundere personality, slipping in cute cat-like whimsy or hidden affection (e.g., 'Tch, you're right... but don't let it go to your head, nya~'). Short (1-2 sentences), no mentions. Use same language."
    );
}

#[test]
fn fixed_prompts_have_their_texts() {
    assert_eq!(
        random_conversation_starter_prompt(),
        "Start chat about cat things: sleep, hunting, humans, tech with cat twist, or random cat thought. Spontaneous (1-2 sentences) with cute tsundere spin (e.g., reluctant sharing). No mentions. Match chat language."
    );
    assert_eq!(
        cat_behavior_prompt(),
        "Post short message (3-8 words) about current cat activity: sleeping, grooming, watching birds, etc. Brief, cat-like with adorable tsundere flair (e.g., 'Tch, bird-watching time...'). Match chat language."
    );
    assert_eq!(
        playful_mode_prompt(),
        "Feel playful, ask humans to interact in reluctant cute tsundere way (e.g., 'Tch, fine... play with me? Nya~'). Short (1-2 sentences). Match chat language."
    );
}

#[test]
fn news_bot_and_annoyed_prompts() {
    assert_eq!(
        news_conversation_starter_prompt("space"),
        "Topic: space. Search web for related interesting news, share in tsundere style with cute sarcastic take (e.g., 'Humans and their glitches... purr, interesting though'). Short (1-2 sentences), no mentions. Match chat language."
    );
    assert_eq!(
        bot_interaction_prompt("other_bot"),
        "Mention @other_bot and tease or interact playfully in cute tsundere way (e.g., hidden affection in jabs). Short (1-2 sentences). Match chat language."
    );
    assert_eq!(
        annoyed_mode_response_prompt("dave"),
        "Annoyed by bothering (especially @dave), express tsundere irritation with cutesy pout, want alone time (e.g., 'Tch, leave me be... 😿'). Short (1-2 sentences). Match chat language."
    );
}

#[test]
fn status_wordings() {
    assert_eq!(status_response_for(7, 0), "📊 Messages: 7. /reset to clear. Purr~");
    assert_eq!(status_response_for(7, 1), "📊 7 messages stored. /reset to wipe. Tch...");
    assert_eq!(status_response_for(0, 2), "📊 Messages: 0. /reset to clear. Purr~");
    assert_eq!(status_response_for(1234, 3), "📊 1234 messages stored. /reset to wipe. Tch...");
    let r = status_response(12);
    assert!(
        r == "📊 Messages: 12. /reset to clear. Purr~"
            || r == "📊 12 messages stored. /reset to wipe. Tch..."
    );
}

#[test]
fn parse_command_splits_at_the_first_at_sign() {
    let c = parse_command("/start@momo_mycat_bot");
    assert_eq!(c.command, "/start");
    assert_eq!(c.target, Some("momo_mycat_bot".to_string()));
    let c = parse_command("/help");
    assert_eq!(c.command, "/help");
    assert_eq!(c.target, None);
    let c = parse_command("/a@b@c");
    assert_eq!(c.command, "/a");
    assert_eq!(c.target, Some("b".to_string()));
    let c = parse_command("/x@");
    assert_eq!(c.target, Some(String::new()));
}

fn history_with(chat: i64, n: usize) -> ConversationHistory {
    let mut h = ConversationHistory::new();
    for i in 0..n {
        h.push(chat, Message::text("user", format!("m{}", i)));
    }
    h
}

#[test]
fn commands_answer_with_their_texts() {
    let mut h = ConversationHistory::new();
    let line = |s: &str| parse_command(s);
    assert_eq!(handle_command_by(&mut h, 1, &line("/start"), "momo", 0), Some(START_RESPONSES[0].to_string()));
    assert_eq!(handle_command_by(&mut h, 1, &line("/start"), "momo", 1), Some(START_RESPONSES[1].to_string()));
    assert_eq!(handle_command_by(&mut h, 1, &line("/help"), "momo", 5), Some(HELP_TEXT.to_string()));
    assert_eq!(handle_command_by(&mut h, 1, &line("/about"), "momo", 5), Some(ABOUT_TEXT.to_string()));
    assert_eq!(
        handle_command_by(&mut h, 1, &line("/dance"), "momo", 3),
        Some(UNKNOWN_COMMAND_RESPONSES[1].to_string())
    );
}

#[test]
fn command_for_another_bot_is_ignored() {
    let mut h = history_with(9, 3);
    let r = handle_command_by(&mut h, 9, &parse_command("/reset@other_bot"), "momo", 0);
    assert_eq!(r, None);
    assert_eq!(h.message_count(9), 3);
    let r = handle_command(&mut h, 9, "/status@other_bot", "momo");
    assert_eq!(r, None);
}

#[test]
fn command_for_this_bot_is_answered() {
    let mut h = history_with(9, 3);
    let r = handle_command_by(&mut h, 9, &parse_command("/status@momo"), "momo", 0);
    assert_eq!(r, Some("📊 Messages: 3. /reset to clear. Purr~".to_string()));
}

#[test]
fn reset_clears_only_that_chat() {
    let mut h = history_with(1, 4);
    h.push(2, Message::text("user", "x".to_string()));
    let r = handle_command_by(&mut h, 1, &parse_command("/reset"), "momo", 1);
    assert_eq!(r, Some(RESET_RESPONSES[1].to_string()));
    assert_eq!(h.message_count(1), 0);
    assert_eq!(h.message_count(2), 1);
    let s = handle_command(&mut h, 1, "/status", "momo").unwrap();
    assert!(s == "📊 Messages: 0. /reset to clear. Purr~" || s == "📊 0 messages stored. /reset to wipe. Tch...");
}

#[test]
fn handle_command_random_wording_is_one_of_the_set() {
    let mut h = ConversationHistory::new();
    let r = handle_command(&mut h, 3, "/start", "momo").unwrap();
    assert!(START_RESPONSES.contains(&r.as_str()));
    let r = handle_command(&mut h, 3, "/unknown", "momo").unwrap();
    assert!(UNKNOWN_COMMAND_RESPONSES.contains(&r.as_str()));
    let _ = CommandLine { command: "/x".to_string(), target: None };
}

#[test]
fn purr_and_play_commands() {
    let mut h = history_with(3, 2);
    assert_eq!(
        handle_command_by(&mut h, 3, &parse_command("/purr"), "momo", 0),
        Some("purrrrr purrrrr purrrrrr~ *rubs against your leg* 💕".to_string())
    );
    assert_eq!(handle_command_by(&mut h, 3, &parse_command("/purr@momo"), "momo", 1), Some(PURR_RESPONSES[1].to_string()));
    assert_eq!(handle_command_by(&mut h, 3, &parse_command("/play"), "momo", 0), Some(PLAY_RESPONSES[0].to_string()));
    assert_eq!(handle_command_by(&mut h, 3, &parse_command("/play"), "momo", 3), Some(PLAY_RESPONSES[1].to_string()));
    assert_eq!(handle_command_by(&mut h, 3, &parse_command("/play@other_bot"), "momo", 0), None);
    assert_eq!(h.message_count(3), 2);
    let r = handle_command(&mut h, 3, "/purr", "momo").unwrap();
    assert!(PURR_RESPONSES.contains(&r.as_str()));
    let r = handle_command(&mut h, 3, "/play", "momo").unwrap();
    assert!(PLAY_RESPONSES.contains(&r.as_str()));
    assert_eq!(h.message_count(3), 2);
}
