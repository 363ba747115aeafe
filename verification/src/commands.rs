//! Command handlers for Momo bot
use vstd::prelude::*;

use crate::history::ConversationHistory;
use crate::grok::MessageView;
use crate::prompts::{
    status_response_for, status_texts, ABOUT_TEXT, HELP_TEXT, PLAY_RESPONSES, PURR_RESPONSES,
    RESET_RESPONSES, START_RESPONSES, UNKNOWN_COMMAND_RESPONSES,
};
use crate::text::{chars_of, str_eq};
use crate::types::ChatId;
use crate::utils::random_usize;

verus! {

/// The index of the first '@' at or after `k`, or the length where there is none.
pub open spec fn first_at_from(s: Seq<char>, k: int) -> int
    decreases s.len() - k,
{
    if k >= s.len() {
        s.len() as int
    } else if s[k] == '@' {
        k
    } else {
        first_at_from(s, k + 1)
    }
}

/// A command as typed: the command itself, and the bot it is addressed to
/// ("/start@momo_bot"), where one is named.
pub struct CommandLine {
    pub command: String,
    pub target: Option<String>,
}

/// The command is the text before the first '@'; the target, where there is
/// an '@', is the text between it and the next '@' (or the end).
pub open spec fn command_part(text: Seq<char>) -> Seq<char> {
    text.take(first_at_from(text, 0))
}

/// The target of a command line, where it names one.
pub open spec fn target_part(text: Seq<char>) -> Option<Seq<char>> {
    let i = first_at_from(text, 0);
    if i < text.len() {
        Some(text.subrange(i + 1, first_at_from(text, i + 1)))
    } else {
        None
    }
}

/// The index of the first '@' at or after `from`.
fn find_at(cs: &Vec<char>, from: usize) -> (r: usize)
    requires
        from <= cs.len(),
    ensures
        r == first_at_from(cs@, from as int),
        from <= r <= cs.len(),
{
    let mut i = from;
    while i < cs.len() && cs[i] != '@'
        invariant
            from <= i <= cs.len(),
            first_at_from(cs@, from as int) == first_at_from(cs@, i as int),
        decreases cs.len() - i,
    {
        i = i + 1;
    }
    i
}

/// Splits a command line at '@' into the command and the bot it addresses.
pub fn parse_command(text: &str) -> (r: CommandLine)
    ensures
        r.command@ == command_part(text@),
        match target_part(text@) {
            Some(t) => r.target matches Some(x) && x@ == t,
            None => r.target is None,
        },
{
    let cs = chars_of(text);
    proof {
        lemma_first_at_bounds(text@, 0);
    }
    let i = find_at(&cs, 0);
    let command = String::from_str(text.substring_char(0, i));
    let target = if i < cs.len() {
        let j = find_at(&cs, i + 1);
        Some(String::from_str(text.substring_char(i + 1, j)))
    } else {
        None
    };
    CommandLine { command, target }
}

/// `first_at_from` stays within `k..len`.
proof fn lemma_first_at_bounds(s: Seq<char>, k: int)
    requires
        0 <= k <= s.len(),
    ensures
        k <= first_at_from(s, k) <= s.len(),
    decreases s.len() - k,
{
    if k < s.len() && s[k] != '@' {
        lemma_first_at_bounds(s, k + 1);
    }
}

/// What a command does: the reply it sends, and whether it first clears
/// the chat's history.
pub open spec fn command_outcome(command: Seq<char>, history_count: nat, draw: nat) -> (Seq<char>, bool) {
    if command == "/start"@ {
        (START_RESPONSES@[(draw % 2) as int]@, false)
    } else if command == "/help"@ {
        (HELP_TEXT@, false)
    } else if command == "/about"@ {
        (ABOUT_TEXT@, false)
    } else if command == "/reset"@ {
        (RESET_RESPONSES@[(draw % 2) as int]@, true)
    } else if command == "/status"@ {
        (status_texts(history_count)[(draw % 2) as int], false)
    } else if command == "/purr"@ {
        (PURR_RESPONSES@[(draw % 2) as int]@, false)
    } else if command == "/play"@ {
        (PLAY_RESPONSES@[(draw % 2) as int]@, false)
    } else {
        (UNKNOWN_COMMAND_RESPONSES@[(draw % 2) as int]@, false)
    }
}

/// Handles a command with the reply wording that `draw` selects: none where
/// the command names another bot than `my_username`; else the reply, after
/// clearing the chat's history for "/reset".
pub fn handle_command_by(
    history: &mut ConversationHistory,
    chat: ChatId,
    line: &CommandLine,
    my_username: &str,
    draw: usize,
) -> (r: Option<String>)
    ensures
        ({
            let ignored = line.target matches Some(t) && t@ != my_username@;
            let (reply, resets) = command_outcome(
                line.command@,
                old(history).history_of(chat).len(),
                draw as nat,
            );
            if ignored {
                r is None && *final(history) == *old(history)
            } else {
                &&& r matches Some(text) && text@ == reply
                &&& resets ==> final(history).history_of(chat) == Seq::<MessageView>::empty()
                &&& !resets ==> *final(history) == *old(history)
                &&& forall|c: ChatId| c != chat ==> #[trigger] final(history).history_of(c) == old(history).history_of(c)
            }
        }),
{
    match &line.target {
        Some(t) => {
            if !str_eq(t.as_str(), my_username) {
                return None;
            }
        },
        None => {},
    }
    let command = line.command.as_str();
    let k = draw % 2;
    if str_eq(command, "/start") {
        Some(String::from_str(START_RESPONSES[k]))
    } else if str_eq(command, "/help") {
        Some(String::from_str(HELP_TEXT))
    } else if str_eq(command, "/about") {
        Some(String::from_str(ABOUT_TEXT))
    } else if str_eq(command, "/reset") {
        history.reset(chat);
        Some(String::from_str(RESET_RESPONSES[k]))
    } else if str_eq(command, "/status") {
        let count = history.message_count(chat);
        Some(status_response_for(count, draw))
    } else if str_eq(command, "/purr") {
        Some(String::from_str(PURR_RESPONSES[k]))
    } else if str_eq(command, "/play") {
        Some(String::from_str(PLAY_RESPONSES[k]))
    } else {
        Some(String::from_str(UNKNOWN_COMMAND_RESPONSES[k]))
    }
}

/// Handle bot commands: parses the line and answers with a wording picked at
/// random; none where the command names another bot.
pub fn handle_command(
    history: &mut ConversationHistory,
    chat: ChatId,
    text: &str,
    my_username: &str,
) -> (r: Option<String>)
    ensures
        exists|draw: nat|
            {
                let ignored = target_part(text@) matches Some(t) && t != my_username@;
                let (reply, resets) = #[trigger] command_outcome(
                    command_part(text@),
                    old(history).history_of(chat).len(),
                    draw,
                );
                if ignored {
                    r is None && *final(history) == *old(history)
                } else {
                    &&& r matches Some(t) && t@ == reply
                    &&& resets ==> final(history).history_of(chat) == Seq::<MessageView>::empty()
                    &&& !resets ==> *final(history) == *old(history)
                    &&& forall|c: ChatId| c != chat ==> #[trigger] final(history).history_of(c) == old(history).history_of(c)
                }
            },
{
    let line = parse_command(text);
    let draw = random_usize();
    let r = handle_command_by(history, chat, &line, my_username, draw);
    assert(command_outcome(command_part(text@), old(history).history_of(chat).len(), draw as nat)
        == command_outcome(line.command@, old(history).history_of(chat).len(), draw as nat));
    r
}

} // verus!
