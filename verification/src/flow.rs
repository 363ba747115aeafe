//! The course of handling one message, as a machine of stages: the program
//! performs each action and reports what came of it, and the next stage and
//! action follow from that report alone.
use vstd::prelude::*;

use crate::config::ACTIVE_MESSAGE_CHANCE;
use crate::handler::{should_be_proactive, ResponsePlan};
use crate::types::ChatKind;

verus! {

/// A message of Momo's on its way.
#[derive(PartialEq, Eq, Structural, Clone, Copy, Debug)]
pub enum Outgoing {
    /// A spontaneous message, sent before any answer.
    Proactive,
    /// A canned reply to a cat-bait keyword.
    CatBait,
    /// A sulky answer from the model.
    Annoyed,
    /// The model's answer.
    Reply,
    /// The apology when the model failed.
    ErrorReply,
}

/// Where the handling of a message stands.
#[derive(PartialEq, Eq, Structural, Clone, Copy, Debug)]
pub enum Stage {
    /// The message has just come in.
    Received,
    /// It was remembered and logged; a spontaneous message may come first.
    Prepared,
    /// A spontaneous message is being written.
    Proactive,
    /// Momo decides how to answer.
    Deciding,
    /// She turned annoyed and asked the model for a sulky answer.
    Sulking,
    /// She asked the model for an answer.
    Conversing,
    /// A message of hers is being sent.
    Sending(Outgoing),
    /// Nothing is left to do.
    Done,
}

/// What came of the last action.
#[derive(PartialEq, Eq, Structural, Clone, Copy, Debug)]
pub enum Event {
    /// The message was read: whether it has any text, and whether that text
    /// is a command.
    Read { has_text: bool, is_command: bool },
    /// The message was remembered: the chat's kind, and a roll below
    /// `ROLL_SCALE` for a spontaneous message.
    Rolled { kind: ChatKind, roll: u32 },
    /// Whether a spontaneous message was written.
    Written { ok: bool },
    /// How Momo means to answer.
    Planned { plan: ResponsePlan },
    /// Whether the model gave an answer.
    Answered { ok: bool },
    /// Whether Telegram took the message.
    Sent { ok: bool },
}

/// What to do next.
#[derive(PartialEq, Eq, Structural, Clone, Copy, Debug)]
pub enum Action {
    /// Nothing more.
    Stop,
    /// Answer the command, and nothing else: a command is neither remembered
    /// nor logged.
    AnswerCommand,
    /// Remember the message and its author, log it, and roll for a
    /// spontaneous message.
    Prepare,
    /// Write a spontaneous message.
    WriteProactive,
    /// Decide how to answer.
    Decide,
    /// Turn annoyed and ask the model for a sulky answer to the author.
    AskSulky,
    /// Record the message in the history and ask the model for an answer.
    AskModel,
    /// Send the message.
    Send(Outgoing),
    /// Record the model's answer in the history, then send it.
    RecordAndSend,
    /// Lift any pause on spontaneous messages, then, where `sticker`, maybe
    /// follow with a sticker.
    ClearPause { sticker: bool },
    /// Telegram refused the message: let the refusal pause spontaneous
    /// messages where it calls for it.
    NoteRefusal,
}

/// The stage and action that follow a stage and what came of its action.
/// A message without text is dropped; a command is answered and nothing
/// more; otherwise, after remembering the message, a spontaneous message
/// may go out instead of any answer; failing that the plan decides: ignore,
/// pounce on bait, sulk (falling back to a regular answer where the model
/// gives no sulky one) or answer. A sent answer or pounce lifts the pause and
/// may bring a sticker; a sent spontaneous or sulky message only lifts the
/// pause; a sent apology does nothing more; any refused send is noted.
pub open spec fn step_spec(stage: Stage, event: Event) -> (Stage, Action) {
    match (stage, event) {
        (Stage::Received, Event::Read { has_text, is_command }) => if !has_text {
            (Stage::Done, Action::Stop)
        } else if is_command {
            (Stage::Done, Action::AnswerCommand)
        } else {
            (Stage::Prepared, Action::Prepare)
        },
        (Stage::Prepared, Event::Rolled { kind, roll }) => if kind != ChatKind::Private && roll
            < ACTIVE_MESSAGE_CHANCE {
            (Stage::Proactive, Action::WriteProactive)
        } else {
            (Stage::Deciding, Action::Decide)
        },
        (Stage::Proactive, Event::Written { ok }) => if ok {
            (Stage::Sending(Outgoing::Proactive), Action::Send(Outgoing::Proactive))
        } else {
            (Stage::Deciding, Action::Decide)
        },
        (Stage::Deciding, Event::Planned { plan }) => match plan {
            ResponsePlan::Ignore => (Stage::Done, Action::Stop),
            ResponsePlan::CatBait => (Stage::Sending(Outgoing::CatBait), Action::Send(Outgoing::CatBait)),
            ResponsePlan::Annoyed => (Stage::Sulking, Action::AskSulky),
            ResponsePlan::Converse => (Stage::Conversing, Action::AskModel),
        },
        (Stage::Sulking, Event::Answered { ok }) => if ok {
            (Stage::Sending(Outgoing::Annoyed), Action::Send(Outgoing::Annoyed))
        } else {
            (Stage::Conversing, Action::AskModel)
        },
        (Stage::Conversing, Event::Answered { ok }) => if ok {
            (Stage::Sending(Outgoing::Reply), Action::RecordAndSend)
        } else {
            (Stage::Sending(Outgoing::ErrorReply), Action::Send(Outgoing::ErrorReply))
        },
        (Stage::Sending(o), Event::Sent { ok }) => if !ok {
            (Stage::Done, Action::NoteRefusal)
        } else {
            match o {
                Outgoing::CatBait | Outgoing::Reply => (Stage::Done, Action::ClearPause { sticker: true }),
                Outgoing::Proactive | Outgoing::Annoyed => (Stage::Done, Action::ClearPause { sticker: false }),
                Outgoing::ErrorReply => (Stage::Done, Action::Stop),
            }
        },
        _ => (Stage::Done, Action::Stop),
    }
}

/// The next stage and action of handling a message.
pub fn next_step(stage: Stage, event: Event) -> (r: (Stage, Action))
    ensures
        r == step_spec(stage, event),
{
    match (stage, event) {
        (Stage::Received, Event::Read { has_text, is_command }) => {
            if !has_text {
                (Stage::Done, Action::Stop)
            } else if is_command {
                (Stage::Done, Action::AnswerCommand)
            } else {
                (Stage::Prepared, Action::Prepare)
            }
        },
        (Stage::Prepared, Event::Rolled { kind, roll }) => {
            if should_be_proactive(kind, roll) {
                (Stage::Proactive, Action::WriteProactive)
            } else {
                (Stage::Deciding, Action::Decide)
            }
        },
        (Stage::Proactive, Event::Written { ok }) => {
            if ok {
                (Stage::Sending(Outgoing::Proactive), Action::Send(Outgoing::Proactive))
            } else {
                (Stage::Deciding, Action::Decide)
            }
        },
        (Stage::Deciding, Event::Planned { plan }) => match plan {
            ResponsePlan::Ignore => (Stage::Done, Action::Stop),
            ResponsePlan::CatBait => (
                Stage::Sending(Outgoing::CatBait),
                Action::Send(Outgoing::CatBait),
            ),
            ResponsePlan::Annoyed => (Stage::Sulking, Action::AskSulky),
            ResponsePlan::Converse => (Stage::Conversing, Action::AskModel),
        },
        (Stage::Sulking, Event::Answered { ok }) => {
            if ok {
                (Stage::Sending(Outgoing::Annoyed), Action::Send(Outgoing::Annoyed))
            } else {
                (Stage::Conversing, Action::AskModel)
            }
        },
        (Stage::Conversing, Event::Answered { ok }) => {
            if ok {
                (Stage::Sending(Outgoing::Reply), Action::RecordAndSend)
            } else {
                (Stage::Sending(Outgoing::ErrorReply), Action::Send(Outgoing::ErrorReply))
            }
        },
        (Stage::Sending(o), Event::Sent { ok }) => {
            if !ok {
                (Stage::Done, Action::NoteRefusal)
            } else {
                match o {
                    Outgoing::CatBait | Outgoing::Reply => (
                        Stage::Done,
                        Action::ClearPause { sticker: true },
                    ),
                    Outgoing::Proactive | Outgoing::Annoyed => (
                        Stage::Done,
                        Action::ClearPause { sticker: false },
                    ),
                    Outgoing::ErrorReply => (Stage::Done, Action::Stop),
                }
            }
        },
        _ => (Stage::Done, Action::Stop),
    }
}

/// How far a stage is from the end: every step goes to a stage nearer it.
pub open spec fn stages_left(stage: Stage) -> nat {
    match stage {
        Stage::Received => 7,
        Stage::Prepared => 6,
        Stage::Proactive => 5,
        Stage::Deciding => 4,
        Stage::Sulking => 3,
        Stage::Conversing => 2,
        Stage::Sending(_) => 1,
        Stage::Done => 0,
    }
}

} // verus!
