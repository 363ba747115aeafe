use momo_bot::flow::{next_step, Action, Event, Outgoing, Stage};
use momo_bot::handler::ResponsePlan;
use momo_bot::types::ChatKind;

#[test]
fn messages_without_text_and_commands() {
    assert_eq!(next_step(Stage::Received, Event::Read { has_text: false, is_command: false }), (Stage::Done, Action::Stop));
    assert_eq!(next_step(Stage::Received, Event::Read { has_text: true, is_command: true }), (Stage::Done, Action::AnswerCommand));
    assert_eq!(next_step(Stage::Received, Event::Read { has_text: true, is_command: false }), (Stage::Prepared, Action::Prepare));
}

#[test]
fn spontaneous_message_goes_first_in_groups_only() {
    assert_eq!(next_step(Stage::Prepared, Event::Rolled { kind: ChatKind::Group, roll: 24_999 }), (Stage::Proactive, Action::WriteProactive));
    assert_eq!(next_step(Stage::Prepared, Event::Rolled { kind: ChatKind::Group, roll: 25_000 }), (Stage::Deciding, Action::Decide));
    assert_eq!(next_step(Stage::Prepared, Event::Rolled { kind: ChatKind::Private, roll: 0 }), (Stage::Deciding, Action::Decide));
    assert_eq!(next_step(Stage::Proactive, Event::Written { ok: true }), (Stage::Sending(Outgoing::Proactive), Action::Send(Outgoing::Proactive)));
    assert_eq!(next_step(Stage::Proactive, Event::Written { ok: false }), (Stage::Deciding, Action::Decide));
}

#[test]
fn plans_lead_to_their_actions() {
    let p = |plan| next_step(Stage::Deciding, Event::Planned { plan });
    assert_eq!(p(ResponsePlan::Ignore), (Stage::Done, Action::Stop));
    assert_eq!(p(ResponsePlan::CatBait), (Stage::Sending(Outgoing::CatBait), Action::Send(Outgoing::CatBait)));
    assert_eq!(p(ResponsePlan::Annoyed), (Stage::Sulking, Action::AskSulky));
    assert_eq!(p(ResponsePlan::Converse), (Stage::Conversing, Action::AskModel));
    assert_eq!(next_step(Stage::Sulking, Event::Answered { ok: false }), (Stage::Conversing, Action::AskModel));
    assert_eq!(next_step(Stage::Sulking, Event::Answered { ok: true }), (Stage::Sending(Outgoing::Annoyed), Action::Send(Outgoing::Annoyed)));
    assert_eq!(next_step(Stage::Conversing, Event::Answered { ok: true }), (Stage::Sending(Outgoing::Reply), Action::RecordAndSend));
    assert_eq!(next_step(Stage::Conversing, Event::Answered { ok: false }), (Stage::Sending(Outgoing::ErrorReply), Action::Send(Outgoing::ErrorReply)));
}

#[test]
fn sends_are_followed_up() {
    for o in [Outgoing::Proactive, Outgoing::CatBait, Outgoing::Annoyed, Outgoing::Reply, Outgoing::ErrorReply] {
        assert_eq!(next_step(Stage::Sending(o), Event::Sent { ok: false }), (Stage::Done, Action::NoteRefusal));
    }
    assert_eq!(next_step(Stage::Sending(Outgoing::Reply), Event::Sent { ok: true }), (Stage::Done, Action::ClearPause { sticker: true }));
    assert_eq!(next_step(Stage::Sending(Outgoing::CatBait), Event::Sent { ok: true }), (Stage::Done, Action::ClearPause { sticker: true }));
    assert_eq!(next_step(Stage::Sending(Outgoing::Proactive), Event::Sent { ok: true }), (Stage::Done, Action::ClearPause { sticker: false }));
    assert_eq!(next_step(Stage::Sending(Outgoing::ErrorReply), Event::Sent { ok: true }), (Stage::Done, Action::Stop));
    assert_eq!(next_step(Stage::Done, Event::Sent { ok: true }), (Stage::Done, Action::Stop));
    assert_eq!(next_step(Stage::Deciding, Event::Sent { ok: true }), (Stage::Done, Action::Stop));
}

#[test]
fn a_full_conversation_ends() {
    let events = [
        Event::Read { has_text: true, is_command: false },
        Event::Rolled { kind: ChatKind::Group, roll: 900_000 },
        Event::Planned { plan: ResponsePlan::Annoyed },
        Event::Answered { ok: false },
        Event::Answered { ok: true },
        Event::Sent { ok: true },
    ];
    let mut stage = Stage::Received;
    let mut actions = Vec::new();
    for e in events {
        let (s, a) = next_step(stage, e);
        stage = s;
        actions.push(a);
    }
    assert_eq!(stage, Stage::Done);
    assert_eq!(
        actions,
        vec![Action::Prepare, Action::Decide, Action::AskSulky, Action::AskModel, Action::RecordAndSend, Action::ClearPause { sticker: true }]
    );
}
