use digital_server::actions::BotAction;
use digital_server::chat::ChatState;
use digital_server::commands::{Command, DateTimeUnavailable};
use digital_server::settings::Stickers;
use digital_server::telegram::{Chat, ChatKind, Message, User};

fn message(kind: ChatKind) -> Message {
    Message {
        id: 7,
        chat: Chat { id: -100, kind, title: None },
        from: Some(User { id: 1, is_bot: false, first_name: "Ann".to_string(), last_name: None, username: None }),
        text: Some("/chat".to_string()),
        new_chat_members: None,
        left_chat_member: None,
        new_chat_title: None,
        group_chat_created: false,
    }
}

fn stickers() -> Stickers {
    let s = |x: &str| x.to_string();
    Stickers {
        kiss: s("kiss"),
        hello: s("hello-id"),
        hug: s("hug"),
        coming_soon: s("soon"),
        sad: s("sad-id"),
        party_animals: vec![],
        sleep: s("sleep"),
        lame: s("lame"),
        angry: s("angry"),
        devil: s("devil"),
        flower: s("flower"),
        love: s("love"),
        laugh: s("laugh"),
        whatever: s("whatever-id"),
    }
}

fn say(text: &str) -> BotAction {
    BotAction::SendText { chat_id: -100, text: text.to_string(), reply_to: None, markdown: false, detached: false }
}

#[test]
fn start_records_the_chat() {
    let plan = Command::Start.answer(&message(ChatKind::Group), &stickers(), "", 0).unwrap();
    assert_eq!(plan, vec![BotAction::SaveChatroom, say("wtf im not ready yet")]);
}

#[test]
fn help_sends_the_command_list() {
    let plan = Command::Help.answer(&message(ChatKind::Private), &stickers(), "These commands are supported:", 0).unwrap();
    assert_eq!(plan, vec![say("These commands are supported:")]);
}

#[test]
fn datetime_in_utc_plus_8() {
    let plan = Command::DateTime.answer(&message(ChatKind::Group), &stickers(), "", 0).unwrap();
    assert_eq!(plan, vec![say("Thu, 01 Jan 1970 08:00:00 +0800")]);
    let plan = Command::DateTime.answer(&message(ChatKind::Group), &stickers(), "", 1_700_000_000).unwrap();
    assert_eq!(plan, vec![say("Wed, 15 Nov 2023 06:13:20 +0800")]);
}

#[test]
fn datetime_out_of_range() {
    assert_eq!(
        Command::DateTime.answer(&message(ChatKind::Group), &stickers(), "", i64::MIN),
        Err(DateTimeUnavailable)
    );
    // Before 1900 the date cannot be written in RFC 2822.
    assert_eq!(
        Command::DateTime.answer(&message(ChatKind::Group), &stickers(), "", -3_000_000_000),
        Err(DateTimeUnavailable)
    );
}

#[test]
fn chat_and_shut_up_in_groups() {
    let plan = Command::Chat.answer(&message(ChatKind::Group), &stickers(), "", 0).unwrap();
    assert_eq!(
        plan,
        vec![
            BotAction::SetChatState(ChatState::Talk),
            BotAction::SendSticker { chat_id: -100, sticker: "hello-id".to_string() },
            say("Hello! What do you wanna chat about?? 😊"),
        ]
    );
    let plan = Command::ShutUp.answer(&message(ChatKind::Supergroup), &stickers(), "", 0).unwrap();
    assert_eq!(
        plan,
        vec![
            BotAction::SetChatState(ChatState::ShutUp),
            BotAction::SendSticker { chat_id: -100, sticker: "whatever-id".to_string() },
            say("Huh?! Whatever 🙄. Byebye I'm off."),
        ]
    );
}

#[test]
fn chat_and_shut_up_outside_groups() {
    for cmd in [Command::Chat, Command::ShutUp] {
        for kind in [ChatKind::Private, ChatKind::Channel] {
            let plan = cmd.answer(&message(kind), &stickers(), "", 0).unwrap();
            assert_eq!(plan, vec![say("This command is only available in group chats.")]);
        }
    }
}

#[test]
fn answer_now_reads_the_clock() {
    let m = message(ChatKind::Group);
    assert_eq!(
        Command::Help.answer_now(&m, &stickers(), "help text"),
        Ok(vec![say("help text")])
    );
    let plan = Command::DateTime.answer_now(&m, &stickers(), "").unwrap();
    assert_eq!(plan.len(), 1);
    match &plan[0] {
        BotAction::SendText { chat_id, text, reply_to, markdown, detached } => {
            assert_eq!(*chat_id, -100);
            assert!(text.ends_with(" +0800"));
            assert_eq!(*reply_to, None);
            assert!(!markdown && !detached);
        }
        other => panic!("unexpected action {other:?}"),
    }
}
