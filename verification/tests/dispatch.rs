use digital_server::actions::BotAction;
use digital_server::chat::ChatState;
use digital_server::commands::Command;
use digital_server::dispatch::{route_message, Route};
use digital_server::settings::Stickers;
use digital_server::telegram::{Chat, ChatKind, Me, Message, User};

fn user(id: u64, first: &str) -> User {
    User { id, is_bot: false, first_name: first.to_string(), last_name: None, username: None }
}

fn me() -> Me {
    Me { user: User { id: 99, is_bot: true, first_name: "Shelly".to_string(), last_name: None, username: None } }
}

fn message(kind: ChatKind) -> Message {
    Message {
        id: 7,
        chat: Chat { id: -100, kind, title: None },
        from: Some(user(1, "Ann")),
        text: Some("hello".to_string()),
        new_chat_members: None,
        left_chat_member: None,
        new_chat_title: None,
        group_chat_created: false,
    }
}

fn stickers() -> Stickers {
    let s = |x: &str| x.to_string();
    Stickers {
        kiss: s("kiss"),
        hello: s("hello"),
        hug: s("hug"),
        coming_soon: s("soon"),
        sad: s("sad"),
        party_animals: vec![s("p1")],
        sleep: s("sleep"),
        lame: s("lame"),
        angry: s("angry"),
        devil: s("devil"),
        flower: s("flower"),
        love: s("love"),
        laugh: s("laugh"),
        whatever: s("whatever"),
    }
}

fn state_after(plan: &[BotAction], before: ChatState) -> ChatState {
    let mut state = before;
    for a in plan {
        if let BotAction::SetChatState(s) = a {
            state = *s;
        }
    }
    state
}

#[test]
fn commands_come_first() {
    let mut m = message(ChatKind::Group);
    m.new_chat_title = Some("x".to_string());
    assert_eq!(route_message(&m, &me(), Some(Command::Help), ChatState::ShutUp), Route::Command(Command::Help));
}

#[test]
fn membership_changes() {
    let mut m = message(ChatKind::Group);
    m.group_chat_created = true;
    assert_eq!(route_message(&m, &me(), None, ChatState::Talk), Route::BotJoined);
    let mut m = message(ChatKind::Group);
    m.new_chat_members = Some(vec![me().user]);
    assert_eq!(route_message(&m, &me(), None, ChatState::Talk), Route::BotJoined);
    m.new_chat_members = Some(vec![user(5, "Eve")]);
    assert_eq!(route_message(&m, &me(), None, ChatState::Talk), Route::MembersJoined);
    let mut m = message(ChatKind::Group);
    m.left_chat_member = Some(me().user);
    assert_eq!(route_message(&m, &me(), None, ChatState::Talk), Route::BotLeft);
    m.left_chat_member = Some(user(5, "Eve"));
    assert_eq!(route_message(&m, &me(), None, ChatState::Talk), Route::MemberLeft);
    let mut m = message(ChatKind::Group);
    m.new_chat_title = Some("New".to_string());
    assert_eq!(route_message(&m, &me(), None, ChatState::Talk), Route::TitleChanged);
}

#[test]
fn private_chats_always_answered() {
    for state in [ChatState::ShutUp, ChatState::Talk] {
        assert_eq!(route_message(&message(ChatKind::Private), &me(), None, state), Route::Conversation);
        assert_eq!(route_message(&message(ChatKind::Channel), &me(), None, state), Route::Conversation);
    }
}

#[test]
fn groups_follow_the_chat_state() {
    assert_eq!(route_message(&message(ChatKind::Group), &me(), None, ChatState::Talk), Route::Conversation);
    assert_eq!(route_message(&message(ChatKind::Supergroup), &me(), None, ChatState::ShutUp), Route::Ignored);
}

#[test]
fn chat_command_starts_and_shut_up_stops_talking() {
    let group = message(ChatKind::Group);
    let plan = Command::Chat.answer(&group, &stickers(), "help", 0).unwrap();
    let state = state_after(&plan, ChatState::ShutUp);
    assert_eq!(state, ChatState::Talk);
    assert_eq!(route_message(&group, &me(), None, state), Route::Conversation);
    let plan = Command::ShutUp.answer(&group, &stickers(), "help", 0).unwrap();
    let state = state_after(&plan, state);
    assert_eq!(state, ChatState::ShutUp);
    assert_eq!(route_message(&group, &me(), None, state), Route::Ignored);
}

#[test]
fn empty_member_lists_are_only_read_for_member_joins() {
    let mut m = message(ChatKind::Group);
    m.new_chat_members = Some(vec![]);
    assert_eq!(route_message(&m, &me(), Some(Command::Chat), ChatState::ShutUp), Route::Command(Command::Chat));
    m.group_chat_created = true;
    assert_eq!(route_message(&m, &me(), None, ChatState::ShutUp), Route::BotJoined);
}
