use digital_server::actions::BotAction;
use digital_server::members::{me_join, me_leave, member_join, member_leave};
use digital_server::settings::Stickers;
use digital_server::telegram::{Chat, ChatKind, Me, Message, User};

fn user(id: u64, first: &str, last: Option<&str>, username: Option<&str>, bot: bool) -> User {
    User {
        id,
        is_bot: bot,
        first_name: first.to_string(),
        last_name: last.map(|s| s.to_string()),
        username: username.map(|s| s.to_string()),
    }
}

fn message() -> Message {
    Message {
        id: 42,
        chat: Chat { id: -5, kind: ChatKind::Group, title: Some("Pond".to_string()) },
        from: None,
        text: None,
        new_chat_members: None,
        left_chat_member: None,
        new_chat_title: None,
        group_chat_created: false,
    }
}

fn stickers() -> Stickers {
    let s = |x: &str| x.to_string();
    Stickers {
        kiss: s("kiss"),
        hello: s("hello-id"),
        hug: s("hug"),
        coming_soon: s("soon"),
        sad: s("sad-id"),
        party_animals: vec![],
        sleep: s("sleep"),
        lame: s("lame"),
        angry: s("angry"),
        devil: s("devil"),
        flower: s("flower"),
        love: s("love"),
        laugh: s("laugh"),
        whatever: s("whatever-id"),
    }
}

fn greeting(text: &str) -> BotAction {
    BotAction::SendText { chat_id: -5, text: text.to_string(), reply_to: Some(42), markdown: false, detached: true }
}

#[test]
fn bot_introduces_itself() {
    let me = Me { user: user(99, "Shelly", Some("Turtle"), Some("shelly_bot"), true) };
    assert_eq!(
        me_join(&message(), &me, &stickers()),
        vec![
            BotAction::SaveChatroom,
            BotAction::SendSticker { chat_id: -5, sticker: "hello-id".to_string() },
            BotAction::SendText {
                chat_id: -5,
                text: "Hello everyone!! I am Shelly Turtle!".to_string(),
                reply_to: None,
                markdown: false,
                detached: false,
            },
        ]
    );
}

#[test]
fn bot_leaving_forgets_the_chat() {
    assert_eq!(me_leave(&message()), vec![BotAction::DeleteChatroom { chat_id: -5 }]);
}

#[test]
fn new_members_are_greeted_but_bots_are_not() {
    let mut m = message();
    m.new_chat_members = Some(vec![
        user(1, "Ann", None, Some("ann"), false),
        user(2, "Robo", None, Some("robo"), true),
        user(3, "Bo", Some("Li"), None, false),
    ]);
    assert_eq!(
        member_join(&m, &stickers()),
        vec![
            greeting("Hello @ann!"),
            greeting("Hello Bo!"),
            BotAction::SendSticker { chat_id: -5, sticker: "hello-id".to_string() },
        ]
    );
}

#[test]
fn only_bots_joining_gets_no_answer() {
    let mut m = message();
    m.new_chat_members = Some(vec![user(2, "Robo", None, None, true)]);
    assert!(member_join(&m, &stickers()).is_empty());
    assert!(member_join(&message(), &stickers()).is_empty());
}

#[test]
fn farewell_to_a_leaving_member() {
    let mut m = message();
    m.left_chat_member = Some(user(3, "Bo", Some("Li"), None, false));
    assert_eq!(
        member_leave(&m, &stickers()),
        vec![
            BotAction::SendSticker { chat_id: -5, sticker: "sad-id".to_string() },
            BotAction::SendText {
                chat_id: -5,
                text: "Sayanora Bo Li ~~ 😭😭😭".to_string(),
                reply_to: Some(42),
                markdown: false,
                detached: false,
            },
        ]
    );
    assert!(member_leave(&message(), &stickers()).is_empty());
}
