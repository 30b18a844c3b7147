use digital_server::telegram::{
    group_title_change, i_got_added, i_got_removed, is_group_chat, is_not_group_chat, Chat,
    ChatKind, Me, Message, User,
};

fn user(id: u64, first: &str, last: Option<&str>, username: Option<&str>, bot: bool) -> User {
    User {
        id,
        is_bot: bot,
        first_name: first.to_string(),
        last_name: last.map(|s| s.to_string()),
        username: username.map(|s| s.to_string()),
    }
}

fn message(kind: ChatKind) -> Message {
    Message {
        id: 7,
        chat: Chat { id: -100, kind, title: Some("Turtles".to_string()) },
        from: Some(user(1, "Ann", None, None, false)),
        text: Some("hi".to_string()),
        new_chat_members: None,
        left_chat_member: None,
        new_chat_title: None,
        group_chat_created: false,
    }
}

#[test]
fn full_names() {
    assert_eq!(user(1, "Ann", Some("Lee"), None, false).full_name(), "Ann Lee");
    assert_eq!(user(1, "Ann", None, None, false).full_name(), "Ann");
}

#[test]
fn group_chats() {
    assert!(is_group_chat(&message(ChatKind::Group)));
    assert!(is_group_chat(&message(ChatKind::Supergroup)));
    assert!(!is_group_chat(&message(ChatKind::Private)));
    assert!(!is_group_chat(&message(ChatKind::Channel)));
    assert!(is_not_group_chat(&message(ChatKind::Private)));
    assert!(!is_not_group_chat(&message(ChatKind::Group)));
}

#[test]
fn bot_added_or_removed() {
    let me = Me { user: user(99, "Shelly", None, Some("shelly_bot"), true) };
    let mut m = message(ChatKind::Group);
    assert!(!i_got_added(&m, &me));
    m.new_chat_members = Some(vec![user(99, "Shelly", None, None, true), user(2, "Bo", None, None, false)]);
    assert!(i_got_added(&m, &me));
    m.new_chat_members = Some(vec![user(2, "Bo", None, None, false), user(99, "Shelly", None, None, true)]);
    assert!(!i_got_added(&m, &me));
    assert!(!i_got_removed(&m, &me));
    m.left_chat_member = Some(user(99, "Shelly", None, None, true));
    assert!(i_got_removed(&m, &me));
    m.left_chat_member = Some(user(3, "Cy", None, None, false));
    assert!(!i_got_removed(&m, &me));
}

#[test]
fn title_changes() {
    let mut m = message(ChatKind::Group);
    assert!(!group_title_change(&m));
    m.new_chat_title = Some("New".to_string());
    assert!(group_title_change(&m));
}
