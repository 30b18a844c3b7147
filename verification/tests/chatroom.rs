use digital_server::chatroom::{chatroom_of, chatroom_saved, is_refused_with, Chatroom, WriteOutcome};
use digital_server::telegram::{Chat, ChatKind, Message};

fn message(kind: ChatKind, title: Option<&str>) -> Message {
    Message {
        id: 1,
        chat: Chat { id: 77, kind, title: title.map(|t| t.to_string()) },
        from: None,
        text: None,
        new_chat_members: None,
        left_chat_member: None,
        new_chat_title: None,
        group_chat_created: false,
    }
}

#[test]
fn chatroom_records() {
    assert_eq!(
        chatroom_of(&message(ChatKind::Supergroup, Some("Pond"))),
        Chatroom { id: 77, title: Some("Pond".to_string()), is_group: true }
    );
    assert_eq!(chatroom_of(&message(ChatKind::Private, None)), Chatroom { id: 77, title: None, is_group: false });
}

#[test]
fn duplicate_chatroom_counts_as_saved() {
    assert!(chatroom_saved(&WriteOutcome::Written));
    assert!(chatroom_saved(&WriteOutcome::Refused { code: Some("23505".to_string()) }));
    assert!(!chatroom_saved(&WriteOutcome::Refused { code: Some("23503".to_string()) }));
    assert!(!chatroom_saved(&WriteOutcome::Refused { code: None }));
}

#[test]
fn refusal_codes() {
    assert!(is_refused_with(&WriteOutcome::Refused { code: Some("23503".to_string()) }, "23503"));
    assert!(!is_refused_with(&WriteOutcome::Written, "23503"));
}
