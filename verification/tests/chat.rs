use digital_server::actions::BotAction;
use digital_server::chat::{
    answer_text, logged_role, past_messages, ChatAction, ChatEvent, ChatLogEntry, ChatLogRow,
    ChatMessage, ChatSession, ChatStep, ChatTurn, ReplyError, Role,
};
use digital_server::settings::ChatSettings;
use digital_server::telegram::{Chat, ChatKind, Me, Message, User};

fn me() -> Me {
    Me { user: User { id: 99, is_bot: true, first_name: "Shelly".to_string(), last_name: Some("T".to_string()), username: None } }
}

fn message(from: Option<User>, text: Option<&str>) -> Message {
    Message {
        id: 11,
        chat: Chat { id: -3, kind: ChatKind::Group, title: None },
        from,
        text: text.map(|t| t.to_string()),
        new_chat_members: None,
        left_chat_member: None,
        new_chat_title: None,
        group_chat_created: false,
    }
}

fn ann() -> User {
    User { id: 1, is_bot: false, first_name: "Ann".to_string(), last_name: None, username: Some("ann".to_string()) }
}

fn settings() -> ChatSettings {
    ChatSettings { model: "gpt-4o-mini".to_string(), past_log_count: 10 }
}

fn msg(role: Role, content: &str, name: Option<&str>) -> ChatMessage {
    ChatMessage { role, content: content.to_string(), name: name.map(|n| n.to_string()) }
}

fn row(name: Option<&str>, role: &str, content: &str) -> ChatLogRow {
    ChatLogRow { name: name.map(|n| n.to_string()), role: role.to_string(), content: content.to_string() }
}

#[test]
fn role_names() {
    assert_eq!(Role::User.as_str(), "user");
    assert_eq!(Role::Assistant.as_str(), "assistant");
    assert_eq!(Role::System.as_str(), "system");
    assert_eq!(logged_role(" User "), Some(Role::User));
    assert_eq!(logged_role("ASSISTANT"), Some(Role::Assistant));
    assert_eq!(logged_role("system"), None);
    assert_eq!(logged_role("tool"), None);
}

#[test]
fn history_is_oldest_first_and_skips_unknown_roles() {
    let rows = vec![
        row(None, "assistant", "third"),
        row(Some("bo"), "bogus", "dropped"),
        row(None, "user", "second"),
        row(Some("ann"), "User", "first"),
    ];
    assert_eq!(
        past_messages(&rows),
        vec![
            msg(Role::User, "first", Some("ann")),
            msg(Role::User, "second", Some("")),
            msg(Role::Assistant, "third", None),
        ]
    );
    assert!(past_messages(&Vec::new()).is_empty());
}

#[test]
fn log_reads_back_what_was_written() {
    let entries = vec![
        ChatLogEntry { chat_id: 1, role: Role::User, content: "hi".to_string(), name: Some("ann".to_string()) },
        ChatLogEntry { chat_id: 1, role: Role::Assistant, content: "hello".to_string(), name: None },
        ChatLogEntry { chat_id: 1, role: Role::User, content: "bye".to_string(), name: None },
    ];
    let rows: Vec<ChatLogRow> = entries
        .iter()
        .rev()
        .map(|e| ChatLogRow { name: e.name.clone(), role: e.role.as_str().to_string(), content: e.content.clone() })
        .collect();
    assert_eq!(
        past_messages(&rows),
        vec![msg(Role::User, "hi", Some("ann")), msg(Role::Assistant, "hello", None), msg(Role::User, "bye", Some(""))]
    );
}

#[test]
fn answer_from_choices() {
    assert_eq!(answer_text(&vec![Some("a".to_string()), Some("b".to_string())]), Ok("a".to_string()));
    assert_eq!(answer_text(&vec![]), Err(ReplyError::NoChoice));
    assert_eq!(answer_text(&vec![None, Some("b".to_string())]), Err(ReplyError::EmptyChoice));
    assert_eq!(ReplyError::NoChoice.message(), "there is no chat completion choice");
    assert_eq!(ReplyError::EmptyChoice.message(), "chat completion choice is empty");
}

#[test]
fn who_gets_an_answer() {
    assert!(ChatTurn::begin(&message(None, Some("hi")), &me(), &settings()).is_none());
    let mut robot = ann();
    robot.is_bot = true;
    assert!(ChatTurn::begin(&message(Some(robot), Some("hi")), &me(), &settings()).is_none());
    assert!(ChatTurn::begin(&message(Some(ann()), None), &me(), &settings()).is_none());
    let t = ChatTurn::begin(&message(Some(ann()), Some("hi")), &me(), &settings()).unwrap();
    assert_eq!(
        t,
        ChatTurn {
            chat_id: -3,
            message_id: 11,
            question: "hi".to_string(),
            asker: Some("ann".to_string()),
            bot_name: "Shelly".to_string(),
            history_limit: 10,
            model: "gpt-4o-mini".to_string(),
        }
    );
}

#[test]
fn prompt_introduces_the_bot_then_history_then_question() {
    let t = ChatTurn::begin(&message(Some(ann()), Some("how are you?")), &me(), &settings()).unwrap();
    let history = vec![msg(Role::User, "hi", Some("ann")), msg(Role::Assistant, "hello", None)];
    assert_eq!(
        t.prompt(&history),
        vec![
            msg(Role::System, "You are a cute and bubbly turtle and your name is Shelly.", None),
            msg(Role::User, "hi", Some("ann")),
            msg(Role::Assistant, "hello", None),
            msg(Role::User, "how are you?", Some("ann")),
        ]
    );
}

#[test]
fn answered_turn() {
    let t = ChatTurn::begin(&message(Some(ann()), Some("hi")), &me(), &settings()).unwrap();
    let (mut s, first) = ChatSession::start(t.clone());
    assert_eq!(first, ChatAction::OpenTransaction);
    assert_eq!(s.advance(ChatEvent::TransactionOpened), ChatAction::LoadHistory { chat_id: -3, limit: 10 });
    let history = vec![msg(Role::Assistant, "earlier", None)];
    assert_eq!(
        s.advance(ChatEvent::HistoryLoaded(history.clone())),
        ChatAction::SaveLog(ChatLogEntry { chat_id: -3, role: Role::User, content: "hi".to_string(), name: Some("ann".to_string()) })
    );
    assert_eq!(s.advance(ChatEvent::Stored), ChatAction::Ask { model: "gpt-4o-mini".to_string(), messages: t.prompt(&history) });
    assert_eq!(
        s.advance(ChatEvent::Answered(vec![Some("*hello*".to_string())])),
        ChatAction::SaveLog(ChatLogEntry { chat_id: -3, role: Role::Assistant, content: "*hello*".to_string(), name: None })
    );
    assert_eq!(s.advance(ChatEvent::Stored), ChatAction::Commit);
    assert_eq!(
        s.advance(ChatEvent::Committed),
        ChatAction::Send(BotAction::SendText { chat_id: -3, text: "*hello*".to_string(), reply_to: Some(11), markdown: true, detached: false })
    );
    assert_eq!(s.advance(ChatEvent::Sent), ChatAction::Finish { answered: true });
    assert_eq!(s.step, ChatStep::Finished);
}

#[test]
fn unrecorded_chat_is_recorded_and_user_asked_to_retry() {
    let t = ChatTurn::begin(&message(Some(ann()), Some("hi")), &me(), &settings()).unwrap();
    let (mut s, _) = ChatSession::start(t);
    s.advance(ChatEvent::TransactionOpened);
    s.advance(ChatEvent::HistoryLoaded(vec![]));
    assert_eq!(s.advance(ChatEvent::Refused { code: Some("23503".to_string()) }), ChatAction::SaveChatroom);
    assert_eq!(
        s.advance(ChatEvent::Stored),
        ChatAction::Send(BotAction::SendText {
            chat_id: -3,
            text: "please try again. this message is not processed".to_string(),
            reply_to: Some(11),
            markdown: false,
            detached: false,
        })
    );
    assert_eq!(s.advance(ChatEvent::Sent), ChatAction::Finish { answered: false });
}

#[test]
fn other_refusals_and_failures_end_the_turn() {
    let t = ChatTurn::begin(&message(Some(ann()), Some("hi")), &me(), &settings()).unwrap();
    let (mut s, _) = ChatSession::start(t.clone());
    s.advance(ChatEvent::TransactionOpened);
    s.advance(ChatEvent::HistoryLoaded(vec![]));
    assert_eq!(s.advance(ChatEvent::Refused { code: Some("23505".to_string()) }), ChatAction::Finish { answered: false });
    assert_eq!(s.advance(ChatEvent::Stored), ChatAction::Finish { answered: false });

    let (mut s, _) = ChatSession::start(t.clone());
    assert_eq!(s.advance(ChatEvent::Failed), ChatAction::Finish { answered: false });
    assert_eq!(s.step, ChatStep::Finished);

    let (mut s, _) = ChatSession::start(t);
    s.advance(ChatEvent::TransactionOpened);
    s.advance(ChatEvent::HistoryLoaded(vec![]));
    s.advance(ChatEvent::Stored);
    assert_eq!(s.advance(ChatEvent::Answered(vec![])), ChatAction::Finish { answered: false });
}
