//! Conversations between chat members and the chat model: the history kept
//! in the database, the prompt, and the steps of answering one message.

use vstd::prelude::*;

use crate::actions::{BotAction, BotActionView};
use crate::chatroom::{foreign_key_violation, is_refused_with, WriteOutcome};
use crate::settings::ChatSettings;
use crate::telegram::{Me, Message};
use crate::text::{
    all_ascii, ascii_blank, ascii_lowercase, lemma_key_ignores_case, lemma_key_ignores_padding,
    lemma_plain_key, normalized_key, to_lowercase, trim,
};

verus! {

/// Whether the bot answers ordinary messages in a group.
#[derive(PartialEq, Eq, Structural, Debug, Clone, Copy)]
pub enum ChatState {
    ShutUp,
    Talk,
}

/// Who a chat message comes from.
#[derive(PartialEq, Eq, Structural, Debug, Clone, Copy)]
pub enum Role {
    System,
    User,
    Assistant,
}

/// A message of a conversation with the chat model; `name` names the user
/// who wrote it.
#[derive(Debug, Clone, PartialEq, Eq)]
pub struct ChatMessage {
    pub role: Role,
    pub content: String,
    pub name: Option<String>,
}

/// A row of the chat log, as the database returns it.
#[derive(Debug, Clone, PartialEq, Eq)]
pub struct ChatLogRow {
    pub name: Option<String>,
    pub role: String,
    pub content: String,
}

/// A row to add to the chat log.
#[derive(Debug, Clone, PartialEq, Eq)]
pub struct ChatLogEntry {
    pub chat_id: i64,
    pub role: Role,
    pub content: String,
    pub name: Option<String>,
}

/// Why no answer could be taken from the chat model's reply.
#[derive(PartialEq, Eq, Structural, Debug, Clone, Copy)]
pub enum ReplyError {
    /// The reply offered no choice.
    NoChoice,
    /// The first choice had no content.
    EmptyChoice,
}

/// Declares `async_openai::error::OpenAIError`; its values are opaque.
#[verifier::external_type_specification]
#[verifier::external_body]
pub struct ExOpenAIError(async_openai::error::OpenAIError);

/// Errors of the chat handlers.
#[derive(Debug)]
pub enum ChatError {
    Sqlx(sqlx::Error),
    OpenAI(async_openai::error::OpenAIError),
    Unknown(String),
}

/// A chat message, as text.
pub struct ChatMessageView {
    pub role: Role,
    pub content: Seq<char>,
    pub name: Option<Seq<char>>,
}

/// A chat log row, as text.
pub struct ChatLogRowView {
    pub name: Option<Seq<char>>,
    pub role: Seq<char>,
    pub content: Seq<char>,
}

/// A chat log entry, as text.
pub struct ChatLogEntryView {
    pub chat_id: i64,
    pub role: Role,
    pub content: Seq<char>,
    pub name: Option<Seq<char>>,
}

/// The text of an optional string.
pub open spec fn opt_view(o: Option<String>) -> Option<Seq<char>> {
    match o {
        Some(s) => Some(s@),
        None => None,
    }
}

impl View for ChatMessage {
    type V = ChatMessageView;

    open spec fn view(&self) -> ChatMessageView {
        ChatMessageView { role: self.role, content: self.content@, name: opt_view(self.name) }
    }
}

impl View for ChatLogRow {
    type V = ChatLogRowView;

    open spec fn view(&self) -> ChatLogRowView {
        ChatLogRowView { name: opt_view(self.name), role: self.role@, content: self.content@ }
    }
}

impl View for ChatLogEntry {
    type V = ChatLogEntryView;

    open spec fn view(&self) -> ChatLogEntryView {
        ChatLogEntryView {
            chat_id: self.chat_id,
            role: self.role,
            content: self.content@,
            name: opt_view(self.name),
        }
    }
}

/// Messages, as text.
pub open spec fn messages_view(v: Seq<ChatMessage>) -> Seq<ChatMessageView> {
    v.map_values(|m: ChatMessage| m@)
}

/// Rows, as text.
pub open spec fn rows_view(v: Seq<ChatLogRow>) -> Seq<ChatLogRowView> {
    v.map_values(|r: ChatLogRow| r@)
}

/// How a role is written in the chat log.
pub open spec fn role_name_spec(role: Role) -> Seq<char> {
    match role {
        Role::System => "system"@,
        Role::User => "user"@,
        Role::Assistant => "assistant"@,
    }
}

/// The role a chat log row records, read without regard to case or
/// surrounding whitespace; only user and assistant rows are read back.
pub open spec fn logged_role_spec(name: Seq<char>) -> Option<Role> {
    let key = normalized_key(name);
    if key == "user"@ {
        Some(Role::User)
    } else if key == "assistant"@ {
        Some(Role::Assistant)
    } else {
        None
    }
}

/// The message a chat log row gives back: a user's message keeps the user's
/// name (empty when none was logged); rows of other roles give none.
pub open spec fn logged_message_spec(row: ChatLogRowView) -> Option<ChatMessageView> {
    match logged_role_spec(row.role) {
        Some(Role::User) => Some(
            ChatMessageView {
                role: Role::User,
                content: row.content,
                name: Some(
                    match row.name {
                        Some(n) => n,
                        None => Seq::empty(),
                    },
                ),
            },
        ),
        Some(_) => Some(ChatMessageView { role: Role::Assistant, content: row.content, name: None }),
        None => None,
    }
}

/// The conversation that chat log rows, newest first, give back: the
/// messages of the rows that give one, oldest first.
pub open spec fn history_spec(rows: Seq<ChatLogRowView>) -> Seq<ChatMessageView>
    decreases rows.len(),
{
    if rows.len() == 0 {
        Seq::empty()
    } else {
        let older = history_spec(rows.drop_first());
        match logged_message_spec(rows[0]) {
            Some(m) => older.push(m),
            None => older,
        }
    }
}

/// The answer in the chat model's reply, given the content of each of its
/// choices: the content of the first choice.
pub open spec fn answer_spec(choices: Seq<Option<Seq<char>>>) -> Result<Seq<char>, ReplyError> {
    if choices.len() == 0 {
        Err(ReplyError::NoChoice)
    } else {
        match choices[0] {
            Some(c) => Ok(c),
            None => Err(ReplyError::EmptyChoice),
        }
    }
}

impl Role {
    /// How this role is written in the chat log.
    pub fn as_str(&self) -> (r: &'static str)
        ensures
            r@ == role_name_spec(*self),
    {
        match self {
            Role::System => "system",
            Role::User => "user",
            Role::Assistant => "assistant",
        }
    }
}

impl ReplyError {
    /// What the error says.
    pub fn message(&self) -> (r: &'static str)
        ensures
            r@ == match self {
                ReplyError::NoChoice => "there is no chat completion choice"@,
                ReplyError::EmptyChoice => "chat completion choice is empty"@,
            },
    {
        match self {
            ReplyError::NoChoice => "there is no chat completion choice",
            ReplyError::EmptyChoice => "chat completion choice is empty",
        }
    }
}

fn clone_opt(o: &Option<String>) -> (r: Option<String>)
    ensures
        opt_view(r) == opt_view(*o),
{
    match o {
        Some(s) => Some(s.clone()),
        None => None,
    }
}

/// The role a chat log row records, if it is one that is read back.
pub fn logged_role(name: &str) -> (r: Option<Role>)
    ensures
        r == logged_role_spec(name@),
{
    let lower = to_lowercase(name);
    let key = trim(lower.as_str()).to_string();
    if key == "user".to_string() {
        Some(Role::User)
    } else if key == "assistant".to_string() {
        Some(Role::Assistant)
    } else {
        None
    }
}

/// The message a chat log row gives back, if any.
pub fn logged_message(row: &ChatLogRow) -> (r: Option<ChatMessage>)
    ensures
        match r {
            Some(m) => logged_message_spec(row@) == Some(m@),
            None => logged_message_spec(row@) is None,
        },
{
    match logged_role(row.role.as_str()) {
        Some(Role::User) => {
            let name = match &row.name {
                Some(n) => n.clone(),
                None => String::new(),
            };
            Some(ChatMessage { role: Role::User, content: row.content.clone(), name: Some(name) })
        },
        Some(_) => Some(ChatMessage { role: Role::Assistant, content: row.content.clone(), name: None }),
        None => None,
    }
}

/// The conversation that chat log rows, newest first, give back, oldest
/// first; rows of other roles than user and assistant are left out.
pub fn past_messages(rows: &Vec<ChatLogRow>) -> (r: Vec<ChatMessage>)
    ensures
        messages_view(r@) == history_spec(rows_view(rows@)),
{
    let ghost rv = rows_view(rows@);
    let mut r: Vec<ChatMessage> = Vec::new();
    let mut i: usize = rows.len();
    assert(rv.skip(i as int) =~= Seq::<ChatLogRowView>::empty());
    assert(messages_view(r@) =~= Seq::<ChatMessageView>::empty());
    while i > 0
        invariant
            i <= rows.len(),
            rv == rows_view(rows@),
            messages_view(r@) == history_spec(rv.skip(i as int)),
        decreases i,
    {
        i -= 1;
        assert(rv.skip(i as int).drop_first() =~= rv.skip(i + 1));
        assert(rv.skip(i as int)[0] == rows@[i as int]@);
        let ghost before = messages_view(r@);
        match logged_message(&rows[i]) {
            Some(m) => {
                r.push(m);
                assert(messages_view(r@) =~= before.push(m@));
            },
            None => {},
        }
    }
    assert(rv.skip(0) =~= rv);
    r
}

/// The answer in the chat model's reply, given the content of each of its
/// choices.
pub fn answer_text(choices: &Vec<Option<String>>) -> (r: Result<String, ReplyError>)
    ensures
        match r {
            Ok(a) => answer_spec(choices@.map_values(|c: Option<String>| opt_view(c))) == Ok::<
                Seq<char>,
                ReplyError,
            >(a@),
            Err(e) => answer_spec(choices@.map_values(|c: Option<String>| opt_view(c))) == Err::<
                Seq<char>,
                ReplyError,
            >(e),
        },
{
    if choices.len() == 0 {
        return Err(ReplyError::NoChoice);
    }
    match &choices[0] {
        Some(c) => Ok(c.clone()),
        None => Err(ReplyError::EmptyChoice),
    }
}

/// The row the chat log holds for an entry.
pub open spec fn stored_row(e: ChatLogEntryView) -> ChatLogRowView {
    ChatLogRowView { name: e.name, role: role_name_spec(e.role), content: e.content }
}

/// The message an entry of the chat log reads back as.
pub open spec fn read_back(e: ChatLogEntryView) -> ChatMessageView {
    if e.role == Role::User {
        ChatMessageView {
            role: Role::User,
            content: e.content,
            name: Some(
                match e.name {
                    Some(n) => n,
                    None => Seq::empty(),
                },
            ),
        }
    } else {
        ChatMessageView { role: Role::Assistant, content: e.content, name: None }
    }
}

proof fn lemma_logged_roles()
    ensures
        logged_role_spec("user"@) == Some(Role::User),
        logged_role_spec("assistant"@) == Some(Role::Assistant),
{
    reveal_strlit("user");
    reveal_strlit("assistant");
    lemma_plain_key("user"@);
    lemma_plain_key("assistant"@);
}

/// The chat log reads back what was written: for user and assistant
/// entries, oldest first, the rows written for them, read newest first,
/// give back each entry's message in the same order.
pub proof fn law_log_reads_back(entries: Seq<ChatLogEntryView>)
    requires
        forall|i: int| 0 <= i < entries.len() ==> entries[i].role != Role::System,
    ensures
        history_spec(entries.reverse().map_values(|e: ChatLogEntryView| stored_row(e)))
            == entries.map_values(|e: ChatLogEntryView| read_back(e)),
    decreases entries.len(),
{
    lemma_logged_roles();
    let rows = entries.reverse().map_values(|e: ChatLogEntryView| stored_row(e));
    if entries.len() > 0 {
        let prev = entries.drop_last();
        law_log_reads_back(prev);
        let prows = prev.reverse().map_values(|e: ChatLogEntryView| stored_row(e));
        assert(rows.drop_first() =~= prows);
        assert(rows[0] == stored_row(entries.last()));
        assert(entries.map_values(|e: ChatLogEntryView| read_back(e)) =~= prev.map_values(
            |e: ChatLogEntryView| read_back(e),
        ).push(read_back(entries.last())));
    } else {
        assert(rows =~= Seq::<ChatLogRowView>::empty());
        assert(entries.map_values(|e: ChatLogEntryView| read_back(e)) =~= Seq::<
            ChatMessageView,
        >::empty());
    }
}

/// Reading a logged role ignores the case of ASCII letters and ASCII
/// whitespace around the role's name.
pub proof fn law_logged_role_ignores_case_and_padding(
    p: Seq<char>,
    s1: Seq<char>,
    s2: Seq<char>,
    q: Seq<char>,
)
    requires
        all_ascii(s1),
        all_ascii(s2),
        ascii_lowercase(s1) == ascii_lowercase(s2),
        ascii_blank(p),
        ascii_blank(q),
    ensures
        logged_role_spec(p + s1 + q) == logged_role_spec(s2),
{
    lemma_key_ignores_padding(p, s1, q);
    lemma_key_ignores_case(s1, s2);
}

// --- Answering one message. ---

/// One message to answer: where it was sent, what it asks, who asked, what
/// the bot is called, how much history it reads, and which chat model
/// answers.
#[derive(Debug, Clone, PartialEq, Eq)]
pub struct ChatTurn {
    pub chat_id: i64,
    pub message_id: i32,
    pub question: String,
    pub asker: Option<String>,
    pub bot_name: String,
    pub history_limit: i64,
    pub model: String,
}

/// Where answering a message stands: what it waits for.
#[derive(PartialEq, Eq, Structural, Debug, Clone, Copy)]
pub enum ChatStep {
    AwaitTransaction,
    AwaitHistory,
    AwaitQuestionStored,
    AwaitChatroomStored,
    AwaitRetryNotice,
    AwaitAnswer,
    AwaitAnswerStored,
    AwaitCommit,
    AwaitReply,
    Finished,
}

/// What happened to the last action.
#[derive(Debug, Clone, PartialEq, Eq)]
pub enum ChatEvent {
    /// The database transaction is open.
    TransactionOpened,
    /// The recent history of the chat, oldest first.
    HistoryLoaded(Vec<ChatMessage>),
    /// A write succeeded.
    Stored,
    /// A write was refused, with the PostgreSQL error code when there is one.
    Refused { code: Option<String> },
    /// The chat model replied; the content of each of its choices.
    Answered(Vec<Option<String>>),
    /// The transaction is committed.
    Committed,
    /// The message was sent.
    Sent,
    /// The action failed.
    Failed,
}

/// What to do next.
#[derive(Debug, Clone, PartialEq, Eq)]
pub enum ChatAction {
    /// Open a database transaction for the chat log.
    OpenTransaction,
    /// Read the recent history of the chat, at most `limit` messages.
    LoadHistory { chat_id: i64, limit: i64 },
    /// Add a row to the chat log, inside the transaction.
    SaveLog(ChatLogEntry),
    /// Record the chat in the table of chatrooms.
    SaveChatroom,
    /// Ask the chat model `model` to continue the conversation.
    Ask { model: String, messages: Vec<ChatMessage> },
    /// Commit the transaction.
    Commit,
    /// Carry out a step of a plan.
    Send(BotAction),
    /// Stop: the message was answered, or handling it failed and the
    /// transaction is dropped.
    Finish { answered: bool },
}

/// An event, as text.
pub enum ChatEventView {
    TransactionOpened,
    HistoryLoaded(Seq<ChatMessageView>),
    Stored,
    Refused { code: Option<Seq<char>> },
    Answered(Seq<Option<Seq<char>>>),
    Committed,
    Sent,
    Failed,
}

/// An action, as text.
pub enum ChatActionView {
    OpenTransaction,
    LoadHistory { chat_id: i64, limit: i64 },
    SaveLog(ChatLogEntryView),
    SaveChatroom,
    Ask { model: Seq<char>, messages: Seq<ChatMessageView> },
    Commit,
    Send(BotActionView),
    Finish { answered: bool },
}

impl View for ChatEvent {
    type V = ChatEventView;

    open spec fn view(&self) -> ChatEventView {
        match self {
            ChatEvent::TransactionOpened => ChatEventView::TransactionOpened,
            ChatEvent::HistoryLoaded(h) => ChatEventView::HistoryLoaded(messages_view(h@)),
            ChatEvent::Stored => ChatEventView::Stored,
            ChatEvent::Refused { code } => ChatEventView::Refused { code: opt_view(*code) },
            ChatEvent::Answered(c) => ChatEventView::Answered(
                c@.map_values(|x: Option<String>| opt_view(x)),
            ),
            ChatEvent::Committed => ChatEventView::Committed,
            ChatEvent::Sent => ChatEventView::Sent,
            ChatEvent::Failed => ChatEventView::Failed,
        }
    }
}

impl View for ChatAction {
    type V = ChatActionView;

    open spec fn view(&self) -> ChatActionView {
        match self {
            ChatAction::OpenTransaction => ChatActionView::OpenTransaction,
            ChatAction::LoadHistory { chat_id, limit } => ChatActionView::LoadHistory {
                chat_id: *chat_id,
                limit: *limit,
            },
            ChatAction::SaveLog(e) => ChatActionView::SaveLog(e@),
            ChatAction::SaveChatroom => ChatActionView::SaveChatroom,
            ChatAction::Ask { model, messages } => ChatActionView::Ask {
                model: model@,
                messages: messages_view(messages@),
            },
            ChatAction::Commit => ChatActionView::Commit,
            ChatAction::Send(a) => ChatActionView::Send(a@),
            ChatAction::Finish { answered } => ChatActionView::Finish { answered: *answered },
        }
    }
}

/// Answering one message: the message, where it stands, the history read,
/// and the answer once there is one.
#[derive(Debug, Clone, PartialEq, Eq)]
pub struct ChatSession {
    pub turn: ChatTurn,
    pub step: ChatStep,
    pub history: Vec<ChatMessage>,
    pub answer: String,
}

/// A session, as text.
pub struct ChatSessionView {
    pub step: ChatStep,
    pub history: Seq<ChatMessageView>,
    pub answer: Seq<char>,
}

impl View for ChatSession {
    type V = ChatSessionView;

    open spec fn view(&self) -> ChatSessionView {
        ChatSessionView { step: self.step, history: messages_view(self.history@), answer: self.answer@ }
    }
}

/// A message starts a conversation turn when it has a text and a sender who
/// is not a bot.
pub open spec fn starts_turn(msg: &Message) -> bool {
    &&& msg.from matches Some(u) && !u.is_bot
    &&& msg.text is Some
}

/// How the bot is introduced to the chat model.
pub open spec fn system_prompt_spec(bot_name: Seq<char>) -> Seq<char> {
    "You are a cute and bubbly turtle and your name is "@ + bot_name + "."@
}

/// What the chat model is asked: the bot's introduction, the history, and
/// the question, in that order.
pub open spec fn prompt_spec(t: &ChatTurn, history: Seq<ChatMessageView>) -> Seq<ChatMessageView> {
    seq![ChatMessageView { role: Role::System, content: system_prompt_spec(t.bot_name@), name: None }]
        + history + seq![ChatMessageView { role: Role::User, content: t.question@, name: opt_view(t.asker) }]
}

/// The chat log row for the question.
pub open spec fn question_entry_spec(t: &ChatTurn) -> ChatLogEntryView {
    ChatLogEntryView { chat_id: t.chat_id, role: Role::User, content: t.question@, name: opt_view(t.asker) }
}

/// The chat log row for the answer.
pub open spec fn answer_entry_spec(t: &ChatTurn, answer: Seq<char>) -> ChatLogEntryView {
    ChatLogEntryView { chat_id: t.chat_id, role: Role::Assistant, content: answer, name: None }
}

/// What the asker is told when the chat was not yet recorded.
pub open spec fn retry_notice_spec(t: &ChatTurn) -> BotActionView {
    BotActionView::SendText {
        chat_id: t.chat_id,
        text: "please try again. this message is not processed"@,
        reply_to: Some(t.message_id),
        markdown: false,
        detached: false,
    }
}

/// The answer, sent as Markdown in reply to the question.
pub open spec fn answer_reply_spec(t: &ChatTurn, answer: Seq<char>) -> BotActionView {
    BotActionView::SendText {
        chat_id: t.chat_id,
        text: answer,
        reply_to: Some(t.message_id),
        markdown: true,
        detached: false,
    }
}

/// The session after one event, and what to do next. Every event other
/// than the awaited one ends the session as failed.
pub open spec fn chat_transition(t: &ChatTurn, s: ChatSessionView, e: ChatEventView) -> (
    ChatSessionView,
    ChatActionView,
) {
    let failed = (
        ChatSessionView { step: ChatStep::Finished, history: s.history, answer: s.answer },
        ChatActionView::Finish { answered: false },
    );
    match (s.step, e) {
        (ChatStep::AwaitTransaction, ChatEventView::TransactionOpened) => (
            ChatSessionView { step: ChatStep::AwaitHistory, history: s.history, answer: s.answer },
            ChatActionView::LoadHistory { chat_id: t.chat_id, limit: t.history_limit },
        ),
        (ChatStep::AwaitHistory, ChatEventView::HistoryLoaded(h)) => (
            ChatSessionView { step: ChatStep::AwaitQuestionStored, history: h, answer: s.answer },
            ChatActionView::SaveLog(question_entry_spec(t)),
        ),
        (ChatStep::AwaitQuestionStored, ChatEventView::Stored) => (
            ChatSessionView { step: ChatStep::AwaitAnswer, history: s.history, answer: s.answer },
            ChatActionView::Ask { model: t.model@, messages: prompt_spec(t, s.history) },
        ),
        (ChatStep::AwaitQuestionStored, ChatEventView::Refused { code }) => {
            if code == Some(foreign_key_violation()) {
                (
                    ChatSessionView {
                        step: ChatStep::AwaitChatroomStored,
                        history: s.history,
                        answer: s.answer,
                    },
                    ChatActionView::SaveChatroom,
                )
            } else {
                failed
            }
        },
        (ChatStep::AwaitChatroomStored, ChatEventView::Stored) => (
            ChatSessionView { step: ChatStep::AwaitRetryNotice, history: s.history, answer: s.answer },
            ChatActionView::Send(retry_notice_spec(t)),
        ),
        (ChatStep::AwaitAnswer, ChatEventView::Answered(choices)) => match answer_spec(choices) {
            Ok(a) => (
                ChatSessionView { step: ChatStep::AwaitAnswerStored, history: s.history, answer: a },
                ChatActionView::SaveLog(answer_entry_spec(t, a)),
            ),
            Err(_) => failed,
        },
        (ChatStep::AwaitAnswerStored, ChatEventView::Stored) => (
            ChatSessionView { step: ChatStep::AwaitCommit, history: s.history, answer: s.answer },
            ChatActionView::Commit,
        ),
        (ChatStep::AwaitCommit, ChatEventView::Committed) => (
            ChatSessionView { step: ChatStep::AwaitReply, history: s.history, answer: s.answer },
            ChatActionView::Send(answer_reply_spec(t, s.answer)),
        ),
        (ChatStep::AwaitReply, ChatEventView::Sent) => (
            ChatSessionView { step: ChatStep::Finished, history: s.history, answer: s.answer },
            ChatActionView::Finish { answered: true },
        ),
        _ => failed,
    }
}

impl ChatTurn {
    /// The turn `msg` starts, if it starts one: it needs a text and a sender
    /// who is not a bot.
    pub fn begin(msg: &Message, me: &Me, settings: &ChatSettings) -> (r: Option<ChatTurn>)
        ensures
            r is Some <==> starts_turn(msg),
            r matches Some(t) ==> {
                &&& t.chat_id == msg.chat.id
                &&& t.message_id == msg.id
                &&& t.question@ == msg.text.unwrap()@
                &&& opt_view(t.asker) == opt_view(msg.from.unwrap().username)
                &&& t.bot_name@ == me.user.first_name@
                &&& t.history_limit == settings.past_log_count
                &&& t.model@ == settings.model@
            },
    {
        let user = match &msg.from {
            Some(u) => {
                if u.is_bot {
                    return None;
                }
                u
            },
            None => return None,
        };
        let text = match &msg.text {
            Some(t) => t,
            None => return None,
        };
        Some(
            ChatTurn {
                chat_id: msg.chat.id,
                message_id: msg.id,
                question: text.clone(),
                asker: clone_opt(&user.username),
                bot_name: me.user.first_name.clone(),
                history_limit: settings.past_log_count,
                model: settings.model.clone(),
            },
        )
    }

    /// What the chat model is asked, given the history.
    pub fn prompt(&self, history: &Vec<ChatMessage>) -> (r: Vec<ChatMessage>)
        ensures
            messages_view(r@) == prompt_spec(self, messages_view(history@)),
    {
        let mut intro = "You are a cute and bubbly turtle and your name is ".to_string();
        intro.append(self.bot_name.as_str());
        intro.append(".");
        let mut r: Vec<ChatMessage> = Vec::new();
        r.push(ChatMessage { role: Role::System, content: intro, name: None });
        let mut i: usize = 0;
        while i < history.len()
            invariant
                i <= history.len(),
                r@.len() == i + 1,
                r@[0]@ == (ChatMessageView {
                    role: Role::System,
                    content: system_prompt_spec(self.bot_name@),
                    name: None,
                }),
                forall|k: int| 0 <= k < i ==> #[trigger] r@[k + 1]@ == history@[k]@,
            decreases history.len() - i,
        {
            let m = &history[i];
            r.push(ChatMessage { role: m.role, content: m.content.clone(), name: clone_opt(&m.name) });
            i += 1;
        }
        r.push(
            ChatMessage { role: Role::User, content: self.question.clone(), name: clone_opt(&self.asker) },
        );
        let ghost expected = prompt_spec(self, messages_view(history@));
        assert(expected.len() == r@.len());
        assert forall|k: int| 0 <= k < r@.len() implies messages_view(r@)[k] == expected[k] by {
            if 0 < k && k <= history@.len() {
                assert(r@[(k - 1) + 1]@ == history@[k - 1]@);
            }
        }
        assert(messages_view(r@) =~= expected);
        r
    }
}

impl ChatSession {
    /// Starts answering a message: the first action opens the transaction.
    pub fn start(turn: ChatTurn) -> (r: (ChatSession, ChatAction))
        ensures
            r.0.turn == turn,
            r.0@.step == ChatStep::AwaitTransaction,
            r.0@.history.len() == 0,
            r.0@.answer.len() == 0,
            r.1@ == ChatActionView::OpenTransaction,
    {
        (
            ChatSession { turn, step: ChatStep::AwaitTransaction, history: Vec::new(), answer: String::new() },
            ChatAction::OpenTransaction,
        )
    }

    fn finish_failed(&mut self) -> (a: ChatAction)
        ensures
            final(self).turn == old(self).turn,
            final(self)@ == (ChatSessionView {
                step: ChatStep::Finished,
                history: old(self)@.history,
                answer: old(self)@.answer,
            }),
            a@ == (ChatActionView::Finish { answered: false }),
    {
        self.step = ChatStep::Finished;
        ChatAction::Finish { answered: false }
    }

    /// Takes in what happened to the last action and says what to do next.
    pub fn advance(&mut self, event: ChatEvent) -> (a: ChatAction)
        ensures
            final(self).turn == old(self).turn,
            (final(self)@, a@) == chat_transition(&old(self).turn, old(self)@, event@),
    {
        match (self.step, event) {
            (ChatStep::AwaitTransaction, ChatEvent::TransactionOpened) => {
                self.step = ChatStep::AwaitHistory;
                ChatAction::LoadHistory { chat_id: self.turn.chat_id, limit: self.turn.history_limit }
            },
            (ChatStep::AwaitHistory, ChatEvent::HistoryLoaded(h)) => {
                self.step = ChatStep::AwaitQuestionStored;
                self.history = h;
                ChatAction::SaveLog(
                    ChatLogEntry {
                        chat_id: self.turn.chat_id,
                        role: Role::User,
                        content: self.turn.question.clone(),
                        name: clone_opt(&self.turn.asker),
                    },
                )
            },
            (ChatStep::AwaitQuestionStored, ChatEvent::Stored) => {
                self.step = ChatStep::AwaitAnswer;
                ChatAction::Ask { model: self.turn.model.clone(), messages: self.turn.prompt(&self.history) }
            },
            (ChatStep::AwaitQuestionStored, ChatEvent::Refused { code }) => {
                let outcome = WriteOutcome::Refused { code };
                if is_refused_with(&outcome, "23503") {
                    self.step = ChatStep::AwaitChatroomStored;
                    ChatAction::SaveChatroom
                } else {
                    self.finish_failed()
                }
            },
            (ChatStep::AwaitChatroomStored, ChatEvent::Stored) => {
                self.step = ChatStep::AwaitRetryNotice;
                ChatAction::Send(
                    BotAction::SendText {
                        chat_id: self.turn.chat_id,
                        text: "please try again. this message is not processed".to_string(),
                        reply_to: Some(self.turn.message_id),
                        markdown: false,
                        detached: false,
                    },
                )
            },
            (ChatStep::AwaitAnswer, ChatEvent::Answered(choices)) => {
                match answer_text(&choices) {
                    Ok(a) => {
                        self.step = ChatStep::AwaitAnswerStored;
                        self.answer = a.clone();
                        ChatAction::SaveLog(
                            ChatLogEntry { chat_id: self.turn.chat_id, role: Role::Assistant, content: a, name: None },
                        )
                    },
                    Err(_) => self.finish_failed(),
                }
            },
            (ChatStep::AwaitAnswerStored, ChatEvent::Stored) => {
                self.step = ChatStep::AwaitCommit;
                ChatAction::Commit
            },
            (ChatStep::AwaitCommit, ChatEvent::Committed) => {
                self.step = ChatStep::AwaitReply;
                ChatAction::Send(
                    BotAction::SendText {
                        chat_id: self.turn.chat_id,
                        text: self.answer.clone(),
                        reply_to: Some(self.turn.message_id),
                        markdown: true,
                        detached: false,
                    },
                )
            },
            (ChatStep::AwaitReply, ChatEvent::Sent) => {
                self.step = ChatStep::Finished;
                ChatAction::Finish { answered: true }
            },
            _ => self.finish_failed(),
        }
    }
}

/// The session after a series of events, and the actions it asked for.
pub open spec fn chat_run(t: &ChatTurn, s: ChatSessionView, events: Seq<ChatEventView>) -> (
    ChatSessionView,
    Seq<ChatActionView>,
)
    decreases events.len(),
{
    if events.len() == 0 {
        (s, Seq::empty())
    } else {
        let (s1, a) = chat_transition(t, s, events[0]);
        let (s2, rest) = chat_run(t, s1, events.drop_first());
        (s2, seq![a] + rest)
    }
}

/// When every step succeeds, answering a message opens a transaction,
/// reads the history, logs the question, asks the configured chat model with
/// the bot's introduction, the history and the question, logs the model's
/// answer, commits, and sends exactly that answer in reply to the question.
pub proof fn law_answered_turn(
    t: &ChatTurn,
    s: ChatSessionView,
    history: Seq<ChatMessageView>,
    choices: Seq<Option<Seq<char>>>,
    answer: Seq<char>,
)
    requires
        s.step == ChatStep::AwaitTransaction,
        answer_spec(choices) == Ok::<Seq<char>, ReplyError>(answer),
    ensures
        chat_run(
            t,
            s,
            seq![
                ChatEventView::TransactionOpened,
                ChatEventView::HistoryLoaded(history),
                ChatEventView::Stored,
                ChatEventView::Answered(choices),
                ChatEventView::Stored,
                ChatEventView::Committed,
                ChatEventView::Sent,
            ],
        ).1 == seq![
            ChatActionView::LoadHistory { chat_id: t.chat_id, limit: t.history_limit },
            ChatActionView::SaveLog(question_entry_spec(t)),
            ChatActionView::Ask { model: t.model@, messages: prompt_spec(t, history) },
            ChatActionView::SaveLog(answer_entry_spec(t, answer)),
            ChatActionView::Commit,
            ChatActionView::Send(answer_reply_spec(t, answer)),
            ChatActionView::Finish { answered: true },
        ],
{
    let e = seq![
        ChatEventView::TransactionOpened,
        ChatEventView::HistoryLoaded(history),
        ChatEventView::Stored,
        ChatEventView::Answered(choices),
        ChatEventView::Stored,
        ChatEventView::Committed,
        ChatEventView::Sent,
    ];
    reveal_with_fuel(chat_run, 8);
    assert(e.drop_first().drop_first().drop_first().drop_first().drop_first().drop_first().drop_first()
        =~= Seq::<ChatEventView>::empty());
    assert(e.drop_first()[0] == ChatEventView::HistoryLoaded(history));
    assert(e.drop_first().drop_first()[0] == ChatEventView::Stored);
    assert(e.drop_first().drop_first().drop_first()[0] == ChatEventView::Answered(choices));
    assert(e.drop_first().drop_first().drop_first().drop_first()[0] == ChatEventView::Stored);
    assert(e.drop_first().drop_first().drop_first().drop_first().drop_first()[0]
        == ChatEventView::Committed);
    assert(e.drop_first().drop_first().drop_first().drop_first().drop_first().drop_first()[0]
        == ChatEventView::Sent);
    assert(chat_run(t, s, e).1 =~= seq![
        ChatActionView::LoadHistory { chat_id: t.chat_id, limit: t.history_limit },
        ChatActionView::SaveLog(question_entry_spec(t)),
        ChatActionView::Ask { model: t.model@, messages: prompt_spec(t, history) },
        ChatActionView::SaveLog(answer_entry_spec(t, answer)),
        ChatActionView::Commit,
        ChatActionView::Send(answer_reply_spec(t, answer)),
        ChatActionView::Finish { answered: true },
    ]);
}

/// When the question cannot be logged because the chat is not yet recorded,
/// the bot records the chat, asks the user to try again, and gives up on the
/// message without asking the chat model.
pub proof fn law_unrecorded_chat(t: &ChatTurn, s: ChatSessionView, history: Seq<ChatMessageView>)
    requires
        s.step == ChatStep::AwaitTransaction,
    ensures
        chat_run(
            t,
            s,
            seq![
                ChatEventView::TransactionOpened,
                ChatEventView::HistoryLoaded(history),
                ChatEventView::Refused { code: Some(foreign_key_violation()) },
                ChatEventView::Stored,
                ChatEventView::Sent,
            ],
        ).1 == seq![
            ChatActionView::LoadHistory { chat_id: t.chat_id, limit: t.history_limit },
            ChatActionView::SaveLog(question_entry_spec(t)),
            ChatActionView::SaveChatroom,
            ChatActionView::Send(retry_notice_spec(t)),
            ChatActionView::Finish { answered: false },
        ],
{
    let e = seq![
        ChatEventView::TransactionOpened,
        ChatEventView::HistoryLoaded(history),
        ChatEventView::Refused { code: Some(foreign_key_violation()) },
        ChatEventView::Stored,
        ChatEventView::Sent,
    ];
    reveal_with_fuel(chat_run, 6);
    assert(e.drop_first().drop_first().drop_first().drop_first().drop_first()
        =~= Seq::<ChatEventView>::empty());
    assert(e.drop_first()[0] == ChatEventView::HistoryLoaded(history));
    assert(e.drop_first().drop_first()[0] == ChatEventView::Refused { code: Some(foreign_key_violation()) });
    assert(e.drop_first().drop_first().drop_first()[0] == ChatEventView::Stored);
    assert(e.drop_first().drop_first().drop_first().drop_first()[0] == ChatEventView::Sent);
    assert(chat_run(t, s, e).1 =~= seq![
        ChatActionView::LoadHistory { chat_id: t.chat_id, limit: t.history_limit },
        ChatActionView::SaveLog(question_entry_spec(t)),
        ChatActionView::SaveChatroom,
        ChatActionView::Send(retry_notice_spec(t)),
        ChatActionView::Finish { answered: false },
    ]);
}

/// A failed action ends the session as failed, and a finished session asks
/// for nothing more whatever happens.
pub proof fn law_failure_ends_turn(t: &ChatTurn, s: ChatSessionView, e: ChatEventView)
    requires
        s.step == ChatStep::Finished || e == ChatEventView::Failed,
    ensures
        chat_transition(t, s, e).0.step == ChatStep::Finished,
        chat_transition(t, s, e).1 == (ChatActionView::Finish { answered: false }),
{
}

/// The answer taken from the chat model's reply is the content of its
/// first choice, whole and unchanged, whatever its length; a reply with no
/// choice, or whose first choice has no content, gives no answer.
pub proof fn law_answer_is_first_choice(choices: Seq<Option<Seq<char>>>)
    ensures
        choices.len() > 0 && choices[0] is Some ==> answer_spec(choices) == Ok::<
            Seq<char>,
            ReplyError,
        >(choices[0].unwrap()),
        choices.len() > 0 && choices[0] is Some ==> answer_spec(choices).unwrap().len()
            == choices[0].unwrap().len(),
        choices.len() == 0 ==> answer_spec(choices) == Err::<Seq<char>, ReplyError>(
            ReplyError::NoChoice,
        ),
        choices.len() > 0 && choices[0] is None ==> answer_spec(choices) == Err::<
            Seq<char>,
            ReplyError,
        >(ReplyError::EmptyChoice),
{
}

/// The chat model is asked with, first, a system message that introduces
/// the bot by name as a cute and bubbly turtle; then the history, in order;
/// and last, the question as a message of the user who asked it.
pub proof fn law_prompt_shape(t: &ChatTurn, history: Seq<ChatMessageView>)
    ensures
        prompt_spec(t, history).len() == history.len() + 2,
        prompt_spec(t, history)[0] == (ChatMessageView {
            role: Role::System,
            content: "You are a cute and bubbly turtle and your name is "@ + t.bot_name@ + "."@,
            name: None,
        }),
        forall|i: int| 0 <= i < history.len() ==> #[trigger] prompt_spec(t, history)[i + 1] == history[i],
        prompt_spec(t, history)[history.len() as int + 1] == (ChatMessageView {
            role: Role::User,
            content: t.question@,
            name: match t.asker {
                Some(a) => Some(a@),
                None => None,
            },
        }),
{
}

/// Answering a message logs the question as the asker's user message and
/// the answer as an assistant message, both in the message's chat, and
/// replies to the question with the answer as Markdown.
pub proof fn law_logged_and_sent(t: &ChatTurn, answer: Seq<char>)
    ensures
        question_entry_spec(t) == (ChatLogEntryView {
            chat_id: t.chat_id,
            role: Role::User,
            content: t.question@,
            name: match t.asker {
                Some(a) => Some(a@),
                None => None,
            },
        }),
        answer_entry_spec(t, answer) == (ChatLogEntryView {
            chat_id: t.chat_id,
            role: Role::Assistant,
            content: answer,
            name: None,
        }),
        answer_reply_spec(t, answer) == (BotActionView::SendText {
            chat_id: t.chat_id,
            text: answer,
            reply_to: Some(t.message_id),
            markdown: true,
            detached: false,
        }),
{
}

} // verus!
