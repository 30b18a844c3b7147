//! The table of chatrooms the bot is in, and how its database reports are
//! read.

use vstd::prelude::*;

use crate::telegram::{is_group_chat, is_group_spec, Message};

verus! {

/// A chat as the table of chatrooms records it.
#[derive(Debug, Clone, PartialEq, Eq)]
pub struct Chatroom {
    pub id: i64,
    pub title: Option<String>,
    pub is_group: bool,
}

/// How a write to the database ended.
#[derive(Debug, Clone, PartialEq, Eq)]
pub enum WriteOutcome {
    /// The row was written.
    Written,
    /// The database refused the write, with its PostgreSQL error code when
    /// it gave one.
    Refused { code: Option<String> },
}

/// The PostgreSQL code of a unique violation: the row is there already.
pub open spec fn unique_violation() -> Seq<char> {
    "23505"@
}

/// The PostgreSQL code of a foreign key violation: a row refers to one that
/// is not there.
pub open spec fn foreign_key_violation() -> Seq<char> {
    "23503"@
}

/// The write was refused with the given PostgreSQL error code.
pub open spec fn refused_with(outcome: &WriteOutcome, code: Seq<char>) -> bool {
    outcome matches WriteOutcome::Refused { code: Some(c) } && c@ == code
}

/// The record of the chat a message was sent in.
pub fn chatroom_of(msg: &Message) -> (r: Chatroom)
    ensures
        r.id == msg.chat.id,
        r.title == msg.chat.title,
        r.is_group == is_group_spec(msg),
{
    let title = match &msg.chat.title {
        Some(t) => Some(t.clone()),
        None => None,
    };
    Chatroom { id: msg.chat.id, title, is_group: is_group_chat(msg) }
}

/// The write was refused with the PostgreSQL error code `code`.
pub fn is_refused_with(outcome: &WriteOutcome, code: &str) -> (r: bool)
    ensures
        r == refused_with(outcome, code@),
{
    match outcome {
        WriteOutcome::Refused { code: Some(c) } => *c == code.to_string(),
        _ => false,
    }
}

/// Whether saving a chatroom succeeded: the row was written, or it was
/// there already, which counts as saved.
pub fn chatroom_saved(outcome: &WriteOutcome) -> (r: bool)
    ensures
        r == (outcome is Written || refused_with(outcome, unique_violation())),
{
    match outcome {
        WriteOutcome::Written => true,
        _ => is_refused_with(outcome, "23505"),
    }
}

} // verus!
