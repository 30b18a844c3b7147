//! What the bot asks the outside world to do. A handler's plan is a list
//! of actions, carried out in order; the first that fails ends the handler
//! with its error, except a detached message, whose failure is ignored.

use vstd::prelude::*;

use crate::chat::ChatState;

verus! {

/// One step of a handler's plan.
#[derive(Debug, Clone, PartialEq, Eq)]
pub enum BotAction {
    /// Send a text message to a chat, optionally as a reply to a message
    /// and formatted as Markdown; a detached message is sent in the
    /// background and its failure is ignored.
    SendText { chat_id: i64, text: String, reply_to: Option<i32>, markdown: bool, detached: bool },
    /// Send a sticker, given by its file id, to a chat.
    SendSticker { chat_id: i64, sticker: String },
    /// Record the message's chat in the table of chatrooms.
    SaveChatroom,
    /// Remove a chat from the table of chatrooms.
    DeleteChatroom { chat_id: i64 },
    /// Store the chat's conversation state.
    SetChatState(ChatState),
}

/// A plan step, with its text as characters.
pub enum BotActionView {
    SendText {
        chat_id: i64,
        text: Seq<char>,
        reply_to: Option<i32>,
        markdown: bool,
        detached: bool,
    },
    SendSticker { chat_id: i64, sticker: Seq<char> },
    SaveChatroom,
    DeleteChatroom { chat_id: i64 },
    SetChatState(ChatState),
}

impl View for BotAction {
    type V = BotActionView;

    open spec fn view(&self) -> BotActionView {
        match self {
            BotAction::SendText { chat_id, text, reply_to, markdown, detached } => {
                BotActionView::SendText {
                    chat_id: *chat_id,
                    text: text@,
                    reply_to: *reply_to,
                    markdown: *markdown,
                    detached: *detached,
                }
            },
            BotAction::SendSticker { chat_id, sticker } => BotActionView::SendSticker {
                chat_id: *chat_id,
                sticker: sticker@,
            },
            BotAction::SaveChatroom => BotActionView::SaveChatroom,
            BotAction::DeleteChatroom { chat_id } => BotActionView::DeleteChatroom {
                chat_id: *chat_id,
            },
            BotAction::SetChatState(s) => BotActionView::SetChatState(*s),
        }
    }
}

/// A plan, as views.
pub open spec fn plan_view(plan: Seq<BotAction>) -> Seq<BotActionView> {
    plan.map_values(|a: BotAction| a@)
}

/// Sending `text` to the chat, plainly.
pub open spec fn say_spec(chat_id: i64, text: Seq<char>) -> BotActionView {
    BotActionView::SendText { chat_id, text, reply_to: None, markdown: false, detached: false }
}

/// Sending `text` to the chat as a reply to message `to`.
pub open spec fn reply_spec(chat_id: i64, to: i32, text: Seq<char>) -> BotActionView {
    BotActionView::SendText { chat_id, text, reply_to: Some(to), markdown: false, detached: false }
}

/// Sending the sticker `sticker` to the chat.
pub open spec fn sticker_spec(chat_id: i64, sticker: Seq<char>) -> BotActionView {
    BotActionView::SendSticker { chat_id, sticker }
}

/// The state a chat is in after a plan runs to its end, starting from
/// `state`: the last state the plan stores, if any.
pub open spec fn state_after(plan: Seq<BotActionView>, state: ChatState) -> ChatState
    decreases plan.len(),
{
    if plan.len() == 0 {
        state
    } else {
        match plan.last() {
            BotActionView::SetChatState(s) => s,
            _ => state_after(plan.drop_last(), state),
        }
    }
}

/// Sends `text` to the chat, plainly.
pub fn say(chat_id: i64, text: String) -> (a: BotAction)
    ensures
        a@ == say_spec(chat_id, text@),
{
    BotAction::SendText { chat_id, text, reply_to: None, markdown: false, detached: false }
}

/// Sends `text` to the chat as a reply to message `to`.
pub fn reply(chat_id: i64, to: i32, text: String) -> (a: BotAction)
    ensures
        a@ == reply_spec(chat_id, to, text@),
{
    BotAction::SendText { chat_id, text, reply_to: Some(to), markdown: false, detached: false }
}

/// Sends the sticker `sticker` to the chat.
pub fn send_sticker(chat_id: i64, file_id: &String) -> (a: BotAction)
    ensures
        a@ == sticker_spec(chat_id, file_id@),
{
    BotAction::SendSticker { chat_id, sticker: file_id.clone() }
}

} // verus!
