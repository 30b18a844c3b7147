//! Which handler answers an incoming message.

use vstd::prelude::*;

use crate::actions::state_after;
use crate::chat::ChatState;
use crate::commands::{answer_spec, Command};
use crate::settings::Stickers;
use crate::telegram::{
    got_added_spec, got_removed_spec, group_title_change, i_got_added, i_got_removed,
    is_group_spec, is_not_group_chat, members_listed, Me, Message,
};

verus! {

/// The handler a message goes to.
#[derive(PartialEq, Eq, Structural, Debug, Clone, Copy)]
pub enum Route {
    /// Answer a command.
    Command(Command),
    /// The bot itself joined the chat, or created it.
    BotJoined,
    /// Other members joined.
    MembersJoined,
    /// The bot itself left the chat.
    BotLeft,
    /// Another member left.
    MemberLeft,
    /// The chat's title changed.
    TitleChanged,
    /// Talk with the sender through the chat model.
    Conversation,
    /// No handler answers.
    Ignored,
}

/// A message that reports no change to the chat: no creation, no members
/// joining or leaving, no new title.
pub open spec fn ordinary_message(msg: &Message) -> bool {
    &&& !msg.group_chat_created
    &&& msg.new_chat_members is None
    &&& msg.left_chat_member is None
    &&& msg.new_chat_title is None
}

/// The handler for `msg`, received by `me` in a chat whose conversation
/// state is `state`; `command` is the command the message's text parses
/// to, if any. The first rule that applies decides.
pub open spec fn route_spec(msg: &Message, me: &Me, command: Option<Command>, state: ChatState) -> Route {
    if command is Some {
        Route::Command(command.unwrap())
    } else if msg.group_chat_created {
        Route::BotJoined
    } else if msg.new_chat_members is Some {
        if got_added_spec(msg, me) {
            Route::BotJoined
        } else {
            Route::MembersJoined
        }
    } else if msg.left_chat_member is Some {
        if got_removed_spec(msg, me) {
            Route::BotLeft
        } else {
            Route::MemberLeft
        }
    } else if msg.new_chat_title is Some {
        Route::TitleChanged
    } else if !is_group_spec(msg) {
        Route::Conversation
    } else if state == ChatState::Talk {
        Route::Conversation
    } else {
        Route::Ignored
    }
}

/// Chooses the handler for `msg`.
pub fn route_message(msg: &Message, me: &Me, command: Option<Command>, state: ChatState) -> (r:
    Route)
    requires
        command is None && !msg.group_chat_created && msg.new_chat_members is Some
            ==> members_listed(msg),
    ensures
        r == route_spec(msg, me, command, state),
{
    if let Some(c) = command {
        return Route::Command(c);
    }
    if msg.group_chat_created {
        return Route::BotJoined;
    }
    if msg.new_chat_members.is_some() {
        if i_got_added(msg, me) {
            return Route::BotJoined;
        }
        return Route::MembersJoined;
    }
    if msg.left_chat_member.is_some() {
        if i_got_removed(msg, me) {
            return Route::BotLeft;
        }
        return Route::MemberLeft;
    }
    if group_title_change(msg) {
        return Route::TitleChanged;
    }
    if is_not_group_chat(msg) {
        return Route::Conversation;
    }
    if state == ChatState::Talk {
        return Route::Conversation;
    }
    Route::Ignored
}

/// A command always goes to its own handler, whatever else the message
/// reports and whatever the chat's state.
pub proof fn law_commands_first(msg: &Message, me: &Me, cmd: Command, state: ChatState)
    ensures
        route_spec(msg, me, Some(cmd), state) == Route::Command(cmd),
{
}

/// In a private chat or a channel, every ordinary message that is not a
/// command is talked about, whatever the stored state.
pub proof fn law_private_chats_answered(msg: &Message, me: &Me, state: ChatState)
    requires
        !is_group_spec(msg),
        ordinary_message(msg),
    ensures
        route_spec(msg, me, None, state) == Route::Conversation,
{
}

/// In a group, after the `/chat` command's plan has run, the bot answers
/// every ordinary message of the group that is not a command.
pub proof fn law_chat_command_starts_talking(
    cmd_msg: &Message,
    msg: &Message,
    me: &Me,
    stickers: &Stickers,
    help: Seq<char>,
    now: int,
    before: ChatState,
)
    requires
        is_group_spec(cmd_msg),
        is_group_spec(msg),
        ordinary_message(msg),
    ensures
        answer_spec(Command::Chat, cmd_msg.chat.id, is_group_spec(cmd_msg), stickers, help, now) is Some,
        route_spec(
            msg,
            me,
            None,
            state_after(
                answer_spec(Command::Chat, cmd_msg.chat.id, is_group_spec(cmd_msg), stickers, help, now).unwrap(),
                before,
            ),
        ) == Route::Conversation,
{
    let plan = answer_spec(Command::Chat, cmd_msg.chat.id, is_group_spec(cmd_msg), stickers, help, now).unwrap();
    assert(plan.drop_last().drop_last().last() == crate::actions::BotActionView::SetChatState(
        ChatState::Talk,
    ));
    assert(state_after(plan, before) == ChatState::Talk) by {
        reveal_with_fuel(state_after, 3);
    }
}

/// In a group, after the `/shutup` command's plan has run, the bot ignores
/// every ordinary message of the group that is not a command.
pub proof fn law_shut_up_stops_talking(
    cmd_msg: &Message,
    msg: &Message,
    me: &Me,
    stickers: &Stickers,
    help: Seq<char>,
    now: int,
    before: ChatState,
)
    requires
        is_group_spec(cmd_msg),
        is_group_spec(msg),
        ordinary_message(msg),
    ensures
        answer_spec(Command::ShutUp, cmd_msg.chat.id, is_group_spec(cmd_msg), stickers, help, now) is Some,
        route_spec(
            msg,
            me,
            None,
            state_after(
                answer_spec(Command::ShutUp, cmd_msg.chat.id, is_group_spec(cmd_msg), stickers, help, now).unwrap(),
                before,
            ),
        ) == Route::Ignored,
{
    let plan = answer_spec(Command::ShutUp, cmd_msg.chat.id, is_group_spec(cmd_msg), stickers, help, now).unwrap();
    assert(plan.drop_last().drop_last().last() == crate::actions::BotActionView::SetChatState(
        ChatState::ShutUp,
    ));
    assert(state_after(plan, before) == ChatState::ShutUp) by {
        reveal_with_fuel(state_after, 3);
    }
}

/// Outside a group, `/chat` and `/shutup` only say that they are for
/// groups: the chat's conversation state stays as it was.
pub proof fn law_group_commands_need_a_group(
    cmd_msg: &Message,
    stickers: &Stickers,
    help: Seq<char>,
    now: int,
    cmd: Command,
    before: ChatState,
)
    requires
        !is_group_spec(cmd_msg),
        cmd == Command::Chat || cmd == Command::ShutUp,
    ensures
        answer_spec(cmd, cmd_msg.chat.id, false, stickers, help, now) == Some(
            seq![crate::actions::say_spec(cmd_msg.chat.id, crate::commands::group_only_text())],
        ),
        state_after(
            answer_spec(cmd, cmd_msg.chat.id, false, stickers, help, now).unwrap(),
            before,
        ) == before,
{
    let plan = answer_spec(cmd, cmd_msg.chat.id, false, stickers, help, now).unwrap();
    assert(plan.drop_last() =~= Seq::<crate::actions::BotActionView>::empty());
    assert(state_after(plan, before) == before) by {
        reveal_with_fuel(state_after, 2);
    }
}

/// A message that reports a member leaving, with no command, no chat
/// creation and no new members, goes to the bot's own leaving exactly when
/// the member who left has the bot's id, and to the farewell otherwise,
/// whatever the kind of chat and the chat's state.
pub proof fn law_leaving_member_routes(msg: &Message, me: &Me, state: ChatState)
    requires
        !msg.group_chat_created,
        msg.new_chat_members is None,
        msg.left_chat_member is Some,
    ensures
        route_spec(msg, me, None, state) == (if msg.left_chat_member.unwrap().id == me.user.id {
            Route::BotLeft
        } else {
            Route::MemberLeft
        }),
{
}

/// A message that reports new members, with no command and no chat
/// creation, goes to the bot's own joining exactly when the first new
/// member has the bot's id, and to the greeting of members otherwise.
pub proof fn law_joining_member_routes(msg: &Message, me: &Me, state: ChatState)
    requires
        !msg.group_chat_created,
        msg.new_chat_members is Some,
        msg.new_chat_members.unwrap()@.len() > 0,
    ensures
        route_spec(msg, me, None, state) == (if msg.new_chat_members.unwrap()@[0].id
            == me.user.id {
            Route::BotJoined
        } else {
            Route::MembersJoined
        }),
{
}

} // verus!
