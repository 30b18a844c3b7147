//! The bot's commands and what it does for each.

use vstd::prelude::*;

use crate::actions::{
    plan_view, reply_spec, say, say_spec, send_sticker, sticker_spec, BotAction, BotActionView,
};
use crate::chat::ChatState;
use crate::clock::{format_rfc2822, now_unix_secs, rfc2822_at_offset};
use crate::settings::Stickers;
use crate::telegram::{is_group_chat, is_group_spec, Message};

verus! {

/// The commands the bot understands.
#[derive(PartialEq, Eq, Structural, Debug, Clone, Copy)]
pub enum Command {
    Start,
    Help,
    DateTime,
    Chat,
    ShutUp,
}

/// The time zone the current date is shown in: eight hours ahead of UTC.
pub const DATE_UTC_OFFSET_HOURS: i8 = 8;

/// The current date could not be shown.
#[derive(PartialEq, Eq, Structural, Debug, Clone, Copy)]
pub struct DateTimeUnavailable;

/// The answer to a command that only makes sense in a group.
pub open spec fn group_only_text() -> Seq<char> {
    "This command is only available in group chats."@
}

/// What the bot does for `cmd`, sent in chat `chat_id` (a group when
/// `in_group`): `None` when the current date, needed for the answer, cannot
/// be shown. `help` is the list of commands; `now` the current Unix time.
pub open spec fn answer_spec(
    cmd: Command,
    chat_id: i64,
    in_group: bool,
    stickers: &Stickers,
    help: Seq<char>,
    now: int,
) -> Option<Seq<BotActionView>> {
    match cmd {
        Command::Start => Some(
            seq![BotActionView::SaveChatroom, say_spec(chat_id, "wtf im not ready yet"@)],
        ),
        Command::Help => Some(seq![say_spec(chat_id, help)]),
        Command::DateTime => match rfc2822_at_offset(now, DATE_UTC_OFFSET_HOURS as int) {
            Some(t) => Some(seq![say_spec(chat_id, t)]),
            None => None,
        },
        Command::Chat => Some(
            if in_group {
                seq![
                    BotActionView::SetChatState(ChatState::Talk),
                    sticker_spec(chat_id, stickers.hello@),
                    say_spec(chat_id, "Hello! What do you wanna chat about?? \u{1F60A}"@),
                ]
            } else {
                seq![say_spec(chat_id, group_only_text())]
            },
        ),
        Command::ShutUp => Some(
            if in_group {
                seq![
                    BotActionView::SetChatState(ChatState::ShutUp),
                    sticker_spec(chat_id, stickers.whatever@),
                    say_spec(chat_id, "Huh?! Whatever \u{1F644}. Byebye I'm off."@),
                ]
            } else {
                seq![say_spec(chat_id, group_only_text())]
            },
        ),
    }
}

/// `r` is what answering `cmd` at the Unix time `now` gives.
pub open spec fn answered_at(
    cmd: Command,
    msg: &Message,
    stickers: &Stickers,
    help: Seq<char>,
    now: int,
    r: Result<Vec<BotAction>, DateTimeUnavailable>,
) -> bool {
    match r {
        Ok(plan) => answer_spec(cmd, msg.chat.id, is_group_spec(msg), stickers, help, now) == Some(
            plan_view(plan@),
        ),
        Err(_) => answer_spec(cmd, msg.chat.id, is_group_spec(msg), stickers, help, now) is None,
    }
}

impl Command {
    /// The plan for answering this command, sent in `msg`. `help` is the
    /// list of commands and `now` the current Unix time; the plan for
    /// `DateTime` fails when that time cannot be shown.
    pub fn answer(self, msg: &Message, stickers: &Stickers, help: &str, now: i64) -> (r:
        Result<Vec<BotAction>, DateTimeUnavailable>)
        ensures
            r matches Ok(plan) ==> answer_spec(
                self,
                msg.chat.id,
                is_group_spec(msg),
                stickers,
                help@,
                now as int,
            ) == Some(plan_view(plan@)),
            r is Err ==> answer_spec(
                self,
                msg.chat.id,
                is_group_spec(msg),
                stickers,
                help@,
                now as int,
            ) is None,
    {
        let chat_id = msg.chat.id;
        let mut plan: Vec<BotAction> = Vec::new();
        match self {
            Command::Start => {
                plan.push(BotAction::SaveChatroom);
                plan.push(say(chat_id, "wtf im not ready yet".to_string()));
            },
            Command::Help => {
                plan.push(say(chat_id, help.to_string()));
            },
            Command::DateTime => {
                match format_rfc2822(now, DATE_UTC_OFFSET_HOURS) {
                    Some(t) => plan.push(say(chat_id, t)),
                    None => return Err(DateTimeUnavailable),
                }
            },
            Command::Chat => {
                if is_group_chat(msg) {
                    plan.push(BotAction::SetChatState(ChatState::Talk));
                    plan.push(send_sticker(chat_id, &stickers.hello));
                    plan.push(
                        say(chat_id, "Hello! What do you wanna chat about?? \u{1F60A}".to_string()),
                    );
                } else {
                    plan.push(
                        say(chat_id, "This command is only available in group chats.".to_string()),
                    );
                }
            },
            Command::ShutUp => {
                if is_group_chat(msg) {
                    plan.push(BotAction::SetChatState(ChatState::ShutUp));
                    plan.push(send_sticker(chat_id, &stickers.whatever));
                    plan.push(say(chat_id, "Huh?! Whatever \u{1F644}. Byebye I'm off.".to_string()));
                } else {
                    plan.push(
                        say(chat_id, "This command is only available in group chats.".to_string()),
                    );
                }
            },
        }
        assert(plan_view(plan@) =~= answer_spec(
            self,
            msg.chat.id,
            is_group_spec(msg),
            stickers,
            help@,
            now as int,
        ).unwrap());
        Ok(plan)
    }

    /// The plan for answering this command at the current time, read from
    /// the machine's clock; only `DateTime` depends on that time.
    pub fn answer_now(self, msg: &Message, stickers: &Stickers, help: &str) -> (r: Result<
        Vec<BotAction>,
        DateTimeUnavailable,
    >)
        ensures
            exists|now: i64| #[trigger] answered_at(self, msg, stickers, help@, now as int, r),
    {
        let now = now_unix_secs();
        let r = self.answer(msg, stickers, help, now);
        assert(answered_at(self, msg, stickers, help@, now as int, r));
        r
    }
}

/// `/start` records the chat and then says it is not ready, in every kind
/// of chat, private ones included, and whatever the time.
pub proof fn law_start_records_chat(
    chat_id: i64,
    in_group: bool,
    stickers: &Stickers,
    help: Seq<char>,
    now: int,
)
    ensures
        answer_spec(Command::Start, chat_id, in_group, stickers, help, now) == Some(
            seq![
                BotActionView::SaveChatroom,
                BotActionView::SendText {
                    chat_id,
                    text: "wtf im not ready yet"@,
                    reply_to: None,
                    markdown: false,
                    detached: false,
                },
            ],
        ),
{
}

/// In a group, `/chat` stores the talking state, sends the hello sticker
/// and invites the members to chat; `/shutup` stores the silent state,
/// sends the whatever sticker and says goodbye. `/help` sends the list of
/// commands, in any chat.
pub proof fn law_command_plans(
    chat_id: i64,
    in_group: bool,
    stickers: &Stickers,
    help: Seq<char>,
    now: int,
)
    ensures
        answer_spec(Command::Help, chat_id, in_group, stickers, help, now) == Some(
            seq![
                BotActionView::SendText {
                    chat_id,
                    text: help,
                    reply_to: None,
                    markdown: false,
                    detached: false,
                },
            ],
        ),
        in_group ==> answer_spec(Command::Chat, chat_id, in_group, stickers, help, now) == Some(
            seq![
                BotActionView::SetChatState(ChatState::Talk),
                BotActionView::SendSticker { chat_id, sticker: stickers.hello@ },
                BotActionView::SendText {
                    chat_id,
                    text: "Hello! What do you wanna chat about?? \u{1F60A}"@,
                    reply_to: None,
                    markdown: false,
                    detached: false,
                },
            ],
        ),
        in_group ==> answer_spec(Command::ShutUp, chat_id, in_group, stickers, help, now) == Some(
            seq![
                BotActionView::SetChatState(ChatState::ShutUp),
                BotActionView::SendSticker { chat_id, sticker: stickers.whatever@ },
                BotActionView::SendText {
                    chat_id,
                    text: "Huh?! Whatever \u{1F644}. Byebye I'm off."@,
                    reply_to: None,
                    markdown: false,
                    detached: false,
                },
            ],
        ),
{
}

} // verus!
