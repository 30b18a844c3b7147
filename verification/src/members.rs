//! What the bot does when members, itself included, join or leave a chat.

use vstd::prelude::*;

use crate::actions::{
    plan_view, reply, reply_spec, say, say_spec, send_sticker, sticker_spec, BotAction,
    BotActionView,
};
use crate::settings::Stickers;
use crate::telegram::{full_name_spec, Me, Message, User};

verus! {

/// The greeting for a newly joined user: by username when there is one,
/// else by first name.
pub open spec fn greeting_spec(u: User) -> Seq<char> {
    match u.username {
        Some(name) => "Hello @"@ + name@ + "!"@,
        None => "Hello "@ + u.first_name@ + "!"@,
    }
}

/// Detached replies to message `to` greeting each user of `users` who is
/// not a bot, in order.
pub open spec fn greetings_spec(users: Seq<User>, chat_id: i64, to: i32) -> Seq<BotActionView>
    decreases users.len(),
{
    if users.len() == 0 {
        Seq::empty()
    } else {
        let rest = greetings_spec(users.drop_last(), chat_id, to);
        if users.last().is_bot {
            rest
        } else {
            rest.push(
                BotActionView::SendText {
                    chat_id,
                    text: greeting_spec(users.last()),
                    reply_to: Some(to),
                    markdown: false,
                    detached: true,
                },
            )
        }
    }
}

/// The bot's plan when it joins a chat: record the chat, send the hello
/// sticker, and introduce itself by its full name.
pub open spec fn me_join_spec(msg: &Message, me: &Me, stickers: &Stickers) -> Seq<BotActionView> {
    seq![
        BotActionView::SaveChatroom,
        sticker_spec(msg.chat.id, stickers.hello@),
        say_spec(msg.chat.id, "Hello everyone!! I am "@ + full_name_spec(&me.user) + "!"@),
    ]
}

/// The plan when members join: greet each new member who is not a bot, then
/// send the hello sticker; nothing when all of them are bots.
pub open spec fn member_join_spec(msg: &Message, stickers: &Stickers) -> Seq<BotActionView> {
    match msg.new_chat_members {
        Some(users) => {
            let g = greetings_spec(users@, msg.chat.id, msg.id);
            if g.len() == 0 {
                g
            } else {
                g.push(sticker_spec(msg.chat.id, stickers.hello@))
            }
        },
        None => Seq::empty(),
    }
}

/// The plan when a member leaves: send the sad sticker and a farewell to
/// them, by full name, in reply to the message.
pub open spec fn member_leave_spec(msg: &Message, stickers: &Stickers) -> Seq<BotActionView> {
    match msg.left_chat_member {
        Some(user) => seq![
            sticker_spec(msg.chat.id, stickers.sad@),
            reply_spec(
                msg.chat.id,
                msg.id,
                "Sayanora "@ + full_name_spec(&user) + " ~~ \u{1F62D}\u{1F62D}\u{1F62D}"@,
            ),
        ],
        None => Seq::empty(),
    }
}

fn greeting(u: &User) -> (t: String)
    ensures
        t@ == greeting_spec(*u),
{
    match &u.username {
        Some(name) => {
            let mut t = "Hello @".to_string();
            t.append(name.as_str());
            t.append("!");
            t
        },
        None => {
            let mut t = "Hello ".to_string();
            t.append(u.first_name.as_str());
            t.append("!");
            t
        },
    }
}

/// The plan for when the bot joins a chat.
pub fn me_join(msg: &Message, me: &Me, stickers: &Stickers) -> (plan: Vec<BotAction>)
    ensures
        plan_view(plan@) == me_join_spec(msg, me, stickers),
{
    let mut greet = "Hello everyone!! I am ".to_string();
    let name = me.user.full_name();
    greet.append(name.as_str());
    greet.append("!");
    let mut plan: Vec<BotAction> = Vec::new();
    plan.push(BotAction::SaveChatroom);
    plan.push(send_sticker(msg.chat.id, &stickers.hello));
    plan.push(say(msg.chat.id, greet));
    assert(plan_view(plan@) =~= me_join_spec(msg, me, stickers));
    plan
}

/// The plan for when the bot leaves a chat: forget the chat.
pub fn me_leave(msg: &Message) -> (plan: Vec<BotAction>)
    ensures
        plan_view(plan@) == seq![BotActionView::DeleteChatroom { chat_id: msg.chat.id }],
{
    let mut plan: Vec<BotAction> = Vec::new();
    plan.push(BotAction::DeleteChatroom { chat_id: msg.chat.id });
    assert(plan_view(plan@) =~= seq![BotActionView::DeleteChatroom { chat_id: msg.chat.id }]);
    plan
}

/// The plan for when members join a chat.
pub fn member_join(msg: &Message, stickers: &Stickers) -> (plan: Vec<BotAction>)
    ensures
        plan_view(plan@) == member_join_spec(msg, stickers),
{
    let mut plan: Vec<BotAction> = Vec::new();
    match &msg.new_chat_members {
        Some(users) => {
            let mut i: usize = 0;
            assert(users@.take(0) =~= Seq::<User>::empty());
            while i < users.len()
                invariant
                    i <= users.len(),
                    msg.new_chat_members == Some(*users),
                    plan_view(plan@) == greetings_spec(users@.take(i as int), msg.chat.id, msg.id),
                decreases users.len() - i,
            {
                assert(users@.take(i + 1).drop_last() =~= users@.take(i as int));
                assert(users@.take(i + 1).last() == users@[i as int]);
                let u = &users[i];
                if !u.is_bot {
                    let text = greeting(u);
                    plan.push(
                        BotAction::SendText {
                            chat_id: msg.chat.id,
                            text,
                            reply_to: Some(msg.id),
                            markdown: false,
                            detached: true,
                        },
                    );
                }
                assert(plan_view(plan@) =~= greetings_spec(
                    users@.take(i + 1),
                    msg.chat.id,
                    msg.id,
                ));
                i += 1;
            }
            assert(users@.take(users.len() as int) =~= users@);
            if plan.len() > 0 {
                let ghost before = plan_view(plan@);
                plan.push(send_sticker(msg.chat.id, &stickers.hello));
                assert(plan_view(plan@) =~= before.push(sticker_spec(msg.chat.id, stickers.hello@)));
            }
        },
        None => {
            assert(plan_view(plan@) =~= Seq::<BotActionView>::empty());
        },
    }
    plan
}

/// The plan for when a member leaves a chat.
pub fn member_leave(msg: &Message, stickers: &Stickers) -> (plan: Vec<BotAction>)
    ensures
        plan_view(plan@) == member_leave_spec(msg, stickers),
{
    let mut plan: Vec<BotAction> = Vec::new();
    match &msg.left_chat_member {
        Some(user) => {
            let mut text = "Sayanora ".to_string();
            let name = user.full_name();
            text.append(name.as_str());
            text.append(" ~~ \u{1F62D}\u{1F62D}\u{1F62D}");
            plan.push(send_sticker(msg.chat.id, &stickers.sad));
            plan.push(reply(msg.chat.id, msg.id, text));
        },
        None => {},
    }
    assert(plan_view(plan@) =~= member_leave_spec(msg, stickers));
    plan
}

/// The new members who are not bots.
pub open spec fn humans(users: Seq<User>) -> Seq<User> {
    users.filter(|u: User| !u.is_bot)
}

proof fn lemma_greetings_of_humans(users: Seq<User>, chat_id: i64, to: i32)
    ensures
        greetings_spec(users, chat_id, to).len() == humans(users).len(),
        forall|k: int|
            0 <= k < humans(users).len() ==> #[trigger] greetings_spec(users, chat_id, to)[k] == (
            BotActionView::SendText {
                chat_id,
                text: greeting_spec(humans(users)[k]),
                reply_to: Some(to),
                markdown: false,
                detached: true,
            }),
    decreases users.len(),
{
    reveal(Seq::filter);
    if users.len() > 0 {
        lemma_greetings_of_humans(users.drop_last(), chat_id, to);
        assert(users.drop_last().filter(|u: User| !u.is_bot) == humans(users.drop_last()));
    }
}

/// When members join, each new member who is not a bot is greeted once, in
/// the order they are listed, and bots are not; the hello sticker follows,
/// once, exactly when somebody was greeted.
pub proof fn law_member_join_greets_each_human(msg: &Message, stickers: &Stickers)
    requires
        msg.new_chat_members is Some,
    ensures
        ({
            let h = humans(msg.new_chat_members.unwrap()@);
            let plan = member_join_spec(msg, stickers);
            &&& plan.len() == (if h.len() == 0 { 0 } else { h.len() + 1 })
            &&& forall|k: int|
                0 <= k < h.len() ==> #[trigger] plan[k] == (BotActionView::SendText {
                    chat_id: msg.chat.id,
                    text: greeting_spec(h[k]),
                    reply_to: Some(msg.id),
                    markdown: false,
                    detached: true,
                })
            &&& h.len() > 0 ==> plan[h.len() as int] == sticker_spec(msg.chat.id, stickers.hello@)
        }),
{
    let users = msg.new_chat_members.unwrap()@;
    lemma_greetings_of_humans(users, msg.chat.id, msg.id);
    let g = greetings_spec(users, msg.chat.id, msg.id);
    let h = humans(users);
    assert forall|k: int| 0 <= k < h.len() implies #[trigger] member_join_spec(msg, stickers)[k]
        == g[k] by {}
}

/// The name a user is shown by: the first name, then a space and the last
/// name when there is one.
pub open spec fn shown_name(first: Seq<char>, last: Option<Seq<char>>) -> Seq<char> {
    match last {
        Some(l) => first + " "@ + l,
        None => first,
    }
}

/// When the bot joins any chat, whatever its kind, it first records the
/// chat, then sends the hello sticker, then introduces itself by its full
/// name.
pub proof fn law_me_join_records_chat_first(msg: &Message, me: &Me, stickers: &Stickers)
    ensures
        me_join_spec(msg, me, stickers) == seq![
            BotActionView::SaveChatroom,
            BotActionView::SendSticker { chat_id: msg.chat.id, sticker: stickers.hello@ },
            BotActionView::SendText {
                chat_id: msg.chat.id,
                text: "Hello everyone!! I am "@ + shown_name(
                    me.user.first_name@,
                    crate::chat::opt_view(me.user.last_name),
                ) + "!"@,
                reply_to: None,
                markdown: false,
                detached: false,
            },
        ],
{
}

/// The farewell to a member who leaves is the sad sticker, then a reply to
/// the message that names the member by full name: first name, and the
/// last name after a space when there is one.
pub proof fn law_farewell_names_the_member(msg: &Message, stickers: &Stickers)
    requires
        msg.left_chat_member is Some,
    ensures
        member_leave_spec(msg, stickers) == seq![
            BotActionView::SendSticker { chat_id: msg.chat.id, sticker: stickers.sad@ },
            BotActionView::SendText {
                chat_id: msg.chat.id,
                text: "Sayanora "@ + shown_name(
                    msg.left_chat_member.unwrap().first_name@,
                    crate::chat::opt_view(msg.left_chat_member.unwrap().last_name),
                ) + " ~~ \u{1F62D}\u{1F62D}\u{1F62D}"@,
                reply_to: Some(msg.id),
                markdown: false,
                detached: false,
            },
        ],
{
}

/// How a new member is greeted: by username after an `@` when they have
/// one, else by first name.
pub proof fn law_greeting_text(u: User)
    ensures
        greeting_spec(u) == "Hello "@ + (match u.username {
            Some(n) => "@"@ + n@,
            None => u.first_name@,
        }) + "!"@,
{
    match u.username {
        Some(n) => {
            reveal_strlit("Hello @");
            reveal_strlit("Hello ");
            reveal_strlit("@");
            assert("Hello @"@ =~= "Hello "@ + "@"@);
            assert("Hello @"@ + n@ + "!"@ =~= "Hello "@ + ("@"@ + n@) + "!"@);
        },
        None => {},
    }
}

} // verus!
