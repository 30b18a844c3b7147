//! What the bot reads of a Telegram message, as plain values, and the
//! filters that classify messages.

use vstd::prelude::*;

verus! {

/// The kind of a chat.
#[derive(PartialEq, Eq, Structural, Debug, Clone, Copy)]
pub enum ChatKind {
    Private,
    Group,
    Supergroup,
    Channel,
}

/// A chat: its id, kind and, for groups and channels, its title.
#[derive(Debug, Clone, PartialEq, Eq)]
pub struct Chat {
    pub id: i64,
    pub kind: ChatKind,
    pub title: Option<String>,
}

/// A Telegram user or bot.
#[derive(Debug, Clone, PartialEq, Eq)]
pub struct User {
    pub id: u64,
    pub is_bot: bool,
    pub first_name: String,
    pub last_name: Option<String>,
    pub username: Option<String>,
}

/// The bot itself.
#[derive(Debug, Clone, PartialEq, Eq)]
pub struct Me {
    pub user: User,
}

/// A message, with the parts of it the bot reads.
#[derive(Debug, Clone, PartialEq, Eq)]
pub struct Message {
    pub id: i32,
    pub chat: Chat,
    pub from: Option<User>,
    pub text: Option<String>,
    pub new_chat_members: Option<Vec<User>>,
    pub left_chat_member: Option<User>,
    pub new_chat_title: Option<String>,
    pub group_chat_created: bool,
}

/// A user's full name: the first name, then a space and the last name when
/// there is one.
pub open spec fn full_name_spec(u: &User) -> Seq<char> {
    match u.last_name {
        Some(last) => u.first_name@ + " "@ + last@,
        None => u.first_name@,
    }
}

/// The chat is a group or supergroup: neither private nor a channel.
pub open spec fn is_group_spec(msg: &Message) -> bool {
    msg.chat.kind != ChatKind::Private && msg.chat.kind != ChatKind::Channel
}

/// Telegram lists at least one user whenever a message reports new members.
pub open spec fn members_listed(msg: &Message) -> bool {
    msg.new_chat_members matches Some(users) ==> users@.len() > 0
}

/// The first of the new members is the bot.
pub open spec fn got_added_spec(msg: &Message, me: &Me) -> bool {
    msg.new_chat_members matches Some(users) && users@[0].id == me.user.id
}

/// The member who left is the bot.
pub open spec fn got_removed_spec(msg: &Message, me: &Me) -> bool {
    msg.left_chat_member matches Some(user) && user.id == me.user.id
}

impl User {
    /// The user's full name, as Telegram clients show it.
    pub fn full_name(&self) -> (r: String)
        ensures
            r@ == full_name_spec(self),
    {
        match &self.last_name {
            Some(last) => {
                let mut r = self.first_name.clone();
                r.append(" ");
                r.append(last.as_str());
                r
            },
            None => self.first_name.clone(),
        }
    }
}

/// The message was sent in a group or supergroup.
pub fn is_group_chat(msg: &Message) -> (r: bool)
    ensures
        r == is_group_spec(msg),
{
    if msg.chat.kind == ChatKind::Private || msg.chat.kind == ChatKind::Channel {
        return false;
    }
    true
}

/// The message was sent in a private chat or a channel.
pub fn is_not_group_chat(msg: &Message) -> (r: bool)
    ensures
        r == !is_group_spec(msg),
{
    !is_group_chat(msg)
}

/// The message reports that the bot itself was added to the chat.
pub fn i_got_added(msg: &Message, me: &Me) -> (r: bool)
    requires
        members_listed(msg),
    ensures
        r == got_added_spec(msg, me),
{
    match &msg.new_chat_members {
        Some(users) => users[0].id == me.user.id,
        None => false,
    }
}

/// The message reports that the bot itself left or was removed.
pub fn i_got_removed(msg: &Message, me: &Me) -> (r: bool)
    ensures
        r == got_removed_spec(msg, me),
{
    match &msg.left_chat_member {
        Some(user) => user.id == me.user.id,
        None => false,
    }
}

/// The message reports a new chat title.
pub fn group_title_change(msg: &Message) -> (r: bool)
    ensures
        r == msg.new_chat_title is Some,
{
    msg.new_chat_title.is_some()
}

} // verus!
