//! The kinds of social interaction and the reply that one of them earns.
use vstd::prelude::*;
use crate::text::{decimal, mention, mention_of, push_decimal};

verus! {

/// A kind of social interaction that one member performs on another.
#[derive(Clone, Copy, Debug, PartialEq, Eq, Structural)]
pub enum Action {
    Bite,
    Cuddle,
    Handhold,
    Hug,
    Kill,
    Kiss,
    Pat,
    Pinch,
    Poke,
    Punch,
    Tickle,
}

impl Action {
    /// The verb phrase of the kind, as in "X bites you".
    pub open spec fn phrase(self) -> Seq<char> {
        match self {
            Action::Bite => "bites"@,
            Action::Cuddle => "cuddles"@,
            Action::Handhold => "holds hands with"@,
            Action::Hug => "hugs"@,
            Action::Kill => "kills"@,
            Action::Kiss => "kisses"@,
            Action::Pat => "pats"@,
            Action::Pinch => "pinches"@,
            Action::Poke => "pokes"@,
            Action::Punch => "punches"@,
            Action::Tickle => "tickles"@,
        }
    }

    /// The plural noun of the kind, as in "3 handholds".
    pub open spec fn plural(self) -> Seq<char> {
        match self {
            Action::Bite => "bites"@,
            Action::Cuddle => "cuddles"@,
            Action::Handhold => "handholds"@,
            Action::Hug => "hugs"@,
            Action::Kill => "kills"@,
            Action::Kiss => "kisses"@,
            Action::Pat => "pats"@,
            Action::Pinch => "pinches"@,
            Action::Poke => "pokes"@,
            Action::Punch => "punches"@,
            Action::Tickle => "tickles"@,
        }
    }

    /// The name of the kind: its command name and its column in the store.
    pub open spec fn name(self) -> Seq<char> {
        match self {
            Action::Bite => "bite"@,
            Action::Cuddle => "cuddle"@,
            Action::Handhold => "handhold"@,
            Action::Hug => "hug"@,
            Action::Kill => "kill"@,
            Action::Kiss => "kiss"@,
            Action::Pat => "pat"@,
            Action::Pinch => "pinch"@,
            Action::Poke => "poke"@,
            Action::Punch => "punch"@,
            Action::Tickle => "tickle"@,
        }
    }

    pub fn action_phrase(&self) -> (r: &'static str)
        ensures
            r@ == self.phrase(),
    {
        match self {
            Action::Bite => "bites",
            Action::Cuddle => "cuddles",
            Action::Handhold => "holds hands with",
            Action::Hug => "hugs",
            Action::Kill => "kills",
            Action::Kiss => "kisses",
            Action::Pat => "pats",
            Action::Pinch => "pinches",
            Action::Poke => "pokes",
            Action::Punch => "punches",
            Action::Tickle => "tickles",
        }
    }

    pub fn as_plural(&self) -> (r: &'static str)
        ensures
            r@ == self.plural(),
    {
        match self {
            Action::Bite => "bites",
            Action::Cuddle => "cuddles",
            Action::Handhold => "handholds",
            Action::Hug => "hugs",
            Action::Kill => "kills",
            Action::Kiss => "kisses",
            Action::Pat => "pats",
            Action::Pinch => "pinches",
            Action::Poke => "pokes",
            Action::Punch => "punches",
            Action::Tickle => "tickles",
        }
    }

    pub fn as_str(&self) -> (r: &'static str)
        ensures
            r@ == self.name(),
    {
        match self {
            Action::Bite => "bite",
            Action::Cuddle => "cuddle",
            Action::Handhold => "handhold",
            Action::Hug => "hug",
            Action::Kill => "kill",
            Action::Kiss => "kiss",
            Action::Pat => "pat",
            Action::Pinch => "pinch",
            Action::Poke => "poke",
            Action::Punch => "punch",
            Action::Tickle => "tickle",
        }
    }
}

/// The member an action is aimed at: the one chosen, or else the actor.
pub fn recipient_or_self(member_id: u64, chosen: Option<u64>) -> (r: u64)
    ensures
        r == match chosen {
            Some(id) => id,
            None => member_id,
        },
{
    match chosen {
        Some(id) => id,
        None => member_id,
    }
}

/// The address that serves a picture for an action kind.
pub open spec fn gif_uri_of(action: Action) -> Seq<char> {
    "https://api.otakugifs.xyz/gif?reaction="@ + action.name()
}

pub fn gif_request_uri(action: Action) -> (r: String)
    ensures
        r@ == gif_uri_of(action),
{
    let mut out = String::new();
    out.append("https://api.otakugifs.xyz/gif?reaction=");
    out.append(action.as_str());
    out
}

/// What the bot answers when a member performs an action.
pub struct ActionReply {
    /// A mention that notifies the recipient; none for a self-action.
    pub content: Option<String>,
    pub description: String,
    pub footer: String,
}

/// The description line: "*<@A> bites you!*", or "*<@A> bites themselves!*".
pub open spec fn action_description(member_id: u64, recipient_id: u64, action: Action) -> Seq<char> {
    if member_id == recipient_id {
        "*"@ + mention_of(member_id) + " "@ + action.plural() + " themselves!*"@
    } else {
        "*"@ + mention_of(member_id) + " "@ + action.phrase() + " you!*"@
    }
}

/// The footer line, which tells the count after this action.
pub open spec fn action_footer(member_id: u64, recipient_id: u64, action: Action, count: u16) -> Seq<char> {
    if count == 1 {
        if member_id == recipient_id {
            "That's your first "@ + action.name() + " from yourself!"@
        } else {
            "That's their first "@ + action.name() + " from you!"@
        }
    } else {
        "That's "@ + decimal(count as nat) + " "@ + action.plural() + " now!"@
    }
}

/// The reply to `member_id` performing `action` on `recipient_id`, which
/// brought the directional count to `count`.
pub fn action_reply(member_id: u64, recipient_id: u64, action: Action, count: u16) -> (r: ActionReply)
    ensures
        r.content is None <==> member_id == recipient_id,
        r.content matches Some(c) ==> c@ == mention_of(recipient_id),
        r.description@ == action_description(member_id, recipient_id, action),
        r.footer@ == action_footer(member_id, recipient_id, action, count),
{
    let is_self = member_id == recipient_id;
    let content = if is_self { None } else { Some(mention(recipient_id)) };

    let mut description = String::new();
    description.append("*");
    description.append(mention(member_id).as_str());
    description.append(" ");
    if is_self {
        description.append(action.as_plural());
        description.append(" themselves!*");
    } else {
        description.append(action.action_phrase());
        description.append(" you!*");
    }

    let mut footer = String::new();
    if count == 1 {
        if is_self {
            footer.append("That's your first ");
            footer.append(action.as_str());
            footer.append(" from yourself!");
        } else {
            footer.append("That's their first ");
            footer.append(action.as_str());
            footer.append(" from you!");
        }
    } else {
        footer.append("That's ");
        push_decimal(&mut footer, count as u64);
        footer.append(" ");
        footer.append(action.as_plural());
        footer.append(" now!");
    }
    ActionReply { content, description, footer }
}

} // verus!
