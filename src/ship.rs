//! The ship command: what each subcommand asks of the registry, and the
//! texts the bot answers with.
use vstd::prelude::*;
use crate::chance::now_millis;
use crate::registry::{age_millis, age_of, check_proposal, NotPaired, Proposal, ProposeError, Response, ShipReport, Verdict};
use crate::text::{humanized, humanize, mention, mention_of};

verus! {

pub enum ShipCommand {
    Create(ShipCreate),
    Rename(ShipRename),
    Show(ShipShow),
    Sink(ShipSink),
}

/// Propose a ship to `user`.
pub struct ShipCreate {
    pub user: u64,
}

pub struct ShipRename {
    pub name: String,
}

pub struct ShipShow {}

pub struct ShipSink {}

/// What a ship command comes to, given whether the member (and, for a
/// proposal, its target) holds a ship.
pub enum ShipStep {
    Refused(ProposeError),
    NotShipped,
    Propose(Proposal),
    Rename(String),
    Show,
    Sink,
}

impl ShipCommand {
    pub fn run(self, guild_id: u64, member_id: u64, member_paired: bool, target_paired: bool) -> (r: ShipStep)
        ensures
            self matches ShipCommand::Create(c) ==> {
                if member_paired {
                    r == ShipStep::Refused(ProposeError::ProposerPaired)
                } else if target_paired {
                    r == ShipStep::Refused(ProposeError::TargetPaired)
                } else {
                    r == ShipStep::Propose(Proposal { guild_id, proposer: member_id, proposee: c.user })
                }
            },
            !(self is Create) && !member_paired ==> r is NotShipped,
            self matches ShipCommand::Rename(c) ==> (member_paired ==> (r matches ShipStep::Rename(n) && n@ == c.name@)),
            self is Show && member_paired ==> r is Show,
            self is Sink && member_paired ==> r is Sink,
    {
        match self {
            ShipCommand::Create(ShipCreate { user }) => match check_proposal(member_paired, target_paired) {
                Ok(()) => ShipStep::Propose(Proposal { guild_id, proposer: member_id, proposee: user }),
                Err(e) => ShipStep::Refused(e),
            },
            ShipCommand::Rename(ShipRename { name }) => if member_paired { ShipStep::Rename(name) } else { ShipStep::NotShipped },
            ShipCommand::Show(_) => if member_paired { ShipStep::Show } else { ShipStep::NotShipped },
            ShipCommand::Sink(_) => if member_paired { ShipStep::Sink } else { ShipStep::NotShipped },
        }
    }
}

impl ProposeError {
    pub open spec fn text(self) -> Seq<char> {
        match self {
            ProposeError::ProposerPaired => "You are already shipped!"@,
            ProposeError::TargetPaired => "That person is already shipped!"@,
        }
    }

    pub fn message(&self) -> (r: &'static str)
        ensures
            r@ == self.text(),
    {
        match self {
            ProposeError::ProposerPaired => "You are already shipped!",
            ProposeError::TargetPaired => "That person is already shipped!",
        }
    }
}

impl NotPaired {
    pub open spec fn text(self) -> Seq<char> {
        "You are not shipped!"@
    }

    pub fn message(&self) -> (r: &'static str)
        ensures
            r@ == self.text(),
    {
        "You are not shipped!"
    }
}

/// The notice after a rename.
pub fn renamed_text() -> (r: &'static str)
    ensures
        r@ == "You have updated your ship name!"@,
{
    "You have updated your ship name!"
}

/// The notice after a dissolution.
pub fn sunk_text() -> (r: &'static str)
    ensures
        r@ == "You have sunk your ship!"@,
{
    "You have sunk your ship!"
}

/// The prompt that asks the proposee to accept or reject.
pub open spec fn prompt_of(proposee: u64, proposer_name: Seq<char>) -> Seq<char> {
    "Hey "@ + mention_of(proposee) + "! It looks like **"@ + proposer_name
        + "** wants to get it on... \u{1F60F} The choice is yours!"@
}

pub fn proposal_prompt(proposal: &Proposal, proposer_name: &str) -> (r: String)
    ensures
        r@ == prompt_of(proposal.proposee, proposer_name@),
{
    let mut out = String::new();
    out.append("Hey ");
    out.append(mention(proposal.proposee).as_str());
    out.append("! It looks like **");
    out.append(proposer_name);
    out.append("** wants to get it on... \u{1F60F} The choice is yours!");
    out
}

/// The reply to a press on the prompt; `proposer_name` is the name of the
/// member who proposed.
pub open spec fn verdict_text(verdict: Verdict, proposer_name: Seq<char>) -> Seq<char> {
    match verdict {
        Verdict::Accepted => ":tada: Congrats! Your ship has sailed! :tada:"@,
        Verdict::Declined => "**"@ + proposer_name + "** has sank the ship, it looks like it was never meant to be :pensive:"@,
        Verdict::Unauthorized => "This ship was not intended for you."@,
    }
}

pub fn verdict_message(verdict: Verdict, proposer_name: &str) -> (r: String)
    ensures
        r@ == verdict_text(verdict, proposer_name@),
{
    let mut out = String::new();
    match verdict {
        Verdict::Accepted => out.append(":tada: Congrats! Your ship has sailed! :tada:"),
        Verdict::Declined => {
            out.append("**");
            out.append(proposer_name);
            out.append("** has sank the ship, it looks like it was never meant to be :pensive:");
        },
        Verdict::Unauthorized => out.append("This ship was not intended for you."),
    }
    out
}

impl Response {
    /// The notice for an answer; a ship that could not be created because one
    /// of the two was paired meanwhile reads as the proposee being shipped.
    pub open spec fn text(self, proposer_name: Seq<char>) -> Seq<char> {
        match self {
            Response::Created => verdict_text(Verdict::Accepted, proposer_name),
            Response::Declined => verdict_text(Verdict::Declined, proposer_name),
            Response::Unauthorized => verdict_text(Verdict::Unauthorized, proposer_name),
            Response::AlreadyPaired => ProposeError::TargetPaired.text(),
        }
    }

    pub fn message(&self, proposer_name: &str) -> (r: String)
        ensures
            r@ == self.text(proposer_name@),
    {
        match self {
            Response::Created => verdict_message(Verdict::Accepted, proposer_name),
            Response::Declined => verdict_message(Verdict::Declined, proposer_name),
            Response::Unauthorized => verdict_message(Verdict::Unauthorized, proposer_name),
            Response::AlreadyPaired => {
                let mut out = String::new();
                out.append(ProposeError::TargetPaired.message());
                out
            },
        }
    }
}

/// The line that names both members of a ship.
pub open spec fn lovers_of(one: u64, two: u64) -> Seq<char> {
    mention_of(one) + " loves, and is loved by, "@ + mention_of(two)
}

pub fn lovers_line(one: u64, two: u64) -> (r: String)
    ensures
        r@ == lovers_of(one, two),
{
    let mut out = mention(one);
    out.append(" loves, and is loved by, ");
    out.append(mention(two).as_str());
    out
}

/// The title that names a ship.
pub open spec fn ship_title_of(name: Seq<char>) -> Seq<char> {
    "The \""@ + name + "\" ship"@
}

pub fn ship_title(name: &str) -> (r: String)
    ensures
        r@ == ship_title_of(name@),
{
    let mut out = String::new();
    out.append("The \"");
    out.append(name);
    out.append("\" ship");
    out
}

impl ShipReport {
    pub fn description(&self) -> (r: String)
        ensures
            r@ == lovers_of(self.ship.id_one, self.ship.id_two),
    {
        lovers_line(self.ship.id_one, self.ship.id_two)
    }

    pub fn title(&self) -> (r: String)
        ensures
            r@ == ship_title_of(self.ship.name@),
    {
        ship_title(self.ship.name.as_str())
    }

    pub fn duration(&self) -> (r: String)
        ensures
            r@ == humanized(self.age_ms as nat),
    {
        humanize(self.age_ms)
    }
}

/// The age, as of now, of a ship created at `created_at` (milliseconds since
/// the Unix epoch).
pub fn age_now(created_at: i64) -> (r: u64)
    ensures
        exists|now: i64| r == age_of(created_at, now),
{
    let now = now_millis();
    age_millis(created_at, now)
}

} // verus!
