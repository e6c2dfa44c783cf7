//! The chance commands: the magic eight ball, ratings and fights.
use vstd::prelude::*;
use crate::chance::random_below;
use crate::text::{decimal, push_decimal};

verus! {

/// Ask the eight ball a question.
pub struct EightBallCommand {
    pub question: String,
}

/// The number of answers the eight ball knows.
pub const EIGHT_BALL_ANSWERS: usize = 20;

/// The eight ball's answer with the given index.
pub open spec fn eight_ball_answer(i: int) -> Seq<char> {
    if i == 0 { "As I see it, yes."@ }
    else if i == 1 { "Ask again later."@ }
    else if i == 2 { "Better not tell you now."@ }
    else if i == 3 { "Cannot predict now."@ }
    else if i == 4 { "Concentrate and ask again."@ }
    else if i == 5 { "Don't count on it."@ }
    else if i == 6 { "It is certain."@ }
    else if i == 7 { "It is decidedly so."@ }
    else if i == 8 { "Most likely."@ }
    else if i == 9 { "My reply is no."@ }
    else if i == 10 { "My sources say no."@ }
    else if i == 11 { "Outlook good."@ }
    else if i == 12 { "Outlook not so good."@ }
    else if i == 13 { "Reply hazy, try again."@ }
    else if i == 14 { "Signs point to yes."@ }
    else if i == 15 { "Very doubtful."@ }
    else if i == 16 { "Without a doubt."@ }
    else if i == 17 { "Yes, definitely."@ }
    else if i == 18 { "Yes."@ }
    else { "You may rely on it."@ }
}

fn answer_at(i: usize) -> (r: &'static str)
    requires
        i < EIGHT_BALL_ANSWERS,
    ensures
        r@ == eight_ball_answer(i as int),
{
    if i == 0 { "As I see it, yes." }
    else if i == 1 { "Ask again later." }
    else if i == 2 { "Better not tell you now." }
    else if i == 3 { "Cannot predict now." }
    else if i == 4 { "Concentrate and ask again." }
    else if i == 5 { "Don't count on it." }
    else if i == 6 { "It is certain." }
    else if i == 7 { "It is decidedly so." }
    else if i == 8 { "Most likely." }
    else if i == 9 { "My reply is no." }
    else if i == 10 { "My sources say no." }
    else if i == 11 { "Outlook good." }
    else if i == 12 { "Outlook not so good." }
    else if i == 13 { "Reply hazy, try again." }
    else if i == 14 { "Signs point to yes." }
    else if i == 15 { "Very doubtful." }
    else if i == 16 { "Without a doubt." }
    else if i == 17 { "Yes, definitely." }
    else if i == 18 { "Yes." }
    else { "You may rely on it." }
}

impl EightBallCommand {
    /// The reply that quotes the question and gives answer `i`.
    pub open spec fn reply_text(&self, i: int) -> Seq<char> {
        "**Q:** "@ + self.question@ + "\n**A:** "@ + eight_ball_answer(i)
    }

    pub fn reply(&self, index: usize) -> (r: String)
        requires
            index < EIGHT_BALL_ANSWERS,
        ensures
            r@ == self.reply_text(index as int),
    {
        let mut out = String::new();
        out.append("**Q:** ");
        out.append(self.question.as_str());
        out.append("\n**A:** ");
        out.append(answer_at(index));
        out
    }

    /// Answers the question with an answer drawn at random.
    pub fn run(&self) -> (r: String)
        ensures
            exists|i: int| 0 <= i < EIGHT_BALL_ANSWERS && r@ == self.reply_text(i),
    {
        let index = random_below(EIGHT_BALL_ANSWERS);
        self.reply(index)
    }
}

/// Ask for a rating of something.
pub struct RateCommand {
    pub query: String,
}

impl RateCommand {
    pub open spec fn reply_text(&self, rating: nat) -> Seq<char> {
        ":thinking: Hmm.. I rate **"@ + self.query@ + "** a "@ + decimal(rating) + "/10! :heart:"@
    }

    pub fn reply(&self, rating: u64) -> (r: String)
        ensures
            r@ == self.reply_text(rating as nat),
    {
        let mut out = String::new();
        out.append(":thinking: Hmm.. I rate **");
        out.append(self.query.as_str());
        out.append("** a ");
        push_decimal(&mut out, rating);
        out.append("/10! :heart:");
        out
    }

    /// Rates the query with a number from zero to nine drawn at random.
    pub fn run(&self) -> (r: String)
        ensures
            exists|rating: nat| rating < 10 && r@ == self.reply_text(rating),
    {
        let rating = random_below(10);
        self.reply(rating as u64)
    }
}

/// Challenge another member to a fight.
pub struct KillCommand {
    pub target_id: u64,
    pub target_name: String,
}

/// The number of ways a fight can go.
pub const FIGHT_ENDINGS: usize = 8;

pub const COLOR_DRAW: u32 = 0xE9CA00;
pub const COLOR_WIN: u32 = 0x2FE900;
pub const COLOR_LOSS: u32 = 0xDE4343;

/// The text of ending `i` before the target's name.
pub open spec fn ending_before(i: int) -> Seq<char> {
    if i == 0 { ":axe: *You drop your axe mid-swing, **"@ }
    else if i == 1 { ":axe: *You swing your axe at **"@ }
    else if i == 2 { ":bow_and_arrow: *You aim your bow, but **"@ }
    else if i == 3 { ":bow_and_arrow: *You shoot at **"@ }
    else if i == 4 { ":boxing_glove: *You challenge **"@ }
    else if i == 5 { ":dagger: *You brought a knife to a bowfight, but **"@ }
    else if i == 6 { ":dagger: *You stab **"@ }
    else { ":knife: *You lunge at **"@ }
}

/// The text of ending `i` after the target's name.
pub open spec fn ending_after(i: int) -> Seq<char> {
    if i == 0 { "** looks at you in shame.*"@ }
    else if i == 1 { "** slicing them in half.*"@ }
    else if i == 2 { "** wounds you first!*"@ }
    else if i == 3 { "** piercing them with an arrow!*"@ }
    else if i == 4 { "** still lose...*"@ }
    else if i == 5 { "** takes you out.*"@ }
    else if i == 6 { "** in the back of the heart.*"@ }
    else { "** but clearly misjudged the distance.*"@ }
}

/// Who wins ending `i`: the challenger (`Some(true)`), the target
/// (`Some(false)`), or nobody.
pub open spec fn ending_winner(i: int) -> Option<bool> {
    if i == 1 || i == 3 || i == 6 {
        Some(true)
    } else if i == 2 || i == 4 || i == 5 {
        Some(false)
    } else {
        None
    }
}

fn ending_texts(i: usize) -> (r: (&'static str, &'static str))
    requires
        i < FIGHT_ENDINGS,
    ensures
        r.0@ == ending_before(i as int),
        r.1@ == ending_after(i as int),
{
    if i == 0 { (":axe: *You drop your axe mid-swing, **", "** looks at you in shame.*") }
    else if i == 1 { (":axe: *You swing your axe at **", "** slicing them in half.*") }
    else if i == 2 { (":bow_and_arrow: *You aim your bow, but **", "** wounds you first!*") }
    else if i == 3 { (":bow_and_arrow: *You shoot at **", "** piercing them with an arrow!*") }
    else if i == 4 { (":boxing_glove: *You challenge **", "** still lose...*") }
    else if i == 5 { (":dagger: *You brought a knife to a bowfight, but **", "** takes you out.*") }
    else if i == 6 { (":dagger: *You stab **", "** in the back of the heart.*") }
    else { (":knife: *You lunge at **", "** but clearly misjudged the distance.*") }
}

/// How a fight ended.
pub struct FightOutcome {
    pub description: String,
    /// The kill to record, killer first; none for a draw.
    pub kill: Option<(u64, u64)>,
    pub color: u32,
}

impl KillCommand {
    /// The description of ending `i` of a fight against this target.
    pub open spec fn ending_text(&self, i: int) -> Seq<char> {
        ending_before(i) + self.target_name@ + ending_after(i)
    }

    /// Ending `i` of a fight between `member_id` and this target.
    pub open spec fn is_ending(&self, member_id: u64, i: int, r: FightOutcome) -> bool {
        &&& r.description@ == self.ending_text(i)
        &&& r.kill == match ending_winner(i) {
            Some(true) => Some((member_id, self.target_id)),
            Some(false) => Some((self.target_id, member_id)),
            None => None::<(u64, u64)>,
        }
        &&& r.color == match ending_winner(i) {
            Some(true) => COLOR_WIN,
            Some(false) => COLOR_LOSS,
            None => COLOR_DRAW,
        }
    }

    pub fn ending(&self, member_id: u64, index: usize) -> (r: FightOutcome)
        requires
            index < FIGHT_ENDINGS,
        ensures
            self.is_ending(member_id, index as int, r),
    {
        let (before, after) = ending_texts(index);
        let mut description = String::new();
        description.append(before);
        description.append(self.target_name.as_str());
        description.append(after);
        if index == 1 || index == 3 || index == 6 {
            FightOutcome { description, kill: Some((member_id, self.target_id)), color: COLOR_WIN }
        } else if index == 2 || index == 4 || index == 5 {
            FightOutcome { description, kill: Some((self.target_id, member_id)), color: COLOR_LOSS }
        } else {
            FightOutcome { description, kill: None, color: COLOR_DRAW }
        }
    }

    /// Fights: nothing happens when the member targets themself; otherwise
    /// the ending is drawn at random.
    pub fn run(&self, member_id: u64) -> (r: Option<FightOutcome>)
        ensures
            r is None <==> member_id == self.target_id,
            r matches Some(o) ==> exists|i: int| 0 <= i < FIGHT_ENDINGS && self.is_ending(member_id, i, o),
    {
        if member_id == self.target_id {
            return None;
        }
        let index = random_below(FIGHT_ENDINGS);
        Some(self.ending(member_id, index))
    }
}

/// What the bot says when a member targets themself.
pub open spec fn change_of_mind() -> Seq<char> {
    ":heart: You changed your mind."@
}

pub fn change_of_mind_text() -> (r: &'static str)
    ensures
        r@ == change_of_mind(),
{
    ":heart: You changed your mind."
}

/// The title of a fight: both names with their kill counts against each other.
pub open spec fn fight_title(member_kills: nat, member_name: Seq<char>, target_name: Seq<char>, target_kills: nat) -> Seq<char> {
    "("@ + decimal(member_kills) + ") "@ + member_name + " :crossed_swords: "@ + target_name + " ("@
        + decimal(target_kills) + ")"@
}

pub fn kill_title(member_kills: u16, member_name: &str, target_name: &str, target_kills: u16) -> (r: String)
    ensures
        r@ == fight_title(member_kills as nat, member_name@, target_name@, target_kills as nat),
{
    let mut out = String::new();
    out.append("(");
    push_decimal(&mut out, member_kills as u64);
    out.append(") ");
    out.append(member_name);
    out.append(" :crossed_swords: ");
    out.append(target_name);
    out.append(" (");
    push_decimal(&mut out, target_kills as u64);
    out.append(")");
    out
}

} // verus!
