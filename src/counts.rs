//! Affectionate interaction totals between two members, and their rendering.
use vstd::prelude::*;
use crate::text::{decimal, join, join_all, push_decimal, views};

verus! {

/// Totals of the affectionate kinds between two members, both directions
/// together.
#[derive(Clone, Copy, Debug, PartialEq, Eq, Structural)]
pub struct CountedAction {
    pub cuddle: u32,
    pub handhold: u32,
    pub hug: u32,
    pub kiss: u32,
}

/// The line for one kind: nothing for zero, else the icon, the number and
/// the noun, singular for exactly one.
pub open spec fn count_line(n: nat, icon: Seq<char>, singular: Seq<char>, plural: Seq<char>) -> Seq<Seq<char>> {
    if n == 0 {
        Seq::empty()
    } else {
        seq![icon + " "@ + decimal(n) + " "@ + (if n == 1 { singular } else { plural })]
    }
}

impl CountedAction {
    /// The lines of the kinds with a non-zero total, in a fixed order.
    pub open spec fn lines(self) -> Seq<Seq<char>> {
        count_line(self.cuddle as nat, ":heart:"@, "cuddle"@, "cuddles"@)
            + count_line(self.handhold as nat, ":handshake:"@, "handhold"@, "handholds"@)
            + count_line(self.hug as nat, ":hugging:"@, "hug"@, "hugs"@)
            + count_line(self.kiss as nat, ":kissing_heart:"@, "kiss"@, "kisses"@)
    }

    /// The totals as text: one line per non-zero kind, or a notice that
    /// nothing was counted when every total is zero.
    pub open spec fn text(self) -> Seq<char> {
        if self.cuddle == 0 && self.handhold == 0 && self.hug == 0 && self.kiss == 0 {
            ":pensive: No counted actions..."@
        } else {
            join(self.lines(), "\n"@)
        }
    }

    pub fn to_string(&self) -> (r: String)
        ensures
            r@ == self.text(),
    {
        if self.cuddle == 0 && self.handhold == 0 && self.hug == 0 && self.kiss == 0 {
            let mut out = String::new();
            out.append(":pensive: No counted actions...");
            return out;
        }
        let mut lines: Vec<String> = Vec::new();
        push_line(&mut lines, self.cuddle, ":heart:", "cuddle", "cuddles");
        push_line(&mut lines, self.handhold, ":handshake:", "handhold", "handholds");
        push_line(&mut lines, self.hug, ":hugging:", "hug", "hugs");
        push_line(&mut lines, self.kiss, ":kissing_heart:", "kiss", "kisses");
        proof {
            assert(views(Seq::<String>::empty()) =~= Seq::<Seq<char>>::empty());
            assert(self.lines() =~= views(lines@));
        }
        join_all(&lines, "\n")
    }
}

fn push_line(lines: &mut Vec<String>, n: u32, icon: &str, singular: &str, plural: &str)
    ensures
        views(final(lines)@) == views(old(lines)@) + count_line(n as nat, icon@, singular@, plural@),
{
    if n > 0 {
        let mut line = String::new();
        line.append(icon);
        line.append(" ");
        push_decimal(&mut line, n as u64);
        line.append(" ");
        if n == 1 {
            line.append(singular);
        } else {
            line.append(plural);
        }
        lines.push(line);
    }
    assert(views(lines@) =~= views(old(lines)@) + count_line(n as nat, icon@, singular@, plural@));
}

} // verus!
