//! The bio command: a short text a member keeps about themself.
use vstd::prelude::*;

verus! {

/// The longest bio that is kept, in characters.
pub const BIO_MAX_CHARS: usize = 250;

pub enum BioCommand {
    Clear(BioClear),
    Update(BioSet),
    Show(BioShow),
}

pub struct BioClear {}

pub struct BioSet {
    pub bio: String,
}

pub struct BioShow {}

/// What a bio command asks of the store.
pub enum BioStep {
    Clear,
    Store(String),
    /// The bio is too long and is not stored.
    TooLong,
    Show,
}

impl BioCommand {
    pub fn run(self) -> (r: BioStep)
        ensures
            self is Clear ==> r is Clear,
            self is Show ==> r is Show,
            self matches BioCommand::Update(s) ==> {
                if s.bio@.len() > BIO_MAX_CHARS {
                    r is TooLong
                } else {
                    r matches BioStep::Store(b) && b@ == s.bio@
                }
            },
    {
        match self {
            BioCommand::Clear(_) => BioStep::Clear,
            BioCommand::Show(_) => BioStep::Show,
            BioCommand::Update(BioSet { bio }) => {
                if bio.as_str().unicode_len() > BIO_MAX_CHARS {
                    BioStep::TooLong
                } else {
                    BioStep::Store(bio)
                }
            },
        }
    }
}

impl BioStep {
    /// The notice that confirms a change, or refuses it; none for showing.
    pub open spec fn notice_text(&self) -> Option<Seq<char>> {
        match self {
            BioStep::Clear => Some("Bio cleared!"@),
            BioStep::Store(_) => Some("Bio set!"@),
            BioStep::TooLong => Some("Bio must be fewer than 250 characters!"@),
            BioStep::Show => None,
        }
    }

    pub fn notice(&self) -> (r: Option<&'static str>)
        ensures
            r matches Some(t) ==> self.notice_text() == Some(t@),
            r is None ==> self.notice_text() is None,
    {
        match self {
            BioStep::Clear => Some("Bio cleared!"),
            BioStep::Store(_) => Some("Bio set!"),
            BioStep::TooLong => Some("Bio must be fewer than 250 characters!"),
            BioStep::Show => None,
        }
    }
}

/// How a stored bio is shown: in a code block, or a notice that there is none.
pub open spec fn bio_display(bio: Option<Seq<char>>) -> Seq<char> {
    match bio {
        Some(b) => "```"@ + b + "```"@,
        None => "No bio set..."@,
    }
}

pub fn bio_text(bio: Option<&str>) -> (r: String)
    ensures
        r@ == bio_display(match bio {
            Some(b) => Some(b@),
            None => None,
        }),
{
    let mut out = String::new();
    match bio {
        Some(b) => {
            out.append("```");
            out.append(b);
            out.append("```");
        },
        None => {
            out.append("No bio set...");
        },
    }
    out
}

} // verus!
