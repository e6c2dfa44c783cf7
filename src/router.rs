//! Which handler a slash command goes to, and which commands are registered.
use vstd::prelude::*;
use crate::action::Action;
use crate::text::same_text;

verus! {

/// The handler of a command.
#[derive(Clone, Copy, Debug, PartialEq, Eq, Structural)]
pub enum Route {
    Bio,
    Act(Action),
    Kill,
    Rate,
    Ship,
    Unknown,
}

/// The handler for the command called `name`. Of the action kinds, hugs
/// have no command, and kills go to the fight.
pub open spec fn route_of(name: Seq<char>) -> Route {
    if name == "bio"@ { Route::Bio }
    else if name == "bite"@ { Route::Act(Action::Bite) }
    else if name == "cuddle"@ { Route::Act(Action::Cuddle) }
    else if name == "handhold"@ { Route::Act(Action::Handhold) }
    else if name == "kill"@ { Route::Kill }
    else if name == "kiss"@ { Route::Act(Action::Kiss) }
    else if name == "pat"@ { Route::Act(Action::Pat) }
    else if name == "pinch"@ { Route::Act(Action::Pinch) }
    else if name == "poke"@ { Route::Act(Action::Poke) }
    else if name == "rate"@ { Route::Rate }
    else if name == "ship"@ { Route::Ship }
    else if name == "punch"@ { Route::Act(Action::Punch) }
    else if name == "tickle"@ { Route::Act(Action::Tickle) }
    else { Route::Unknown }
}

pub fn route(name: &str) -> (r: Route)
    ensures
        r == route_of(name@),
{
    if same_text(name, "bio") { Route::Bio }
    else if same_text(name, "bite") { Route::Act(Action::Bite) }
    else if same_text(name, "cuddle") { Route::Act(Action::Cuddle) }
    else if same_text(name, "handhold") { Route::Act(Action::Handhold) }
    else if same_text(name, "kill") { Route::Kill }
    else if same_text(name, "kiss") { Route::Act(Action::Kiss) }
    else if same_text(name, "pat") { Route::Act(Action::Pat) }
    else if same_text(name, "pinch") { Route::Act(Action::Pinch) }
    else if same_text(name, "poke") { Route::Act(Action::Poke) }
    else if same_text(name, "rate") { Route::Rate }
    else if same_text(name, "ship") { Route::Ship }
    else if same_text(name, "punch") { Route::Act(Action::Punch) }
    else if same_text(name, "tickle") { Route::Act(Action::Tickle) }
    else { Route::Unknown }
}

/// The notice for a command that has no handler.
pub open spec fn unknown_command_of(name: Seq<char>) -> Seq<char> {
    "Received unknown command \""@ + name + "\""@
}

pub fn unknown_command_text(name: &str) -> (r: String)
    ensures
        r@ == unknown_command_of(name@),
{
    let mut out = String::new();
    out.append("Received unknown command \"");
    out.append(name);
    out.append("\"");
    out
}

/// The notice for a command whose handler failed.
pub fn failure_text() -> (r: &'static str)
    ensures
        r@ == "Unable to process command"@,
{
    "Unable to process command"
}

/// The action kinds that are registered as commands of their own, in order.
pub open spec fn action_commands() -> Seq<Action> {
    seq![
        Action::Bite,
        Action::Cuddle,
        Action::Handhold,
        Action::Kiss,
        Action::Pat,
        Action::Pinch,
        Action::Poke,
        Action::Punch,
        Action::Tickle,
    ]
}

pub fn registered_actions() -> (r: Vec<Action>)
    ensures
        r@ == action_commands(),
{
    let r = vec![
        Action::Bite,
        Action::Cuddle,
        Action::Handhold,
        Action::Kiss,
        Action::Pat,
        Action::Pinch,
        Action::Poke,
        Action::Punch,
        Action::Tickle,
    ];
    assert(r@ =~= action_commands());
    r
}

impl Action {
    /// The description of the kind's command; none for kinds without one.
    pub open spec fn command_description(self) -> Option<Seq<char>> {
        match self {
            Action::Bite => Some("30% chance to flinch the target"@),
            Action::Cuddle => Some("Big spoon or little spoon?"@),
            Action::Handhold => Some("In case your hand gets lonely..."@),
            Action::Kiss => Some("ALL THE PDA!!!"@),
            Action::Pat => Some(":3"@),
            Action::Pinch => Some("Grab those other cheeks ;)"@),
            Action::Poke => Some("\u{1F449}"@),
            Action::Punch => Some("For when someone needs to be knocked out"@),
            Action::Tickle => Some("You know what this is..."@),
            Action::Hug => None,
            Action::Kill => None,
        }
    }

    pub fn description(&self) -> (r: Option<&'static str>)
        ensures
            r matches Some(t) ==> self.command_description() == Some(t@),
            r is None ==> self.command_description() is None,
    {
        match self {
            Action::Bite => Some("30% chance to flinch the target"),
            Action::Cuddle => Some("Big spoon or little spoon?"),
            Action::Handhold => Some("In case your hand gets lonely..."),
            Action::Kiss => Some("ALL THE PDA!!!"),
            Action::Pat => Some(":3"),
            Action::Pinch => Some("Grab those other cheeks ;)"),
            Action::Poke => Some("\u{1F449}"),
            Action::Punch => Some("For when someone needs to be knocked out"),
            Action::Tickle => Some("You know what this is..."),
            Action::Hug => None,
            Action::Kill => None,
        }
    }
}

/// The lowercase form of a text, as `str::to_lowercase` computes it.
pub uninterp spec fn lower_of(s: Seq<char>) -> Seq<char>;

/// Relies on `str::to_lowercase`: the lowercase mapping of the text, which
/// depends on its characters alone.
#[verifier::external_body]
fn lowercase(s: &str) -> (r: String)
    ensures
        r@ == lower_of(s@),
{
    s.to_lowercase()
}

/// Whether an environment name, already lowercased, names production, where
/// commands are registered globally rather than for a development tenant.
pub fn is_production_lowered(lowered: &str) -> (r: bool)
    ensures
        r == (lowered@ == "production"@),
{
    same_text(lowered, "production")
}

/// Whether an environment name names production, in any case.
pub fn is_production(environment: &str) -> (r: bool)
    ensures
        r == (lower_of(environment@) == "production"@),
{
    let lowered = lowercase(environment);
    is_production_lowered(lowered.as_str())
}

} // verus!
