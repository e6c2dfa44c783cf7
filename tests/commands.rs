use aurora::bio::{bio_text, BioClear, BioCommand, BioSet, BioShow, BioStep};
use aurora::games::{change_of_mind_text, kill_title, EightBallCommand, KillCommand, RateCommand, COLOR_DRAW, COLOR_LOSS, COLOR_WIN};
use aurora::registry::{NotPaired, Proposal, ProposeError, Response, Verdict};
use aurora::router::{failure_text, is_production, is_production_lowered, registered_actions, route, unknown_command_text, Route};
use aurora::settings::{Module, RoleKind};
use aurora::ship::{age_now, proposal_prompt, verdict_message, ShipCommand, ShipCreate, ShipRename, ShipShow, ShipSink, ShipStep};
use aurora::action::Action;

#[test]
fn bio_steps() {
    assert!(matches!(BioCommand::Clear(BioClear {}).run(), BioStep::Clear));
    assert!(matches!(BioCommand::Show(BioShow {}).run(), BioStep::Show));
    match BioCommand::Update(BioSet { bio: "hello".to_string() }).run() {
        BioStep::Store(b) => assert_eq!(b, "hello"),
        _ => panic!("expected the bio to be stored"),
    }
}

#[test]
fn bio_length_limit_in_characters() {
    let at_limit = "\u{e9}".repeat(250);
    assert!(matches!(BioCommand::Update(BioSet { bio: at_limit }).run(), BioStep::Store(_)));
    let over = "a".repeat(251);
    let step = BioCommand::Update(BioSet { bio: over }).run();
    assert!(matches!(step, BioStep::TooLong));
    assert_eq!(step.notice(), Some("Bio must be fewer than 250 characters!"));
}

#[test]
fn bio_notices_and_display() {
    assert_eq!(BioStep::Clear.notice(), Some("Bio cleared!"));
    assert_eq!(BioStep::Store("x".to_string()).notice(), Some("Bio set!"));
    assert_eq!(BioStep::Show.notice(), None);
    assert_eq!(bio_text(Some("I like cats")), "```I like cats```");
    assert_eq!(bio_text(None), "No bio set...");
}

#[test]
fn eight_ball_reply() {
    let q = EightBallCommand { question: "Will it rain?".to_string() };
    assert_eq!(q.reply(0), "**Q:** Will it rain?\n**A:** As I see it, yes.");
    assert_eq!(q.reply(19), "**Q:** Will it rain?\n**A:** You may rely on it.");
    let answers: Vec<String> = (0..20).map(|i| q.reply(i)).collect();
    for _ in 0..50 {
        assert!(answers.contains(&q.run()));
    }
}

#[test]
fn rate_reply() {
    let r = RateCommand { query: "pizza".to_string() };
    assert_eq!(r.reply(7), ":thinking: Hmm.. I rate **pizza** a 7/10! :heart:");
    let ratings: Vec<String> = (0..10).map(|i| r.reply(i)).collect();
    for _ in 0..50 {
        assert!(ratings.contains(&r.run()));
    }
}

#[test]
fn fight_endings() {
    let k = KillCommand { target_id: 2, target_name: "Bob".to_string() };
    let win = k.ending(1, 1);
    assert_eq!(win.description, ":axe: *You swing your axe at **Bob** slicing them in half.*");
    assert_eq!(win.kill, Some((1, 2)));
    assert_eq!(win.color, COLOR_WIN);
    let loss = k.ending(1, 4);
    assert_eq!(loss.description, ":boxing_glove: *You challenge **Bob** still lose...*");
    assert_eq!(loss.kill, Some((2, 1)));
    assert_eq!(loss.color, COLOR_LOSS);
    let draw = k.ending(1, 7);
    assert_eq!(draw.description, ":knife: *You lunge at **Bob** but clearly misjudged the distance.*");
    assert_eq!(draw.kill, None);
    assert_eq!(draw.color, COLOR_DRAW);
}

#[test]
fn fight_against_self_and_others() {
    let k = KillCommand { target_id: 2, target_name: "Bob".to_string() };
    assert!(k.run(2).is_none());
    assert_eq!(change_of_mind_text(), ":heart: You changed your mind.");
    for _ in 0..30 {
        let o = k.run(1).unwrap();
        assert!(o.description.contains("**Bob**"));
        match o.kill {
            Some(pair) => assert!(pair == (1, 2) || pair == (2, 1)),
            None => assert_eq!(o.color, COLOR_DRAW),
        }
    }
}

#[test]
fn fight_title_text() {
    assert_eq!(kill_title(3, "Ann", "Bob", 0), "(3) Ann :crossed_swords: Bob (0)");
}

#[test]
fn ship_steps() {
    let create = ShipCommand::Create(ShipCreate { user: 9 });
    assert!(matches!(create.run(1, 5, true, false), ShipStep::Refused(ProposeError::ProposerPaired)));
    let create = ShipCommand::Create(ShipCreate { user: 9 });
    assert!(matches!(create.run(1, 5, false, true), ShipStep::Refused(ProposeError::TargetPaired)));
    let create = ShipCommand::Create(ShipCreate { user: 9 });
    match create.run(1, 5, false, false) {
        ShipStep::Propose(p) => assert_eq!(p, Proposal { guild_id: 1, proposer: 5, proposee: 9 }),
        _ => panic!("expected a proposal"),
    }
    assert!(matches!(ShipCommand::Show(ShipShow {}).run(1, 5, false, false), ShipStep::NotShipped));
    assert!(matches!(ShipCommand::Sink(ShipSink {}).run(1, 5, true, false), ShipStep::Sink));
    match ShipCommand::Rename(ShipRename { name: "Ark".to_string() }).run(1, 5, true, false) {
        ShipStep::Rename(n) => assert_eq!(n, "Ark"),
        _ => panic!("expected a rename"),
    }
}

#[test]
fn ship_texts() {
    let p = Proposal { guild_id: 1, proposer: 5, proposee: 9 };
    assert_eq!(
        proposal_prompt(&p, "Ann"),
        "Hey <@9>! It looks like **Ann** wants to get it on... \u{1F60F} The choice is yours!"
    );
    assert_eq!(verdict_message(Verdict::Accepted, "Ann"), ":tada: Congrats! Your ship has sailed! :tada:");
    assert_eq!(
        verdict_message(Verdict::Declined, "Ann"),
        "**Ann** has sank the ship, it looks like it was never meant to be :pensive:"
    );
    assert_eq!(verdict_message(Verdict::Unauthorized, "Ann"), "This ship was not intended for you.");
    assert_eq!(Response::AlreadyPaired.message("Ann"), "That person is already shipped!");
    assert_eq!(ProposeError::ProposerPaired.message(), "You are already shipped!");
    assert_eq!(NotPaired.message(), "You are not shipped!");
}

#[test]
fn age_now_is_from_the_past() {
    assert_eq!(age_now(i64::MAX), 0);
    assert!(age_now(0) > 1_600_000_000_000);
}

#[test]
fn routes() {
    assert_eq!(route("bio"), Route::Bio);
    assert_eq!(route("handhold"), Route::Act(Action::Handhold));
    assert_eq!(route("kill"), Route::Kill);
    assert_eq!(route("hug"), Route::Unknown);
    assert_eq!(route("8ball"), Route::Unknown);
    assert_eq!(route("Ship"), Route::Unknown);
    assert_eq!(route("ship"), Route::Ship);
    assert_eq!(route("tickle"), Route::Act(Action::Tickle));
    assert_eq!(unknown_command_text("dance"), "Received unknown command \"dance\"");
    assert_eq!(failure_text(), "Unable to process command");
}

#[test]
fn registered_commands() {
    let r = registered_actions();
    assert_eq!(r.len(), 9);
    assert!(!r.contains(&Action::Hug));
    assert_eq!(Action::Poke.description(), Some("\u{1F449}"));
    assert_eq!(Action::Hug.description(), None);
}

#[test]
fn production_environment() {
    assert!(is_production("PRODUCTION"));
    assert!(is_production("Production"));
    assert!(!is_production("development"));
    assert!(is_production_lowered("production"));
    assert!(!is_production_lowered("Production"));
}

#[test]
fn setting_names() {
    assert_eq!(RoleKind::Message.as_str(), "message");
    assert_eq!(RoleKind::from_name("message"), RoleKind::Message);
    assert_eq!(RoleKind::from_name("anything"), RoleKind::Voice);
    assert_eq!(Module::SharedRoles.as_str(), "shared_roles");
    assert_eq!(Module::from_name("levels"), Module::Levels);
    assert_eq!(Module::from_name("actions"), Module::Actions);
    assert_eq!(Module::from_name("other"), Module::SharedRoles);
}
