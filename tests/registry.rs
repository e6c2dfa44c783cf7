use aurora::action::Action;
use aurora::counts::CountedAction;
use aurora::ledger::Ledger;
use aurora::registry::{
    age_millis, check_proposal, judge, Conflict, Decision, NotPaired, Proposal, ProposeError, Registry, Response, Verdict,
};

#[test]
fn handshake_creates_ship_then_refuses_proposer() {
    let mut reg = Registry::new();
    let p = reg.propose(1, 101, 102).unwrap();
    assert_eq!(p, Proposal { guild_id: 1, proposer: 101, proposee: 102 });
    assert_eq!(reg.respond(&p, 102, Decision::Accept, 5_000), Response::Created);
    let ship = reg.read_ship(1, 101).unwrap();
    assert_eq!((ship.guild_id, ship.id_one, ship.id_two), (1, 101, 102));
    assert_eq!(ship.name, "Bluenose");
    assert_eq!(ship.created_at, 5_000);
    assert_eq!(reg.propose(1, 101, 103), Err(ProposeError::ProposerPaired));
}

#[test]
fn proposal_to_paired_member_is_refused() {
    let mut reg = Registry::new();
    assert_eq!(reg.create_ship(1, 101, 102, 0), Ok(()));
    assert_eq!(reg.propose(1, 103, 102), Err(ProposeError::TargetPaired));
    assert!(reg.propose(2, 103, 102).is_ok());
}

#[test]
fn second_ship_for_member_fails_and_keeps_first() {
    let mut reg = Registry::new();
    assert_eq!(reg.create_ship(1, 101, 102, 0), Ok(()));
    assert_eq!(reg.create_ship(1, 103, 101, 9), Err(Conflict));
    assert_eq!(reg.create_ship(1, 102, 104, 9), Err(Conflict));
    let ship = reg.read_ship(1, 102).unwrap();
    assert_eq!((ship.id_one, ship.id_two, ship.created_at), (101, 102, 0));
    assert!(reg.read_ship(1, 103).is_none());
}

#[test]
fn accept_after_someone_else_paired_fails() {
    let mut reg = Registry::new();
    let p = reg.propose(1, 101, 102).unwrap();
    assert_eq!(reg.create_ship(1, 102, 103, 0), Ok(()));
    assert_eq!(reg.respond(&p, 102, Decision::Accept, 1), Response::AlreadyPaired);
    assert!(reg.read_ship(1, 101).is_none());
}

#[test]
fn only_the_proposee_may_answer() {
    let mut reg = Registry::new();
    let p = reg.propose(1, 101, 102).unwrap();
    assert_eq!(reg.respond(&p, 103, Decision::Accept, 1), Response::Unauthorized);
    assert_eq!(reg.respond(&p, 101, Decision::Accept, 1), Response::Unauthorized);
    assert_eq!(reg.respond(&p, 103, Decision::Reject, 1), Response::Unauthorized);
    assert!(reg.read_ship(1, 101).is_none());
    assert!(reg.read_ship(1, 102).is_none());
}

#[test]
fn rejection_creates_nothing() {
    let mut reg = Registry::new();
    let p = reg.propose(1, 101, 102).unwrap();
    assert_eq!(reg.respond(&p, 102, Decision::Reject, 1), Response::Declined);
    assert!(reg.read_ship(1, 102).is_none());
}

#[test]
fn judge_and_check() {
    let p = Proposal { guild_id: 1, proposer: 2, proposee: 3 };
    assert_eq!(judge(&p, 3, Decision::Accept), Verdict::Accepted);
    assert_eq!(judge(&p, 3, Decision::Reject), Verdict::Declined);
    assert_eq!(judge(&p, 2, Decision::Accept), Verdict::Unauthorized);
    assert_eq!(check_proposal(true, true), Err(ProposeError::ProposerPaired));
    assert_eq!(check_proposal(false, true), Err(ProposeError::TargetPaired));
    assert_eq!(check_proposal(false, false), Ok(()));
}

#[test]
fn dissolve_twice() {
    let mut reg = Registry::new();
    assert_eq!(reg.dissolve(1, 101), Err(NotPaired));
    reg.create_ship(1, 101, 102, 0).unwrap();
    reg.create_ship(1, 103, 104, 0).unwrap();
    assert_eq!(reg.dissolve(1, 102), Ok(()));
    assert_eq!(reg.dissolve(1, 102), Err(NotPaired));
    assert_eq!(reg.dissolve(1, 101), Err(NotPaired));
    assert!(reg.read_ship(1, 103).is_some());
    assert_eq!(reg.create_ship(1, 101, 105, 0), Ok(()));
}

#[test]
fn rename_keeps_members() {
    let mut reg = Registry::new();
    assert_eq!(reg.rename(1, 101, "Nope".to_string()), Err(NotPaired));
    reg.create_ship(1, 101, 102, 7).unwrap();
    assert_eq!(reg.rename(1, 102, "Starlight".to_string()), Ok(()));
    let ship = reg.read_ship(1, 101).unwrap();
    assert_eq!(ship.name, "Starlight");
    assert_eq!((ship.id_one, ship.id_two, ship.created_at), (101, 102, 7));
}

#[test]
fn show_composes_age_and_counts() {
    let mut reg = Registry::new();
    let mut ledger = Ledger::new();
    assert!(reg.show(&ledger, 1, 101, 0).is_err());
    reg.create_ship(1, 101, 102, 1_000).unwrap();
    ledger.record_and_count(1, 101, 102, Action::Hug);
    ledger.record_and_count(1, 102, 101, Action::Hug);
    ledger.record_and_count(1, 102, 101, Action::Kiss);
    let rep = reg.show(&ledger, 1, 102, 1_000 + 90_061_000).unwrap();
    assert_eq!(rep.age_ms, 90_061_000);
    assert_eq!(rep.counts, CountedAction { cuddle: 0, handhold: 0, hug: 2, kiss: 1 });
    assert_eq!(rep.duration(), "1d 1h 1m 1s");
    assert_eq!(rep.title(), "The \"Bluenose\" ship");
    assert_eq!(rep.description(), "<@101> loves, and is loved by, <@102>");
}

#[test]
fn ages() {
    assert_eq!(age_millis(1_000, 3_500), 2_500);
    assert_eq!(age_millis(5_000, 1_000), 0);
    assert_eq!(age_millis(i64::MIN, i64::MAX), u64::MAX);
}
