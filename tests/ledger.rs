use aurora::action::Action;
use aurora::counts::CountedAction;
use aurora::ledger::{act_and_count, reported_count, CounterKey, Ledger};

fn key(tenant: u64, actor: u64, target: u64, kind: Action) -> CounterKey {
    CounterKey { tenant, actor, target, kind }
}

#[test]
fn sequential_records_count_up() {
    let mut l = Ledger::new();
    for n in 1..=25u16 {
        assert_eq!(l.record_and_count(1, 10, 20, Action::Bite), n);
    }
    assert_eq!(l.count(key(1, 10, 20, Action::Bite)), 25);
}

#[test]
fn directions_are_independent() {
    let mut l = Ledger::new();
    l.record_and_count(1, 10, 20, Action::Poke);
    l.record_and_count(1, 10, 20, Action::Poke);
    assert_eq!(l.count(key(1, 20, 10, Action::Poke)), 0);
    assert_eq!(l.record_and_count(1, 20, 10, Action::Poke), 1);
    assert_eq!(l.count(key(1, 10, 20, Action::Poke)), 2);
}

#[test]
fn kinds_and_tenants_are_independent() {
    let mut l = Ledger::new();
    l.record_and_count(1, 10, 20, Action::Hug);
    assert_eq!(l.record_and_count(1, 10, 20, Action::Kiss), 1);
    assert_eq!(l.record_and_count(2, 10, 20, Action::Hug), 1);
    assert_eq!(l.count(key(1, 10, 20, Action::Hug)), 1);
}

#[test]
fn self_action_is_counted() {
    let mut l = Ledger::new();
    assert_eq!(l.record_and_count(1, 10, 10, Action::Pat), 1);
    assert_eq!(l.record_and_count(1, 10, 10, Action::Pat), 2);
}

#[test]
fn full_counter_reports_one() {
    let mut l = Ledger::new();
    for _ in 0..u16::MAX {
        l.record_and_count(1, 10, 20, Action::Tickle);
    }
    assert_eq!(l.count(key(1, 10, 20, Action::Tickle)), u16::MAX);
    assert_eq!(l.record_and_count(1, 10, 20, Action::Tickle), 1);
    assert_eq!(l.count(key(1, 10, 20, Action::Tickle)), u16::MAX);
}

#[test]
fn reported_count_falls_back_to_one() {
    assert_eq!(reported_count(Some(17)), 17);
    assert_eq!(reported_count(None), 1);
}

#[test]
fn three_kisses_show_in_pair_counts() {
    let mut l = Ledger::new();
    for _ in 0..3 {
        l.record_and_count(1, 10, 20, Action::Kiss);
    }
    let c = l.pair_counts(1, 10, 20);
    assert_eq!(c, CountedAction { cuddle: 0, handhold: 0, hug: 0, kiss: 3 });
    assert_eq!(c.to_string(), ":kissing_heart: 3 kisses");
}

#[test]
fn pair_counts_sum_both_directions() {
    let mut l = Ledger::new();
    l.record_and_count(1, 10, 20, Action::Cuddle);
    l.record_and_count(1, 20, 10, Action::Cuddle);
    l.record_and_count(1, 20, 10, Action::Hug);
    l.record_and_count(1, 20, 30, Action::Hug);
    l.record_and_count(1, 10, 20, Action::Bite);
    let c = l.pair_counts(1, 20, 10);
    assert_eq!(c, CountedAction { cuddle: 2, handhold: 0, hug: 1, kiss: 0 });
}

#[test]
fn pair_counts_of_one_member_with_themself() {
    let mut l = Ledger::new();
    l.record_and_count(1, 10, 10, Action::Handhold);
    let c = l.pair_counts(1, 10, 10);
    assert_eq!(c.handhold, 1);
}

#[test]
fn empty_pair_counts() {
    let l = Ledger::new();
    let c = l.pair_counts(1, 10, 20);
    assert_eq!(c, CountedAction { cuddle: 0, handhold: 0, hug: 0, kiss: 0 });
    assert_eq!(c.to_string(), ":pensive: No counted actions...");
}

#[test]
fn kill_counts_by_direction() {
    let mut l = Ledger::new();
    assert_eq!(l.directional_sums(1, 10, 20), (0, 0));
    l.record_and_count(1, 10, 20, Action::Kill);
    l.record_and_count(1, 10, 20, Action::Kill);
    l.record_and_count(1, 20, 10, Action::Kill);
    l.record_and_count(1, 10, 20, Action::Kiss);
    assert_eq!(l.directional_sums(1, 10, 20), (2, 1));
    assert_eq!(l.directional_sums(1, 20, 10), (1, 2));
}

#[test]
fn act_and_count_replies_with_count() {
    let mut l = Ledger::new();
    let (c1, r1) = act_and_count(&mut l, 1, 10, 20, Action::Bite);
    assert_eq!(c1, 1);
    assert_eq!(r1.footer, "That's their first bite from you!");
    let (c2, r2) = act_and_count(&mut l, 1, 10, 20, Action::Bite);
    assert_eq!(c2, 2);
    assert_eq!(r2.footer, "That's 2 bites now!");
    assert_eq!(r2.content, Some("<@20>".to_string()));
}

#[test]
fn counted_action_lines() {
    let c = CountedAction { cuddle: 1, handhold: 2, hug: 0, kiss: 1 };
    assert_eq!(c.to_string(), ":heart: 1 cuddle\n:handshake: 2 handholds\n:kissing_heart: 1 kiss");
    let h = CountedAction { cuddle: 0, handhold: 1, hug: 5, kiss: 0 };
    assert_eq!(h.to_string(), ":handshake: 1 handhold\n:hugging: 5 hugs");
}
