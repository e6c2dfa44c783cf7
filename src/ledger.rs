//! The interaction counter ledger: per tenant, per ordered pair of members
//! and per kind, how often the one did it to the other.
use vstd::prelude::*;
use crate::action::{action_description, action_footer, action_reply, Action, ActionReply};
use crate::text::mention_of;
use crate::counts::CountedAction;

verus! {

/// The key of one counter: who did which kind to whom, in which tenant.
#[derive(Clone, Copy, Debug, PartialEq, Eq, Structural)]
pub struct CounterKey {
    pub tenant: u64,
    pub actor: u64,
    pub target: u64,
    pub kind: Action,
}

/// The count under `key`; zero where no counter exists yet.
pub open spec fn count_in(m: Map<CounterKey, nat>, key: CounterKey) -> nat {
    if m.contains_key(key) { m[key] } else { 0 }
}

/// The counters after one more event under `key`: the counter is created at
/// one, or goes up by one.
pub open spec fn recorded(m: Map<CounterKey, nat>, key: CounterKey) -> Map<CounterKey, nat> {
    m.insert(key, count_in(m, key) + 1)
}

/// The counters after `n` events under `key`, one after another.
pub open spec fn recorded_times(m: Map<CounterKey, nat>, key: CounterKey, n: nat) -> Map<CounterKey, nat>
    decreases n,
{
    if n == 0 { m } else { recorded(recorded_times(m, key, (n - 1) as nat), key) }
}

/// The total of one kind between two members, both directions together;
/// a member paired with themself has a single direction.
pub open spec fn pair_total(m: Map<CounterKey, nat>, tenant: u64, a: u64, b: u64, kind: Action) -> nat {
    let forth = count_in(m, CounterKey { tenant, actor: a, target: b, kind });
    let back = count_in(m, CounterKey { tenant, actor: b, target: a, kind });
    if a == b { forth } else { forth + back }
}

/// The count that is reported for an increment: the stored count, or one
/// where the store could not perform the increment.
pub fn reported_count(stored: Option<u16>) -> (r: u16)
    ensures
        r == match stored {
            Some(c) => c,
            None => 1,
        },
{
    match stored {
        Some(c) => c,
        None => 1,
    }
}

struct CounterRow {
    key: CounterKey,
    count: u16,
}

/// All counters, in memory. Each key has at most one row.
pub struct Ledger {
    rows: Vec<CounterRow>,
    counts: Ghost<Map<CounterKey, nat>>,
}

impl Ledger {
    /// The counts by key; a key without a counter is absent.
    pub closed spec fn view(&self) -> Map<CounterKey, nat> {
        self.counts@
    }

    pub closed spec fn wf(&self) -> bool {
        &&& forall|i: int, j: int|
            0 <= i < j < self.rows@.len() ==> #[trigger] self.rows@[i].key != #[trigger] self.rows@[j].key
        &&& forall|i: int|
            0 <= i < self.rows@.len() ==> self.counts@.contains_key(#[trigger] self.rows@[i].key)
                && self.counts@[self.rows@[i].key] == self.rows@[i].count
        &&& forall|k: CounterKey|
            #[trigger] self.counts@.contains_key(k) ==> exists|i: int|
                0 <= i < self.rows@.len() && #[trigger] self.rows@[i].key == k
    }

    pub fn new() -> (r: Ledger)
        ensures
            r.wf(),
            r@ == Map::<CounterKey, nat>::empty(),
    {
        Ledger { rows: Vec::new(), counts: Ghost(Map::empty()) }
    }

    fn find(&self, key: CounterKey) -> (r: Option<usize>)
        requires
            self.wf(),
        ensures
            r matches Some(i) ==> i < self.rows@.len() && self.rows@[i as int].key == key,
            r is None ==> !self@.contains_key(key),
    {
        let mut i: usize = 0;
        while i < self.rows.len()
            invariant
                self.wf(),
                i <= self.rows@.len(),
                forall|j: int| 0 <= j < i ==> #[trigger] self.rows@[j].key != key,
            decreases self.rows@.len() - i,
        {
            if self.rows[i].key == key {
                return Some(i);
            }
            i = i + 1;
        }
        None
    }

    /// The count under `key`.
    pub fn count(&self, key: CounterKey) -> (r: u16)
        requires
            self.wf(),
        ensures
            r == count_in(self@, key),
    {
        match self.find(key) {
            Some(i) => self.rows[i].count,
            None => 0,
        }
    }

    /// Records that `actor` performed `kind` on `target` in `tenant` and
    /// reports the count after it. A counter already at the largest count
    /// the store holds cannot go up: it stays, and one is reported.
    pub fn record_and_count(&mut self, tenant: u64, actor: u64, target: u64, kind: Action) -> (r: u16)
        requires
            old(self).wf(),
        ensures
            final(self).wf(),
            ({
                let key = CounterKey { tenant, actor, target, kind };
                if count_in(old(self)@, key) < u16::MAX {
                    &&& final(self)@ == recorded(old(self)@, key)
                    &&& r == count_in(final(self)@, key)
                } else {
                    &&& final(self)@ == old(self)@
                    &&& r == 1
                }
            }),
    {
        let key = CounterKey { tenant, actor, target, kind };
        let stored = self.increment(key);
        reported_count(stored)
    }

    fn increment(&mut self, key: CounterKey) -> (r: Option<u16>)
        requires
            old(self).wf(),
        ensures
            final(self).wf(),
            count_in(old(self)@, key) < u16::MAX ==> {
                &&& final(self)@ == recorded(old(self)@, key)
                &&& r == Some(count_in(final(self)@, key) as u16)
            },
            count_in(old(self)@, key) >= u16::MAX ==> final(self)@ == old(self)@ && r is None,
    {
        match self.find(key) {
            Some(i) => {
                let c = self.rows[i].count;
                if c == u16::MAX {
                    return None;
                }
                self.rows.set(i, CounterRow { key, count: c + 1 });
                proof {
                    self.counts@ = self.counts@.insert(key, (c + 1) as nat);
                    assert forall|k: CounterKey| #[trigger] self.counts@.contains_key(k) implies exists|j: int|
                        0 <= j < self.rows@.len() && #[trigger] self.rows@[j].key == k by {
                        if k != key {
                            let j = choose|j: int| 0 <= j < old(self).rows@.len() && #[trigger] old(self).rows@[j].key == k;
                            assert(self.rows@[j].key == k);
                        } else {
                            assert(self.rows@[i as int].key == k);
                        }
                    }
                }
                Some(c + 1)
            },
            None => {
                self.rows.push(CounterRow { key, count: 1 });
                proof {
                    self.counts@ = self.counts@.insert(key, 1);
                    let n = self.rows@.len() - 1;
                    assert forall|i: int| 0 <= i < n implies #[trigger] old(self).rows@[i].key != key by {
                        if old(self).rows@[i].key == key {
                            assert(old(self).counts@.contains_key(key));
                        }
                    }
                    assert forall|k: CounterKey| #[trigger] self.counts@.contains_key(k) implies exists|j: int|
                        0 <= j < self.rows@.len() && #[trigger] self.rows@[j].key == k by {
                        if k != key {
                            let j = choose|j: int| 0 <= j < old(self).rows@.len() && #[trigger] old(self).rows@[j].key == k;
                            assert(self.rows@[j].key == k);
                        } else {
                            assert(self.rows@[n].key == k);
                        }
                    }
                }
                Some(1)
            },
        }
    }

    /// The totals of the affectionate kinds between `a` and `b` in `tenant`.
    pub fn pair_counts(&self, tenant: u64, a: u64, b: u64) -> (r: CountedAction)
        requires
            self.wf(),
        ensures
            r.cuddle == pair_total(self@, tenant, a, b, Action::Cuddle),
            r.handhold == pair_total(self@, tenant, a, b, Action::Handhold),
            r.hug == pair_total(self@, tenant, a, b, Action::Hug),
            r.kiss == pair_total(self@, tenant, a, b, Action::Kiss),
    {
        CountedAction {
            cuddle: self.pair_total(tenant, a, b, Action::Cuddle),
            handhold: self.pair_total(tenant, a, b, Action::Handhold),
            hug: self.pair_total(tenant, a, b, Action::Hug),
            kiss: self.pair_total(tenant, a, b, Action::Kiss),
        }
    }

    fn pair_total(&self, tenant: u64, a: u64, b: u64, kind: Action) -> (r: u32)
        requires
            self.wf(),
        ensures
            r == pair_total(self@, tenant, a, b, kind),
    {
        let forth_key = CounterKey { tenant, actor: a, target: b, kind };
        let back_key = CounterKey { tenant, actor: b, target: a, kind };
        let forth = self.count(forth_key);
        if a == b {
            forth as u32
        } else {
            forth as u32 + self.count(back_key) as u32
        }
    }

    /// The kill counts between `a` and `b` in `tenant`, each direction on its
    /// own: how often `a` killed `b`, and how often `b` killed `a`.
    pub fn directional_sums(&self, tenant: u64, a: u64, b: u64) -> (r: (u16, u16))
        requires
            self.wf(),
        ensures
            r.0 == count_in(self@, CounterKey { tenant, actor: a, target: b, kind: Action::Kill }),
            r.1 == count_in(self@, CounterKey { tenant, actor: b, target: a, kind: Action::Kill }),
    {
        (
            self.count(CounterKey { tenant, actor: a, target: b, kind: Action::Kill }),
            self.count(CounterKey { tenant, actor: b, target: a, kind: Action::Kill }),
        )
    }
}

/// Records that `member_id` performed `action` on `recipient_id` and builds
/// the reply, which tells the count after it.
pub fn act_and_count(ledger: &mut Ledger, guild_id: u64, member_id: u64, recipient_id: u64, action: Action) -> (r: (
    u16,
    ActionReply,
))
    requires
        old(ledger).wf(),
    ensures
        final(ledger).wf(),
        ({
            let key = CounterKey { tenant: guild_id, actor: member_id, target: recipient_id, kind: action };
            if count_in(old(ledger)@, key) < u16::MAX {
                final(ledger)@ == recorded(old(ledger)@, key) && r.0 == count_in(final(ledger)@, key)
            } else {
                final(ledger)@ == old(ledger)@ && r.0 == 1
            }
        }),
        r.1.content is None <==> member_id == recipient_id,
        r.1.content matches Some(c) ==> c@ == mention_of(recipient_id),
        r.1.description@ == action_description(member_id, recipient_id, action),
        r.1.footer@ == action_footer(member_id, recipient_id, action, r.0),
{
    let count = ledger.record_and_count(guild_id, member_id, recipient_id, action);
    (count, action_reply(member_id, recipient_id, action, count))
}

/// Recording `n` events under one key, one after another, raises its count
/// by exactly `n`; from a key without a counter, the count is `n`.
pub proof fn lemma_sequential_records(m: Map<CounterKey, nat>, key: CounterKey, n: nat)
    ensures
        count_in(recorded_times(m, key, n), key) == count_in(m, key) + n,
        !m.contains_key(key) ==> count_in(recorded_times(m, key, n), key) == n,
    decreases n,
{
    if n > 0 {
        lemma_sequential_records(m, key, (n - 1) as nat);
    }
}

/// Recording an event from `a` to `b` never changes any other counter, in
/// particular not the one from `b` to `a`.
pub proof fn lemma_directional_isolation(m: Map<CounterKey, nat>, key: CounterKey, other: CounterKey)
    requires
        other != key,
    ensures
        count_in(recorded(m, key), other) == count_in(m, other),
{
}

} // verus!
