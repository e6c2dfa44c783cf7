//! The pairing registry: exclusive, named "ships" between two members of a
//! tenant, created through a propose / respond handshake.
use vstd::prelude::*;
use crate::counts::CountedAction;
use crate::ledger::{pair_total, Ledger};

verus! {

/// The name a ship carries until its members rename it.
pub open spec fn default_ship_name() -> Seq<char> {
    "Bluenose"@
}

/// A pairing of two members in one tenant.
pub struct Ship {
    pub guild_id: u64,
    pub id_one: u64,
    pub id_two: u64,
    pub name: String,
    /// Milliseconds since the Unix epoch.
    pub created_at: i64,
}

/// The value of a ship, with its name as characters.
pub struct ShipView {
    pub guild_id: u64,
    pub id_one: u64,
    pub id_two: u64,
    pub name: Seq<char>,
    pub created_at: i64,
}

impl View for Ship {
    type V = ShipView;

    open spec fn view(&self) -> ShipView {
        ShipView {
            guild_id: self.guild_id,
            id_one: self.id_one,
            id_two: self.id_two,
            name: self.name@,
            created_at: self.created_at,
        }
    }
}

impl Ship {
    fn duplicate(&self) -> (r: Ship)
        ensures
            r@ == self@,
    {
        Ship {
            guild_id: self.guild_id,
            id_one: self.id_one,
            id_two: self.id_two,
            name: self.name.clone(),
            created_at: self.created_at,
        }
    }
}

/// Whether `user` is one of the two members of ship `s` in `tenant`.
pub open spec fn holds(s: ShipView, tenant: u64, user: u64) -> bool {
    s.guild_id == tenant && (s.id_one == user || s.id_two == user)
}

/// Whether some ship of `tenant` holds `user`.
pub open spec fn paired(ships: Seq<ShipView>, tenant: u64, user: u64) -> bool {
    exists|i: int| 0 <= i < ships.len() && #[trigger] holds(ships[i], tenant, user)
}

/// No member of a tenant is held by two ships.
pub open spec fn exclusive(ships: Seq<ShipView>) -> bool {
    forall|i: int, j: int, u: u64|
        0 <= i < ships.len() && 0 <= j < ships.len() && i != j && #[trigger] holds(ships[i], ships[i].guild_id, u)
            ==> !#[trigger] holds(ships[j], ships[i].guild_id, u)
}

/// A proposal that waits for the answer of the proposee.
#[derive(Clone, Copy, Debug, PartialEq, Eq, Structural)]
pub struct Proposal {
    pub guild_id: u64,
    pub proposer: u64,
    pub proposee: u64,
}

/// Why a proposal is refused.
#[derive(Clone, Copy, Debug, PartialEq, Eq, Structural)]
pub enum ProposeError {
    ProposerPaired,
    TargetPaired,
}

/// The answer that the proposee gives with one of the prompt's two buttons.
#[derive(Clone, Copy, Debug, PartialEq, Eq, Structural)]
pub enum Decision {
    Accept,
    Reject,
}

/// What a press on a proposal's prompt comes to, before the store is touched.
#[derive(Clone, Copy, Debug, PartialEq, Eq, Structural)]
pub enum Verdict {
    Accepted,
    Declined,
    Unauthorized,
}

/// What answering a proposal did.
#[derive(Clone, Copy, Debug, PartialEq, Eq, Structural)]
pub enum Response {
    Created,
    Declined,
    Unauthorized,
    /// The proposee accepted, but one of the two had been paired meanwhile.
    AlreadyPaired,
}

/// The member named holds no ship.
#[derive(Clone, Copy, Debug, PartialEq, Eq, Structural)]
pub struct NotPaired;

/// A second ship for a member who holds one already.
#[derive(Clone, Copy, Debug, PartialEq, Eq, Structural)]
pub struct Conflict;

/// Checks a proposal against the state of both members, proposer first.
pub fn check_proposal(proposer_paired: bool, proposee_paired: bool) -> (r: Result<(), ProposeError>)
    ensures
        r == if proposer_paired {
            Err(ProposeError::ProposerPaired)
        } else if proposee_paired {
            Err(ProposeError::TargetPaired)
        } else {
            Ok::<(), ProposeError>(())
        },
{
    if proposer_paired {
        Err(ProposeError::ProposerPaired)
    } else if proposee_paired {
        Err(ProposeError::TargetPaired)
    } else {
        Ok(())
    }
}

/// Judges a press on a proposal's prompt: only the proposee may answer.
pub fn judge(proposal: &Proposal, responder: u64, decision: Decision) -> (r: Verdict)
    ensures
        r == if responder != proposal.proposee {
            Verdict::Unauthorized
        } else if decision == Decision::Accept {
            Verdict::Accepted
        } else {
            Verdict::Declined
        },
{
    if responder != proposal.proposee {
        Verdict::Unauthorized
    } else {
        match decision {
            Decision::Accept => Verdict::Accepted,
            Decision::Reject => Verdict::Declined,
        }
    }
}

/// The age of a ship created at `created_at` as seen at `now`, both in
/// milliseconds; a creation time in the future gives zero.
pub open spec fn age_of(created_at: i64, now: i64) -> nat {
    if now > created_at { (now - created_at) as nat } else { 0 }
}

pub fn age_millis(created_at: i64, now: i64) -> (r: u64)
    ensures
        r == age_of(created_at, now),
{
    if now > created_at {
        (now as i128 - created_at as i128) as u64
    } else {
        0
    }
}

/// A ship together with what is shown of it.
pub struct ShipReport {
    pub ship: Ship,
    pub age_ms: u64,
    pub counts: CountedAction,
}

/// All ships, in memory.
pub struct Registry {
    ships: Vec<Ship>,
}

impl Registry {
    pub closed spec fn view(&self) -> Seq<ShipView> {
        self.ships@.map_values(|s: Ship| s@)
    }

    /// The registry's invariant: no member of a tenant is in two ships.
    pub open spec fn wf(&self) -> bool {
        exclusive(self@)
    }

    pub fn new() -> (r: Registry)
        ensures
            r.wf(),
            r@ == Seq::<ShipView>::empty(),
    {
        let r = Registry { ships: Vec::new() };
        assert(r@ =~= Seq::<ShipView>::empty());
        r
    }

    fn find(&self, tenant: u64, user: u64) -> (r: Option<usize>)
        ensures
            r matches Some(i) ==> i < self@.len() && holds(self@[i as int], tenant, user),
            r is None ==> !paired(self@, tenant, user),
    {
        let mut i: usize = 0;
        while i < self.ships.len()
            invariant
                i <= self.ships@.len(),
                self@.len() == self.ships@.len(),
                forall|j: int| 0 <= j < i ==> !#[trigger] holds(self@[j], tenant, user),
            decreases self.ships@.len() - i,
        {
            let s = &self.ships[i];
            if s.guild_id == tenant && (s.id_one == user || s.id_two == user) {
                return Some(i);
            }
            i = i + 1;
        }
        None
    }

    /// The ship that holds `user` in `tenant`, if any.
    pub fn read_ship(&self, tenant: u64, user: u64) -> (r: Option<Ship>)
        requires
            self.wf(),
        ensures
            r is None <==> !paired(self@, tenant, user),
            r matches Some(s) ==> exists|i: int| 0 <= i < self@.len() && self@[i] == s@ && holds(s@, tenant, user),
    {
        match self.find(tenant, user) {
            Some(i) => Some(self.ships[i].duplicate()),
            None => None,
        }
    }

    /// Starts the handshake: refused when the proposer, or else the
    /// proposee, holds a ship already. Nothing is stored yet.
    pub fn propose(&self, tenant: u64, proposer: u64, proposee: u64) -> (r: Result<Proposal, ProposeError>)
        requires
            self.wf(),
        ensures
            r == if paired(self@, tenant, proposer) {
                Err(ProposeError::ProposerPaired)
            } else if paired(self@, tenant, proposee) {
                Err(ProposeError::TargetPaired)
            } else {
                Ok::<Proposal, ProposeError>(Proposal { guild_id: tenant, proposer, proposee })
            },
    {
        let proposer_paired = self.find(tenant, proposer).is_some();
        let proposee_paired = self.find(tenant, proposee).is_some();
        match check_proposal(proposer_paired, proposee_paired) {
            Ok(()) => Ok(Proposal { guild_id: tenant, proposer, proposee }),
            Err(e) => Err(e),
        }
    }

    /// Stores a new ship of `one` and `two`, named with the default name,
    /// unless one of the two holds a ship already.
    pub fn create_ship(&mut self, tenant: u64, one: u64, two: u64, now: i64) -> (r: Result<(), Conflict>)
        requires
            old(self).wf(),
        ensures
            final(self).wf(),
            r is Err <==> paired(old(self)@, tenant, one) || paired(old(self)@, tenant, two),
            r is Err ==> final(self)@ == old(self)@,
            r is Ok ==> final(self)@ == old(self)@.push(
                ShipView { guild_id: tenant, id_one: one, id_two: two, name: default_ship_name(), created_at: now },
            ),
    {
        if self.find(tenant, one).is_some() || self.find(tenant, two).is_some() {
            return Err(Conflict);
        }
        let mut name = String::new();
        name.append("Bluenose");
        let ship = Ship { guild_id: tenant, id_one: one, id_two: two, name, created_at: now };
        self.ships.push(ship);
        proof {
            let new_view = ShipView { guild_id: tenant, id_one: one, id_two: two, name: default_ship_name(), created_at: now };
            assert(self@ =~= old(self)@.push(new_view));
            let n = old(self)@.len() as int;
            assert forall|i: int, j: int, u: u64|
                0 <= i < self@.len() && 0 <= j < self@.len() && i != j && #[trigger] holds(self@[i], self@[i].guild_id, u)
                    implies !#[trigger] holds(self@[j], self@[i].guild_id, u) by {
                if i == n {
                    assert(self@[j] == old(self)@[j]);
                    assert(!holds(old(self)@[j], tenant, one));
                    assert(!holds(old(self)@[j], tenant, two));
                } else if j == n {
                    assert(self@[i] == old(self)@[i]);
                    assert(!holds(old(self)@[i], tenant, one));
                    assert(!holds(old(self)@[i], tenant, two));
                } else {
                    assert(self@[i] == old(self)@[i]);
                    assert(self@[j] == old(self)@[j]);
                }
            }
        }
        Ok(())
    }

    /// Answers a proposal. Only the proposee may answer; a rejection changes
    /// nothing; an acceptance creates the ship unless one of the two members
    /// was paired since the proposal.
    pub fn respond(&mut self, proposal: &Proposal, responder: u64, decision: Decision, now: i64) -> (r: Response)
        requires
            old(self).wf(),
        ensures
            final(self).wf(),
            responder != proposal.proposee ==> r == Response::Unauthorized && final(self)@ == old(self)@,
            responder == proposal.proposee && decision == Decision::Reject ==> r == Response::Declined
                && final(self)@ == old(self)@,
            responder == proposal.proposee && decision == Decision::Accept ==> {
                if paired(old(self)@, proposal.guild_id, proposal.proposer) || paired(old(self)@, proposal.guild_id, proposal.proposee) {
                    r == Response::AlreadyPaired && final(self)@ == old(self)@
                } else {
                    r == Response::Created && final(self)@ == old(self)@.push(ShipView {
                        guild_id: proposal.guild_id,
                        id_one: proposal.proposer,
                        id_two: proposal.proposee,
                        name: default_ship_name(),
                        created_at: now,
                    })
                }
            },
    {
        match judge(proposal, responder, decision) {
            Verdict::Unauthorized => Response::Unauthorized,
            Verdict::Declined => Response::Declined,
            Verdict::Accepted => match self.create_ship(proposal.guild_id, proposal.proposer, proposal.proposee, now) {
                Ok(()) => Response::Created,
                Err(Conflict) => Response::AlreadyPaired,
            },
        }
    }

    /// Renames the ship that holds `user`; its members stay as they are.
    pub fn rename(&mut self, tenant: u64, user: u64, name: String) -> (r: Result<(), NotPaired>)
        requires
            old(self).wf(),
        ensures
            final(self).wf(),
            r is Err <==> !paired(old(self)@, tenant, user),
            r is Err ==> final(self)@ == old(self)@,
            r is Ok ==> exists|i: int|
                0 <= i < old(self)@.len() && holds(old(self)@[i], tenant, user)
                    && final(self)@ == old(self)@.update(i, ShipView { name: name@, ..old(self)@[i] }),
    {
        match self.find(tenant, user) {
            None => Err(NotPaired),
            Some(i) => {
                let s = &self.ships[i];
                let renamed = Ship {
                    guild_id: s.guild_id,
                    id_one: s.id_one,
                    id_two: s.id_two,
                    name,
                    created_at: s.created_at,
                };
                self.ships.set(i, renamed);
                proof {
                    let v = ShipView { name: renamed.name@, ..old(self)@[i as int] };
                    assert(self@ =~= old(self)@.update(i as int, v));
                    assert forall|a: int, b: int, u: u64|
                        0 <= a < self@.len() && 0 <= b < self@.len() && a != b && #[trigger] holds(self@[a], self@[a].guild_id, u)
                            implies !#[trigger] holds(self@[b], self@[a].guild_id, u) by {
                        let oa = old(self)@[a];
                        let ob = old(self)@[b];
                        assert(self@[a].guild_id == oa.guild_id && self@[a].id_one == oa.id_one && self@[a].id_two == oa.id_two);
                        assert(self@[b].guild_id == ob.guild_id && self@[b].id_one == ob.id_one && self@[b].id_two == ob.id_two);
                        assert(holds(oa, oa.guild_id, u));
                        assert(!holds(ob, oa.guild_id, u));
                    }
                }
                Ok(())
            },
        }
    }

    /// Removes the ship that holds `user`.
    pub fn dissolve(&mut self, tenant: u64, user: u64) -> (r: Result<(), NotPaired>)
        requires
            old(self).wf(),
        ensures
            final(self).wf(),
            r is Err <==> !paired(old(self)@, tenant, user),
            r is Err ==> final(self)@ == old(self)@,
            r is Ok ==> exists|i: int|
                0 <= i < old(self)@.len() && holds(old(self)@[i], tenant, user) && final(self)@ == old(self)@.remove(i),
            !paired(final(self)@, tenant, user),
    {
        match self.find(tenant, user) {
            None => Err(NotPaired),
            Some(i) => {
                self.ships.remove(i);
                proof {
                    let old_v = old(self)@;
                    assert(self@ =~= old_v.remove(i as int));
                    lemma_removal_keeps_exclusive(old_v, i as int);
                    lemma_dissolve_idempotent(old_v, tenant, user, i as int);
                }
                Ok(())
            },
        }
    }

    /// The ship that holds `user`, its age at `now`, and the affectionate
    /// totals between its two members.
    pub fn show(&self, ledger: &Ledger, tenant: u64, user: u64, now: i64) -> (r: Result<ShipReport, NotPaired>)
        requires
            self.wf(),
            ledger.wf(),
        ensures
            r is Err <==> !paired(self@, tenant, user),
            r matches Ok(rep) ==> {
                &&& exists|i: int| 0 <= i < self@.len() && self@[i] == rep.ship@
                &&& holds(rep.ship@, tenant, user)
                &&& rep.age_ms == age_of(rep.ship.created_at, now)
                &&& rep.counts == (CountedAction {
                    cuddle: pair_total(ledger@, tenant, rep.ship.id_one, rep.ship.id_two, crate::action::Action::Cuddle) as u32,
                    handhold: pair_total(ledger@, tenant, rep.ship.id_one, rep.ship.id_two, crate::action::Action::Handhold) as u32,
                    hug: pair_total(ledger@, tenant, rep.ship.id_one, rep.ship.id_two, crate::action::Action::Hug) as u32,
                    kiss: pair_total(ledger@, tenant, rep.ship.id_one, rep.ship.id_two, crate::action::Action::Kiss) as u32,
                })
            },
    {
        match self.find(tenant, user) {
            None => Err(NotPaired),
            Some(i) => {
                let ship = self.ships[i].duplicate();
                let counts = ledger.pair_counts(tenant, ship.id_one, ship.id_two);
                let age_ms = age_millis(ship.created_at, now);
                Ok(ShipReport { ship, age_ms, counts })
            },
        }
    }
}

proof fn lemma_removal_keeps_exclusive(ships: Seq<ShipView>, k: int)
    requires
        exclusive(ships),
        0 <= k < ships.len(),
    ensures
        exclusive(ships.remove(k)),
{
    let r = ships.remove(k);
    assert forall|i: int, j: int, u: u64|
        0 <= i < r.len() && 0 <= j < r.len() && i != j && #[trigger] holds(r[i], r[i].guild_id, u)
            implies !#[trigger] holds(r[j], r[i].guild_id, u) by {
        let oi = if i < k { i } else { i + 1 };
        let oj = if j < k { j } else { j + 1 };
        assert(r[i] == ships[oi]);
        assert(r[j] == ships[oj]);
        assert(holds(ships[oi], ships[oi].guild_id, u));
    }
}

/// No member is held by two ships of a tenant: two ships that hold the same
/// member are one and the same.
pub proof fn lemma_at_most_one_ship(ships: Seq<ShipView>, tenant: u64, user: u64, i: int, j: int)
    requires
        exclusive(ships),
        0 <= i < ships.len(),
        0 <= j < ships.len(),
        holds(ships[i], tenant, user),
        holds(ships[j], tenant, user),
    ensures
        i == j,
{
    if i != j {
        assert(holds(ships[i], ships[i].guild_id, user));
    }
}

/// Once the ship that holds a member is dissolved, that member holds none:
/// a second dissolution finds nothing.
pub proof fn lemma_dissolve_idempotent(ships: Seq<ShipView>, tenant: u64, user: u64, k: int)
    requires
        exclusive(ships),
        0 <= k < ships.len(),
        holds(ships[k], tenant, user),
    ensures
        !paired(ships.remove(k), tenant, user),
{
    let r = ships.remove(k);
    if paired(r, tenant, user) {
        let i = choose|i: int| 0 <= i < r.len() && #[trigger] holds(r[i], tenant, user);
        let oi = if i < k { i } else { i + 1 };
        assert(r[i] == ships[oi]);
        lemma_at_most_one_ship(ships, tenant, user, oi, k);
    }
}

} // verus!
