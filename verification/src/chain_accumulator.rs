//! Accumulation of elder votes into agreed facts.
//!
//! Each fact gathers at most one vote per voter; it is delivered exactly
//! once, the first time its vote count reaches the quorum of the current
//! elder set, and the gathered proof depends only on who voted, never on
//! the order the votes arrived in.

use vstd::prelude::*;

use crate::elders_info::spec_quorum_count;
use crate::elders_info::quorum_count;
use crate::elders_info::EldersInfo;
use crate::error::RoutingError;
use crate::id::PublicId;
use crate::network_event::event_equiv;
use crate::network_event::spec_is_structural;
use crate::network_event::AccumulatingEvent;
use crate::network_event::EventSigPayload;

verus! {

/// Whether `id` has a vote recorded in the list.
pub open spec fn has_voter(votes: Seq<(PublicId, Option<EventSigPayload>)>, id: PublicId) -> bool {
    exists|k: int| 0 <= k < votes.len() && (#[trigger] votes[k]).0 == id
}

/// The set of voters recorded in a vote list.
pub open spec fn voters_set(votes: Seq<(PublicId, Option<EventSigPayload>)>) -> Set<PublicId> {
    Set::new(|id: PublicId| has_voter(votes, id))
}

/// The votes one fact has gathered: at most one vote per voter, each with
/// the voter's optional signature payload.
#[verifier::ext_equal]
#[derive(Debug)]
pub struct AccumulatingProof {
    /// The recorded votes, in arrival order.
    pub votes: Vec<(PublicId, Option<EventSigPayload>)>,
}

impl AccumulatingProof {
    /// At most one vote per voter.
    pub open spec fn wf(self) -> bool {
        forall|i: int, j: int|
            0 <= i < j < self.votes@.len() ==> (#[trigger] self.votes@[i]).0 != (
            #[trigger] self.votes@[j]).0
    }

    /// Whether `id` has a vote recorded.
    pub open spec fn spec_has_voter(self, id: PublicId) -> bool {
        has_voter(self.votes@, id)
    }

    /// A proof with no votes yet.
    pub fn empty() -> (r: AccumulatingProof)
        ensures
            r.votes@.len() == 0,
            r.wf(),
    {
        AccumulatingProof { votes: Vec::new() }
    }

    /// How many distinct voters have voted.
    pub fn len(&self) -> (r: usize)
        ensures
            r == self.votes@.len(),
    {
        self.votes.len()
    }

    /// The recorded votes.
    pub fn votes(&self) -> (r: &Vec<(PublicId, Option<EventSigPayload>)>)
        ensures
            r == self.votes,
    {
        &self.votes
    }

    /// Whether `id` has a vote recorded.
    pub fn contains_voter(&self, id: &PublicId) -> (r: bool)
        ensures
            r == self.spec_has_voter(*id),
    {
        let n = self.votes.len();
        let mut i: usize = 0;
        while i < n
            invariant
                n == self.votes@.len(),
                i <= n,
                forall|k: int| 0 <= k < i ==> (#[trigger] self.votes@[k]).0 != id,
            decreases n - i,
        {
            if self.votes[i].0 == *id {
                return true;
            }
            i += 1;
        }
        false
    }
}

/// Collects votes for candidate facts and delivers each fact exactly once,
/// the first time its votes reach quorum.
#[verifier::ext_equal]
#[derive(Debug)]
pub struct EventAccumulator {
    /// One entry per pending fact, with the proof gathered so far.
    pub entries: Vec<(AccumulatingEvent, AccumulatingProof)>,
    /// The facts already delivered.
    pub completed: Vec<AccumulatingEvent>,
}

impl EventAccumulator {
    /// Entries are one per fact, voter lists hold no duplicates, delivered
    /// facts are recorded once and keep no entry.
    pub open spec fn wf(self) -> bool {
        &&& forall|i: int, j: int|
            0 <= i < j < self.entries@.len() ==> !event_equiv(
                (#[trigger] self.entries@[i]).0,
                (#[trigger] self.entries@[j]).0,
            )
        &&& forall|i: int| 0 <= i < self.entries@.len() ==> (#[trigger] self.entries@[i]).1.wf()
        &&& forall|i: int, j: int|
            0 <= i < j < self.completed@.len() ==> !event_equiv(
                #[trigger] self.completed@[i],
                #[trigger] self.completed@[j],
            )
        &&& forall|i: int, j: int|
            0 <= i < self.entries@.len() && 0 <= j < self.completed@.len() ==> !event_equiv(
                (#[trigger] self.entries@[i]).0,
                #[trigger] self.completed@[j],
            )
    }

    /// Whether a fact equivalent to `e` has a pending entry.
    pub open spec fn spec_has_entry(self, e: AccumulatingEvent) -> bool {
        exists|i: int| 0 <= i < self.entries@.len() && event_equiv((#[trigger] self.entries@[i]).0, e)
    }

    /// Whether a fact equivalent to `e` has been delivered.
    pub open spec fn spec_completed(self, e: AccumulatingEvent) -> bool {
        exists|j: int| 0 <= j < self.completed@.len() && event_equiv(#[trigger] self.completed@[j], e)
    }

    /// Whether a fact equivalent to `e` has gathered at least `q` votes.
    pub open spec fn spec_ready(self, e: AccumulatingEvent, q: int) -> bool {
        exists|i: int|
            0 <= i < self.entries@.len() && event_equiv((#[trigger] self.entries@[i]).0, e)
                && self.entries@[i].1.votes@.len() >= q
    }

    /// Whether any fact has gathered at least `q` votes.
    pub open spec fn spec_any_ready(self, q: int) -> bool {
        exists|i: int|
            0 <= i < self.entries@.len() && (#[trigger] self.entries@[i]).1.votes@.len() >= q
    }

    /// Whether any structural fact has gathered at least `q` votes.
    pub open spec fn spec_any_structural_ready(self, q: int) -> bool {
        exists|i: int|
            0 <= i < self.entries@.len() && (#[trigger] self.entries@[i]).1.votes@.len() >= q
                && spec_is_structural(self.entries@[i].0)
    }

    /// An accumulator with nothing pending and nothing delivered.
    pub fn new() -> (r: EventAccumulator)
        ensures
            r.entries@.len() == 0,
            r.completed@.len() == 0,
            r.wf(),
    {
        EventAccumulator { entries: Vec::new(), completed: Vec::new() }
    }

    /// Records one voter's support for a fact.
    ///
    /// A vote from outside the elder set is rejected as foreign and changes
    /// nothing. A vote for a new-key fact must carry the signature payload
    /// binding it to its key candidate, or it is rejected. A vote for an
    /// already delivered fact changes nothing. A second vote from the same
    /// voter for the same fact changes nothing: the gathered proof's voter
    /// list, and so its size, stays as it was. Otherwise the vote is
    /// recorded, growing the fact's voter list by exactly this voter.
    pub fn vote(
        &mut self,
        elders: &EldersInfo,
        event: AccumulatingEvent,
        voter: PublicId,
        sig: Option<EventSigPayload>,
    ) -> (r: Result<(), RoutingError>)
        requires
            old(self).wf(),
        ensures
            final(self).wf(),
            r is Err ==> *final(self) == *old(self),
            r matches Err(e) ==> ((e == RoutingError::ForeignVote) <==> !elders.spec_contains(
                voter.name,
            )) && (e == RoutingError::ForeignVote || e == RoutingError::InvalidMessage),
            r is Err <==> (!elders.spec_contains(voter.name) || (event is SectionInfo && sig
                is None)),
            r is Ok ==> final(self).completed@ == old(self).completed@,
            (r is Ok && old(self).spec_completed(event)) ==> *final(self) == *old(self),
            (r is Ok && !old(self).spec_completed(event)) ==> ((exists|i: int|
                0 <= i < old(self).entries@.len() && event_equiv(
                    (#[trigger] old(self).entries@[i]).0,
                    event,
                ) && (if has_voter(old(self).entries@[i].1.votes@, voter) {
                    *final(self) == *old(self)
                } else {
                    &&& final(self).entries@.len() == old(self).entries@.len()
                    &&& final(self).entries@[i].0 == old(self).entries@[i].0
                    &&& final(self).entries@[i].1.votes@ == old(self).entries@[i].1.votes@.push(
                        (voter, sig),
                    )
                    &&& forall|j: int|
                        0 <= j < old(self).entries@.len() && j != i ==> final(self).entries@[j]
                            == old(self).entries@[j]
                })) || (!old(self).spec_has_entry(event) && final(self).entries@.len() == old(
                self,
            ).entries@.len() + 1 && final(self).entries@[old(self).entries@.len() as int].0 == event
                && final(self).entries@[old(self).entries@.len() as int].1.votes@ == seq![
                (voter, sig),
            ] && forall|j: int|
                0 <= j < old(self).entries@.len() ==> final(self).entries@[j] == old(
                self,
            ).entries@[j])),
    {
        if !elders.contains(&voter.name) {
            return Err(RoutingError::ForeignVote);
        }
        let needs_payload = match &event {
            AccumulatingEvent::SectionInfo(_, _) => true,
            _ => false,
        };
        if needs_payload && sig.is_none() {
            return Err(RoutingError::InvalidMessage);
        }
        if self.find_completed(&event) {
            return Ok(());
        }
        match self.find_entry(&event) {
            Some(i) => {
                if self.entries[i].1.contains_voter(&voter) {
                    return Ok(());
                }
                let ghost prev = *self;
                let (e, mut p) = self.entries.remove(i);
                p.votes.push((voter, sig));
                self.entries.insert(i, (e, p));
                proof {
                    assert(self.entries@.len() == prev.entries@.len());
                    assert forall|j: int|
                        0 <= j < prev.entries@.len() && j != i implies self.entries@[j]
                        == prev.entries@[j] by {
                        if j < i {
                        } else {
                            assert(self.entries@[j] == prev.entries@.remove(i as int).insert(
                                i as int,
                                (e, p),
                            )[j]);
                        }
                    }
                    assert(self.entries@[i as int].0 == prev.entries@[i as int].0);
                    assert(self.entries@[i as int].1.votes@ == prev.entries@[i as int].1.votes@.push(
                        (voter, sig),
                    ));
                    lemma_vote_wf_after_update(prev, *self, i as int, voter, sig);
                }
                Ok(())
            },
            None => {
                let ghost prev = *self;
                let mut p = AccumulatingProof::empty();
                p.votes.push((voter, sig));
                self.entries.push((event, p));
                proof {
                    assert(p.votes@ =~= seq![(voter, sig)]);
                    assert forall|a: int, b: int|
                        0 <= a < b < self.entries@.len() implies !event_equiv(
                        (#[trigger] self.entries@[a]).0,
                        (#[trigger] self.entries@[b]).0,
                    ) by {
                        if b == prev.entries@.len() {
                            lemma_event_equiv_symm(self.entries@[a].0, self.entries@[b].0);
                        }
                    }
                    assert forall|a: int, b: int|
                        0 <= a < self.entries@.len() && 0 <= b < self.completed@.len()
                            implies !event_equiv(
                        (#[trigger] self.entries@[a]).0,
                        #[trigger] self.completed@[b],
                    ) by {
                        if a == prev.entries@.len() {
                            lemma_event_equiv_symm(self.entries@[a].0, self.completed@[b]);
                        }
                    }
                    assert(self.wf());
                }
                Ok(())
            },
        }
    }

    /// Whether a fact equivalent to `e` has already been delivered.
    fn find_completed(&self, e: &AccumulatingEvent) -> (r: bool)
        ensures
            r == self.spec_completed(*e),
    {
        let n = self.completed.len();
        let mut c: usize = 0;
        while c < n
            invariant
                n == self.completed@.len(),
                c <= n,
                forall|j: int| 0 <= j < c ==> !event_equiv(#[trigger] self.completed@[j], *e),
            decreases n - c,
        {
            if self.completed[c] == *e {
                return true;
            }
            c += 1;
        }
        false
    }

    /// Where the entry for a fact equivalent to `e` stands, if any.
    fn find_entry(&self, e: &AccumulatingEvent) -> (r: Option<usize>)
        ensures
            match r {
                Some(i) => i < self.entries@.len() && event_equiv(
                    self.entries@[i as int].0,
                    *e,
                ),
                None => !self.spec_has_entry(*e),
            },
    {
        let n = self.entries.len();
        let mut i: usize = 0;
        while i < n
            invariant
                n == self.entries@.len(),
                i <= n,
                forall|j: int| 0 <= j < i ==> !event_equiv((#[trigger] self.entries@[j]).0, *e),
            decreases n - i,
        {
            if self.entries[i].0 == *e {
                return Some(i);
            }
            i += 1;
        }
        None
    }

    /// Finds an entry with at least `q` votes, restricted to structural
    /// facts when asked.
    fn find_ready(&self, q: usize, structural_only: bool) -> (r: Option<usize>)
        ensures
            match r {
                Some(i) => i < self.entries@.len() && self.entries@[i as int].1.votes@.len() >= q
                    && (structural_only ==> spec_is_structural(self.entries@[i as int].0)),
                None => forall|i: int|
                    0 <= i < self.entries@.len() ==> !((#[trigger] self.entries@[i]).1.votes@.len()
                        >= q && (structural_only ==> spec_is_structural(self.entries@[i].0))),
            },
    {
        let n = self.entries.len();
        let mut i: usize = 0;
        while i < n
            invariant
                n == self.entries@.len(),
                i <= n,
                forall|j: int|
                    0 <= j < i ==> !((#[trigger] self.entries@[j]).1.votes@.len() >= q && (
                    structural_only ==> spec_is_structural(self.entries@[j].0))),
            decreases n - i,
        {
            if self.entries[i].1.len() >= q && (!structural_only || self.entries[i].0.is_structural()) {
                return Some(i);
            }
            i += 1;
        }
        None
    }

    /// Delivers one fact whose votes have reached the quorum of the current
    /// elder set, together with its gathered proof, or nothing if no fact is
    /// ready. A structural fact is delivered before member-state facts. The
    /// delivered fact is recorded as completed, so it can never be delivered
    /// a second time.
    pub fn try_accumulate(&mut self, elders: &EldersInfo) -> (r: Option<
        (AccumulatingEvent, AccumulatingProof),
    >)
        requires
            old(self).wf(),
            elders.members@.len() <= usize::MAX / 2,
        ensures
            final(self).wf(),
            match r {
                None => *final(self) == *old(self) && !old(self).spec_any_ready(
                    spec_quorum_count(elders.members@.len() as int),
                ),
                Some((e, p)) => {
                    &&& exists|i: int|
                        0 <= i < old(self).entries@.len() && (#[trigger] old(self).entries@[i])
                            == (e, p) && final(self).entries@ == old(self).entries@.remove(i)
                    &&& p.votes@.len() >= spec_quorum_count(elders.members@.len() as int)
                    &&& p.wf()
                    &&& final(self).completed@.len() == old(self).completed@.len() + 1
                    &&& event_equiv(
                        final(self).completed@[old(self).completed@.len() as int],
                        e,
                    )
                    &&& forall|j: int|
                        0 <= j < old(self).completed@.len() ==> final(self).completed@[j] == old(
                        self,
                    ).completed@[j]
                    &&& final(self).spec_completed(e)
                    &&& (old(self).spec_any_structural_ready(
                        spec_quorum_count(elders.members@.len() as int),
                    ) ==> spec_is_structural(e))
                },
            },
    {
        let q = quorum_count(elders.len());
        let idx = match self.find_ready(q, true) {
            Some(i) => Some(i),
            None => self.find_ready(q, false),
        };
        match idx {
            None => None,
            Some(i) => {
                let ghost prev = *self;
                let dup = self.entries[i].0.duplicate();
                self.completed.push(dup);
                let (e, p) = self.entries.remove(i);
                proof {
                    assert((prev.entries@[i as int]) == (e, p));
                    assert(self.entries@ == prev.entries@.remove(i as int));
                    assert(self.wf()) by {
                        assert forall|a: int, b: int|
                            0 <= a < self.entries@.len() && 0 <= b < self.completed@.len()
                                implies !event_equiv(self.entries@[a].0, self.completed@[b]) by {
                            if b < prev.completed@.len() {
                            } else {
                                lemma_event_equiv_symm_trans(
                                    self.entries@[a].0,
                                    self.completed@[b],
                                    e,
                                );
                            }
                        }
                        assert forall|a: int, b: int|
                            0 <= a < b < self.completed@.len() implies !event_equiv(
                            self.completed@[a],
                            self.completed@[b],
                        ) by {
                            if b == prev.completed@.len() {
                                lemma_event_equiv_symm_trans(
                                    self.completed@[a],
                                    self.completed@[b],
                                    e,
                                );
                            }
                        }
                    }
                    assert(self.spec_completed(e)) by {
                        assert(event_equiv(
                            self.completed@[prev.completed@.len() as int],
                            e,
                        ));
                    }
                }
                Some((e, p))
            },
        }
    }
}

/// Equivalence of facts is symmetric.
proof fn lemma_event_equiv_symm(a: AccumulatingEvent, b: AccumulatingEvent)
    ensures
        event_equiv(a, b) == event_equiv(b, a),
{
}

/// After one new voter's vote is recorded into entry `i`, the accumulator
/// is still well formed.
proof fn lemma_vote_wf_after_update(
    prev: EventAccumulator,
    cur: EventAccumulator,
    i: int,
    voter: PublicId,
    sig: Option<EventSigPayload>,
)
    requires
        prev.wf(),
        0 <= i < prev.entries@.len(),
        cur.entries@.len() == prev.entries@.len(),
        cur.completed@ == prev.completed@,
        cur.entries@[i].0 == prev.entries@[i].0,
        cur.entries@[i].1.votes@ == prev.entries@[i].1.votes@.push((voter, sig)),
        !has_voter(prev.entries@[i].1.votes@, voter),
        forall|j: int|
            0 <= j < prev.entries@.len() && j != i ==> cur.entries@[j] == prev.entries@[j],
    ensures
        cur.wf(),
{
    assert forall|a: int, b: int|
        0 <= a < b < cur.entries@.len() implies !event_equiv(
        (#[trigger] cur.entries@[a]).0,
        (#[trigger] cur.entries@[b]).0,
    ) by {
        assert(cur.entries@[a].0 == prev.entries@[a].0);
        assert(cur.entries@[b].0 == prev.entries@[b].0);
    }
    assert forall|k: int| 0 <= k < cur.entries@.len() implies (#[trigger] cur.entries@[k]).1.wf() by {
        if k == i {
            let nv = cur.entries@[i].1.votes@;
            let ov = prev.entries@[i].1.votes@;
            assert forall|a: int, b: int|
                0 <= a < b < nv.len() implies (#[trigger] nv[a]).0 != (#[trigger] nv[b]).0 by {
                if b == ov.len() {
                    assert(nv[a] == ov[a]);
                    assert(nv[b].0 == voter);
                } else {
                    assert(nv[a] == ov[a]);
                    assert(nv[b] == ov[b]);
                }
            }
        } else {
            assert(cur.entries@[k] == prev.entries@[k]);
        }
    }
    assert forall|a: int, b: int|
        0 <= a < cur.entries@.len() && 0 <= b < cur.completed@.len() implies !event_equiv(
        (#[trigger] cur.entries@[a]).0,
        #[trigger] cur.completed@[b],
    ) by {
        assert(cur.entries@[a].0 == prev.entries@[a].0);
    }
}

/// Equivalence of facts is symmetric and transitive: if `a` and `b` both
/// stand for the fact `c`, they stand for each other.
proof fn lemma_event_equiv_symm_trans(a: AccumulatingEvent, b: AccumulatingEvent, c: AccumulatingEvent)
    ensures
        (event_equiv(a, c) && event_equiv(b, c)) ==> event_equiv(a, b),
{
}

/// A fact equivalent to a delivered one can never be ready again: its entry
/// is gone and no new entry for it is ever created, so accumulation fires
/// exactly once per fact, the first time its votes reach quorum.
pub proof fn lemma_accumulates_only_once(s: EventAccumulator, e: AccumulatingEvent, q: int)
    requires
        s.wf(),
        s.spec_completed(e),
    ensures
        !s.spec_ready(e, q),
        !s.spec_has_entry(e),
{
    assert forall|i: int|
        0 <= i < s.entries@.len() implies !event_equiv((#[trigger] s.entries@[i]).0, e) by {
        let j = choose|j: int| 0 <= j < s.completed@.len() && event_equiv(#[trigger] s.completed@[j], e);
        lemma_event_equiv_symm_trans(s.entries@[i].0, s.completed@[j], e);
    }
}

/// Recording a vote inserts exactly the voter into the proof's voter set.
pub proof fn lemma_vote_inserts_voter(
    votes: Seq<(PublicId, Option<EventSigPayload>)>,
    voter: PublicId,
    sig: Option<EventSigPayload>,
)
    ensures
        voters_set(votes.push((voter, sig))) == voters_set(votes).insert(voter),
{
    let l = votes.push((voter, sig));
    assert forall|id: PublicId| #[trigger]
        voters_set(l).contains(id) <==> voters_set(votes).insert(voter).contains(id) by {
        if voters_set(l).contains(id) {
            let k = choose|k: int| 0 <= k < l.len() && (#[trigger] l[k]).0 == id;
            if k < votes.len() {
                assert(votes[k].0 == id);
            }
        }
        if voters_set(votes).insert(voter).contains(id) {
            if id == voter {
                assert(l[votes.len() as int].0 == id);
            } else {
                let k = choose|k: int| 0 <= k < votes.len() && (#[trigger] votes[k]).0 == id;
                assert(l[k].0 == id);
            }
        }
    }
    assert(voters_set(l) =~= voters_set(votes).insert(voter));
}

/// The voter set gathered for a fact does not depend on the order in which
/// two distinct voters' votes arrive, and neither does the vote count.
pub proof fn lemma_votes_commute(
    votes: Seq<(PublicId, Option<EventSigPayload>)>,
    v1: PublicId,
    s1: Option<EventSigPayload>,
    v2: PublicId,
    s2: Option<EventSigPayload>,
)
    ensures
        voters_set(votes.push((v1, s1)).push((v2, s2))) == voters_set(
            votes.push((v2, s2)).push((v1, s1)),
        ),
        votes.push((v1, s1)).push((v2, s2)).len() == votes.push((v2, s2)).push((v1, s1)).len(),
{
    lemma_vote_inserts_voter(votes, v1, s1);
    lemma_vote_inserts_voter(votes.push((v1, s1)), v2, s2);
    lemma_vote_inserts_voter(votes, v2, s2);
    lemma_vote_inserts_voter(votes.push((v2, s2)), v1, s1);
    assert(voters_set(votes).insert(v1).insert(v2) =~= voters_set(votes).insert(v2).insert(v1));
}

/// A voter already in a proof's voter set adds nothing by voting again: the
/// set absorbs the insertion.
pub proof fn lemma_duplicate_voter_absorbed(
    votes: Seq<(PublicId, Option<EventSigPayload>)>,
    voter: PublicId,
)
    requires
        has_voter(votes, voter),
    ensures
        voters_set(votes).insert(voter) == voters_set(votes),
{
    assert(voters_set(votes).contains(voter));
    assert(voters_set(votes).insert(voter) =~= voters_set(votes));
}

} // verus!
