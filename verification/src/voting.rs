//! A proposal-and-vote contract: anyone creates a proposal with a voting
//! window, each voter votes at most once while the window is open, and a
//! passed proposal can be executed once the window has closed.
//!
//! The host authenticates callers (`creator`, `voter`). Failure is an
//! abort, not an error value, so the aborting inputs (an unknown proposal,
//! a closed window, a second vote, a second execution, a proposal that did
//! not pass) are excluded by preconditions.

use crate::bytes::clone_bytes;
use vstd::prelude::*;

verus! {

/// A single vote.
#[derive(Clone, Copy, Debug, PartialEq, Eq, Structural)]
pub enum Vote {
    For,
    Against,
}

/// A proposal. Only the tallies and the executed flag change after
/// creation.
pub struct Proposal {
    pub id: u64,
    pub title: String,
    pub description: Vec<u8>,
    pub creator: u64,
    pub votes_for: u64,
    pub votes_against: u64,
    pub end_time: u64,
    pub executed: bool,
}

/// The vote the latest entry for `(proposal_id, voter)` carries, if any.
pub open spec fn vote_lookup(
    entries: Seq<(u64, u64, Vote)>,
    proposal_id: u64,
    voter: u64,
) -> Option<Vote>
    decreases entries.len(),
{
    if entries.len() == 0 {
        None
    } else if entries.last().0 == proposal_id && entries.last().1 == voter {
        Some(entries.last().2)
    } else {
        vote_lookup(entries.drop_last(), proposal_id, voter)
    }
}

/// Appending one vote entry rebinds exactly its own `(proposal, voter)`
/// pair.
pub proof fn lemma_vote_lookup_push(
    entries: Seq<(u64, u64, Vote)>,
    e: (u64, u64, Vote),
    proposal_id: u64,
    voter: u64,
)
    ensures
        vote_lookup(entries.push(e), proposal_id, voter) == if e.0 == proposal_id && e.1
            == voter {
            Some(e.2)
        } else {
            vote_lookup(entries, proposal_id, voter)
        },
{
    assert(entries.push(e).drop_last() =~= entries);
    assert(entries.push(e).last() == e);
}

/// The voting contract's state: proposals under dense ids starting at 1,
/// and the log of cast votes.
pub struct VotingContract {
    proposals: Vec<Proposal>,
    votes: Vec<(u64, u64, Vote)>,
}

impl VotingContract {
    /// How many proposals exist; ids run from 1 to this count.
    pub closed spec fn spec_count(&self) -> int {
        self.proposals@.len() as int
    }

    /// The proposal with this id, or `None`.
    pub closed spec fn spec_proposal(&self, id: u64) -> Option<Proposal> {
        if 1 <= id && id <= self.proposals@.len() {
            Some(self.proposals@[id - 1])
        } else {
            None
        }
    }

    /// The vote `voter` cast on `proposal_id`, if any.
    pub closed spec fn spec_vote(&self, proposal_id: u64, voter: u64) -> Option<Vote> {
        vote_lookup(self.votes@, proposal_id, voter)
    }

    /// Whether `voter` has voted on `proposal_id`.
    pub open spec fn spec_has_voted(&self, proposal_id: u64, voter: u64) -> bool {
        self.spec_vote(proposal_id, voter) is Some
    }

    /// A contract with no proposals and no votes.
    pub fn new() -> (c: VotingContract)
        ensures
            c.spec_count() == 0,
            forall|p: u64, v: u64| #[trigger] c.spec_vote(p, v) is None,
    {
        VotingContract { proposals: Vec::new(), votes: Vec::new() }
    }

    /// Creates a proposal with the next id and a voting window of
    /// `voting_period` from `now`; the tallies start at zero. `creator` is
    /// the authenticated caller.
    pub fn create_proposal(
        &mut self,
        creator: u64,
        title: String,
        description: Vec<u8>,
        voting_period: u64,
        now: u64,
    ) -> (r: u64)
        requires
            old(self).spec_count() < u64::MAX,
            now + voting_period <= u64::MAX,
        ensures
            r == old(self).spec_count() + 1,
            final(self).spec_count() == old(self).spec_count() + 1,
            final(self).spec_proposal(r) == Some(
                Proposal {
                    id: r,
                    title,
                    description,
                    creator,
                    votes_for: 0,
                    votes_against: 0,
                    end_time: (now + voting_period) as u64,
                    executed: false,
                },
            ),
            forall|i: u64|
                i != r ==> #[trigger] final(self).spec_proposal(i) == old(self).spec_proposal(i),
            forall|p: u64, v: u64|
                #[trigger] final(self).spec_vote(p, v) == old(self).spec_vote(p, v),
    {
        let proposal_id = self.proposals.len() as u64 + 1;
        let end_time = now + voting_period;
        let proposal = Proposal {
            id: proposal_id,
            title,
            description,
            creator,
            votes_for: 0,
            votes_against: 0,
            end_time,
            executed: false,
        };
        self.proposals.push(proposal);
        proposal_id
    }

    /// Casts `vote` on an open proposal: the window must not have closed
    /// and `voter` (the authenticated caller) must not have voted on it
    /// yet. The matching tally rises by one; everything else about the
    /// proposal is kept.
    pub fn vote(&mut self, voter: u64, proposal_id: u64, vote: Vote, now: u64)
        requires
            old(self).spec_proposal(proposal_id) matches Some(p) && {
                &&& now <= p.end_time
                &&& (vote == Vote::For ==> p.votes_for < u64::MAX)
                &&& (vote == Vote::Against ==> p.votes_against < u64::MAX)
            },
            !old(self).spec_has_voted(proposal_id, voter),
        ensures
            final(self).spec_vote(proposal_id, voter) == Some(vote),
            forall|p2: u64, v2: u64|
                !(p2 == proposal_id && v2 == voter) ==> #[trigger] final(self).spec_vote(p2, v2)
                    == old(self).spec_vote(p2, v2),
            final(self).spec_count() == old(self).spec_count(),
            final(self).spec_proposal(proposal_id) matches Some(q) && {
                let p = old(self).spec_proposal(proposal_id)->Some_0;
                &&& q.id == p.id
                &&& q.title == p.title
                &&& q.description@ == p.description@
                &&& q.creator == p.creator
                &&& q.end_time == p.end_time
                &&& q.executed == p.executed
                &&& q.votes_for == if vote == Vote::For {
                    p.votes_for + 1
                } else {
                    p.votes_for as int
                }
                &&& q.votes_against == if vote == Vote::Against {
                    p.votes_against + 1
                } else {
                    p.votes_against as int
                }
            },
            forall|i: u64|
                i != proposal_id ==> #[trigger] final(self).spec_proposal(i) == old(
                    self,
                ).spec_proposal(i),
    {
        let ghost entries = self.votes@;
        self.votes.push((proposal_id, voter, vote));
        proof {
            assert forall|p2: u64, v2: u64| true implies #[trigger] vote_lookup(
                entries.push((proposal_id, voter, vote)),
                p2,
                v2,
            ) == if p2 == proposal_id && v2 == voter {
                Some(vote)
            } else {
                vote_lookup(entries, p2, v2)
            } by {
                lemma_vote_lookup_push(entries, (proposal_id, voter, vote), p2, v2);
            }
        }
        proof {
            assert(self.proposals.len() == self.proposals@.len());
        }
        let idx = (proposal_id - 1) as usize;
        let p = &self.proposals[idx];
        let updated = Proposal {
            id: p.id,
            title: p.title.clone(),
            description: clone_bytes(&p.description),
            creator: p.creator,
            votes_for: if vote == Vote::For {
                p.votes_for + 1
            } else {
                p.votes_for
            },
            votes_against: if vote == Vote::Against {
                p.votes_against + 1
            } else {
                p.votes_against
            },
            end_time: p.end_time,
            executed: p.executed,
        };
        self.proposals.set(idx, updated);
    }

    /// Reads the proposal with this id.
    pub fn get_proposal(&self, proposal_id: u64) -> (r: Proposal)
        requires
            self.spec_proposal(proposal_id) is Some,
        ensures
            self.spec_proposal(proposal_id) matches Some(p) && {
                &&& r.id == p.id
                &&& r.title == p.title
                &&& r.description@ == p.description@
                &&& r.creator == p.creator
                &&& r.votes_for == p.votes_for
                &&& r.votes_against == p.votes_against
                &&& r.end_time == p.end_time
                &&& r.executed == p.executed
            },
    {
        proof {
            assert(self.proposals.len() == self.proposals@.len());
        }
        let idx = (proposal_id - 1) as usize;
        let p = &self.proposals[idx];
        Proposal {
            id: p.id,
            title: p.title.clone(),
            description: clone_bytes(&p.description),
            creator: p.creator,
            votes_for: p.votes_for,
            votes_against: p.votes_against,
            end_time: p.end_time,
            executed: p.executed,
        }
    }

    /// Marks a passed proposal as executed, once its window has closed:
    /// the tally for must exceed the tally against, and a proposal is
    /// executed at most once.
    pub fn execute_proposal(&mut self, proposal_id: u64, now: u64)
        requires
            old(self).spec_proposal(proposal_id) matches Some(p) && {
                &&& now > p.end_time
                &&& !p.executed
                &&& p.votes_for > p.votes_against
            },
        ensures
            final(self).spec_count() == old(self).spec_count(),
            forall|p2: u64, v2: u64|
                #[trigger] final(self).spec_vote(p2, v2) == old(self).spec_vote(p2, v2),
            final(self).spec_proposal(proposal_id) matches Some(q) && {
                let p = old(self).spec_proposal(proposal_id)->Some_0;
                &&& q.id == p.id
                &&& q.title == p.title
                &&& q.description@ == p.description@
                &&& q.creator == p.creator
                &&& q.end_time == p.end_time
                &&& q.votes_for == p.votes_for
                &&& q.votes_against == p.votes_against
                &&& q.executed
            },
            forall|i: u64|
                i != proposal_id ==> #[trigger] final(self).spec_proposal(i) == old(
                    self,
                ).spec_proposal(i),
    {
        proof {
            assert(self.proposals.len() == self.proposals@.len());
        }
        let idx = (proposal_id - 1) as usize;
        let p = &self.proposals[idx];
        let updated = Proposal {
            id: p.id,
            title: p.title.clone(),
            description: clone_bytes(&p.description),
            creator: p.creator,
            votes_for: p.votes_for,
            votes_against: p.votes_against,
            end_time: p.end_time,
            executed: true,
        };
        self.proposals.set(idx, updated);
    }
}

} // verus!
