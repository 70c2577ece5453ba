//! The governance engine: proposals with monotonically allocated numeric
//! ids, balance-weighted voting during a fixed window, and resolution by
//! tally once the window closes. Proposal creation is gated on the caller's
//! token balance; a vote's weight is the caller's balance at the moment the
//! vote is cast; a (proposal, voter) pair may vote at most once.

use vstd::prelude::*;

use crate::base::Origin;
use crate::base::appended;
use crate::kv::KvMap;
use crate::token;

verus! {

/// Governance parameters.
#[derive(Clone, Copy, PartialEq, Eq, Structural, Debug)]
pub struct Config {
    /// Length of the voting window, in heights.
    pub voting_period: u64,
    /// Minimum token balance required to create a proposal (checked, not
    /// reserved).
    pub min_proposal_deposit: u128,
}

/// Lifecycle state of a proposal.
#[derive(Clone, Copy, PartialEq, Eq, Structural, Debug)]
pub enum ProposalStatus {
    Active,
    Passed,
    Rejected,
    Executed,
}

/// A proposal record.
pub struct Proposal {
    pub proposer: u64,
    pub title: Vec<u8>,
    pub description: Vec<u8>,
    pub votes_for: u128,
    pub votes_against: u128,
    pub status: ProposalStatus,
    pub created_at: u64,
    pub voting_ends: u64,
}

/// Governance failures.
#[derive(Clone, Copy, PartialEq, Eq, Structural, Debug)]
pub enum Error {
    /// The operation needs a different kind of caller.
    BadOrigin,
    ProposalNotFound,
    /// Voting on this proposal has already closed.
    VotingEnded,
    /// The voting window is still open, so the proposal cannot be resolved
    /// yet.
    VotingNotEnded,
    AlreadyVoted,
    /// The proposal has already been resolved; a decided proposal admits no
    /// further transitions.
    AlreadyDecided,
    InsufficientBalance,
    ProposalNotPassed,
    /// A height or id computation would exceed its representable range.
    Overflow,
}

/// Governance events; each successful operation appends exactly one.
#[derive(Clone, Copy, PartialEq, Eq, Structural, Debug)]
pub enum Event {
    ProposalCreated { proposal_id: u32, proposer: u64 },
    VoteCast { proposal_id: u32, voter: u64, support: bool, weight: u128 },
    ProposalExecuted { proposal_id: u32 },
    ProposalRejected { proposal_id: u32 },
}

/// Addition that stops at the largest representable amount.
pub open spec fn sat_add(a: u128, b: u128) -> u128 {
    if a + b <= u128::MAX {
        (a + b) as u128
    } else {
        u128::MAX
    }
}

/// The governance state.
pub struct Pallet {
    pub config: Config,
    pub proposals: KvMap<u32, Proposal>,
    pub proposal_count: u32,
    pub votes: KvMap<(u32, u64), (bool, u128)>,
    pub events: Vec<Event>,
}

impl Pallet {
    pub open spec fn wf(self) -> bool {
        &&& self.proposals.wf()
        &&& self.votes.wf()
        &&& forall|pid: u32| pid >= self.proposal_count ==> !(#[trigger] self.proposals.has(pid))
    }

    /// The proposal stored under `pid`, if any.
    pub open spec fn proposal_of(self, pid: u32) -> Option<Proposal> {
        self.proposals.val_of(pid)
    }

    /// Whether (`pid`, `voter`) has already been recorded.
    pub open spec fn has_voted(self, pid: u32, voter: u64) -> bool {
        self.votes.has((pid, voter))
    }

    /// The recorded vote of (`pid`, `voter`), if any: (cast flag, weight).
    /// The flag is `true` once a vote exists; the chosen direction shows in
    /// the tallies and the `VoteCast` event.
    pub open spec fn vote_of(self, pid: u32, voter: u64) -> Option<(bool, u128)> {
        self.votes.val_of((pid, voter))
    }

    /// The error `create_proposal` reports, if any, in check order.
    pub open spec fn create_err(self, tok: token::Pallet, origin: Origin, now: u64) -> Option<
        Error,
    > {
        match origin {
            Origin::Root => Some(Error::BadOrigin),
            Origin::Signed(who) => if tok.bal(who) < self.config.min_proposal_deposit {
                Some(Error::InsufficientBalance)
            } else if now + self.config.voting_period > u64::MAX || self.proposal_count
                == u32::MAX {
                Some(Error::Overflow)
            } else {
                None
            },
        }
    }

    /// The error `vote` reports, if any, in check order.
    pub open spec fn vote_err(self, origin: Origin, pid: u32, now: u64) -> Option<Error> {
        match origin {
            Origin::Root => Some(Error::BadOrigin),
            Origin::Signed(who) => match self.proposal_of(pid) {
                None => Some(Error::ProposalNotFound),
                Some(p) => if now >= p.voting_ends {
                    Some(Error::VotingEnded)
                } else if self.has_voted(pid, who) {
                    Some(Error::AlreadyVoted)
                } else {
                    None
                },
            },
        }
    }

    /// The error `execute_proposal` reports, if any, in check order.
    pub open spec fn execute_err(self, origin: Origin, pid: u32, now: u64) -> Option<Error> {
        match origin {
            Origin::Root => Some(Error::BadOrigin),
            Origin::Signed(_) => match self.proposal_of(pid) {
                None => Some(Error::ProposalNotFound),
                Some(p) => if now < p.voting_ends {
                    Some(Error::VotingNotEnded)
                } else if p.status != ProposalStatus::Active {
                    Some(Error::AlreadyDecided)
                } else {
                    None
                },
            },
        }
    }

    pub fn new(config: Config) -> (r: Pallet)
        ensures
            r.wf(),
            r.config == config,
            r.proposal_count == 0,
            forall|pid: u32| r.proposal_of(pid) is None,
            forall|pid: u32, voter: u64| !r.has_voted(pid, voter),
            r.events@ == Seq::<Event>::empty(),
    {
        let r = Pallet {
            config,
            proposals: KvMap::new(),
            proposal_count: 0,
            votes: KvMap::new(),
            events: Vec::new(),
        };
        proof {
            assert(r.events@ =~= Seq::<Event>::empty());
        }
        r
    }

    pub fn proposal(&self, pid: u32) -> (r: Option<&Proposal>)
        requires
            self.wf(),
        ensures
            (match r {
                Some(p) => self.proposal_of(pid) == Some(*p),
                None => self.proposal_of(pid) is None,
            }),
    {
        self.proposals.get(&pid)
    }

    pub fn vote_record(&self, pid: u32, voter: u64) -> (r: Option<&(bool, u128)>)
        requires
            self.wf(),
        ensures
            (match r {
                Some(v) => self.vote_of(pid, voter) == Some(*v),
                None => !self.has_voted(pid, voter),
            }),
    {
        self.votes.get(&(pid, voter))
    }

    /// Creates a proposal under the next monotonic id; the caller must hold
    /// at least the configured minimum token balance.
    pub fn create_proposal(
        &mut self,
        tok: &token::Pallet,
        origin: Origin,
        title: Vec<u8>,
        description: Vec<u8>,
        now: u64,
    ) -> (r: Result<(), Error>)
        requires
            old(self).wf(),
            tok.wf(),
        ensures
            final(self).wf(),
            (match r {
                Ok(_) => origin matches Origin::Signed(who) && {
                    &&& old(self).create_err(*tok, origin, now) is None
                    &&& final(self).proposal_of(old(self).proposal_count) matches Some(p)
                        && p.proposer == who && p.title@ == title@ && p.description@
                        == description@ && p.votes_for == 0 && p.votes_against == 0 && p.status
                        == ProposalStatus::Active && p.created_at == now && p.voting_ends == now
                        + old(self).config.voting_period
                    &&& forall|pid: u32|
                        pid != old(self).proposal_count ==> #[trigger] final(self).proposal_of(pid)
                            == old(self).proposal_of(pid)
                    &&& final(self).proposal_count == old(self).proposal_count + 1
                    &&& final(self).votes == old(self).votes
                    &&& final(self).config == old(self).config
                    &&& appended(old(self).events@, final(self).events@)
                    &&& (final(self).events@.last() matches Event::ProposalCreated {
                        proposal_id,
                        proposer,
                    } && proposal_id == old(self).proposal_count && proposer == who)
                },
                Err(e) => {
                    &&& *final(self) == *old(self)
                    &&& old(self).create_err(*tok, origin, now) == Some(e)
                },
            }),
    {
        let who = match origin {
            Origin::Signed(w) => w,
            Origin::Root => {
                return Err(Error::BadOrigin);
            }
        };
        let balance = tok.balance_of(who);
        if balance < self.config.min_proposal_deposit {
            return Err(Error::InsufficientBalance);
        }
        let ends = match now.checked_add(self.config.voting_period) {
            Some(x) => x,
            None => {
                return Err(Error::Overflow);
            }
        };
        let proposal_id = self.proposal_count;
        let next_count = match proposal_id.checked_add(1) {
            Some(x) => x,
            None => {
                return Err(Error::Overflow);
            }
        };
        let record = Proposal {
            proposer: who,
            title,
            description,
            votes_for: 0,
            votes_against: 0,
            status: ProposalStatus::Active,
            created_at: now,
            voting_ends: ends,
        };
        self.proposals.set(proposal_id, record);
        self.proposal_count = next_count;
        self.events.push(Event::ProposalCreated { proposal_id, proposer: who });
        Ok(())
    }

    /// Casts the caller's vote on an open proposal, weighted by the caller's
    /// token balance at this moment; a voter may vote once per proposal.
    pub fn vote(
        &mut self,
        tok: &token::Pallet,
        origin: Origin,
        proposal_id: u32,
        support: bool,
        now: u64,
    ) -> (r: Result<(), Error>)
        requires
            old(self).wf(),
            tok.wf(),
        ensures
            final(self).wf(),
            (match r {
                Ok(_) => origin matches Origin::Signed(who) && {
                    &&& old(self).vote_err(origin, proposal_id, now) is None
                    &&& vote_post(
                        *old(self),
                        *final(self),
                        who,
                        proposal_id,
                        support,
                        tok.bal(who),
                    )
                },
                Err(e) => {
                    &&& *final(self) == *old(self)
                    &&& old(self).vote_err(origin, proposal_id, now) == Some(e)
                },
            }),
    {
        let who = match origin {
            Origin::Signed(w) => w,
            Origin::Root => {
                return Err(Error::BadOrigin);
            }
        };
        match self.proposals.get(&proposal_id) {
            None => {
                return Err(Error::ProposalNotFound);
            }
            Some(p) => {
                if now >= p.voting_ends {
                    return Err(Error::VotingEnded);
                }
            }
        }
        if self.votes.contains(&(proposal_id, who)) {
            return Err(Error::AlreadyVoted);
        }
        let weight = tok.balance_of(who);
        let (key, mut record) = match self.proposals.remove_take(&proposal_id) {
            Some(kv) => kv,
            None => {
                return Err(Error::ProposalNotFound);
            }
        };
        if support {
            record.votes_for = record.votes_for.saturating_add(weight);
        } else {
            record.votes_against = record.votes_against.saturating_add(weight);
        }
        self.proposals.set(key, record);
        self.votes.set((proposal_id, who), (true, weight));
        self.events.push(Event::VoteCast { proposal_id, voter: who, support, weight });
        Ok(())
    }

    /// Resolves a still-active proposal once its voting window has closed:
    /// strictly more support than opposition executes it, anything else
    /// (including a tie) rejects it. A decided proposal admits no further
    /// transition and reports `AlreadyDecided`. Callable by any signed
    /// account.
    pub fn execute_proposal(&mut self, origin: Origin, proposal_id: u32, now: u64) -> (r: Result<
        (),
        Error,
    >)
        requires
            old(self).wf(),
        ensures
            final(self).wf(),
            (match r {
                Ok(_) => {
                    &&& old(self).execute_err(origin, proposal_id, now) is None
                    &&& old(self).proposal_of(proposal_id) matches Some(p) && {
                        &&& p.status == ProposalStatus::Active
                        &&& final(self).proposal_of(proposal_id) == (Some(
                            Proposal {
                                status: (if p.votes_for > p.votes_against {
                                    ProposalStatus::Executed
                                } else {
                                    ProposalStatus::Rejected
                                }),
                                ..p
                            },
                        ))
                        &&& (final(self).events@.last() == (if p.votes_for > p.votes_against {
                            Event::ProposalExecuted { proposal_id }
                        } else {
                            Event::ProposalRejected { proposal_id }
                        }))
                    }
                    &&& forall|pid: u32|
                        pid != proposal_id ==> #[trigger] final(self).proposal_of(pid) == old(
                            self,
                        ).proposal_of(pid)
                    &&& final(self).proposal_count == old(self).proposal_count
                    &&& final(self).votes == old(self).votes
                    &&& final(self).config == old(self).config
                    &&& appended(old(self).events@, final(self).events@)
                },
                Err(e) => {
                    &&& *final(self) == *old(self)
                    &&& old(self).execute_err(origin, proposal_id, now) == Some(e)
                },
            }),
    {
        match origin {
            Origin::Signed(_) => {}
            Origin::Root => {
                return Err(Error::BadOrigin);
            }
        }
        match self.proposals.get(&proposal_id) {
            None => {
                return Err(Error::ProposalNotFound);
            }
            Some(p) => {
                if now < p.voting_ends {
                    return Err(Error::VotingNotEnded);
                }
                if !(p.status == ProposalStatus::Active) {
                    return Err(Error::AlreadyDecided);
                }
            }
        }
        let (key, mut record) = match self.proposals.remove_take(&proposal_id) {
            Some(kv) => kv,
            None => {
                return Err(Error::ProposalNotFound);
            }
        };
        let passed = record.votes_for > record.votes_against;
        if passed {
            record.status = ProposalStatus::Executed;
        } else {
            record.status = ProposalStatus::Rejected;
        }
        self.proposals.set(key, record);
        if passed {
            self.events.push(Event::ProposalExecuted { proposal_id });
        } else {
            self.events.push(Event::ProposalRejected { proposal_id });
        }
        Ok(())
    }
}

/// State relation of a successfully cast vote. The stored record is
/// (cast flag, weight): the flag is `true` once the vote exists, and the
/// chosen direction shows in the tallies and the event.
pub open spec fn vote_post(
    pre: Pallet,
    post: Pallet,
    who: u64,
    pid: u32,
    support: bool,
    weight: u128,
) -> bool {
    &&& pre.proposal_of(pid) matches Some(p) && post.proposal_of(pid) == (Some(
        Proposal {
            votes_for: (if support {
                sat_add(p.votes_for, weight)
            } else {
                p.votes_for
            }),
            votes_against: (if support {
                p.votes_against
            } else {
                sat_add(p.votes_against, weight)
            }),
            ..p
        },
    ))
    &&& forall|pid2: u32| pid2 != pid ==> #[trigger] post.proposal_of(pid2) == pre.proposal_of(pid2)
    &&& post.vote_of(pid, who) == Some((true, weight))
    &&& forall|p2: (u32, u64)|
        p2 != (pid, who) ==> #[trigger] post.votes.val_of(p2) == pre.votes.val_of(p2)
    &&& post.proposal_count == pre.proposal_count
    &&& post.config == pre.config
    &&& appended(pre.events@, post.events@)
    &&& (post.events@.last() matches Event::VoteCast { proposal_id, voter, support: s, weight: w }
        && proposal_id == pid && voter == who && s == support && w == weight)
}

/// One vote per account and proposal: after an account's vote has been
/// recorded, a second `vote` call by the same account on the same proposal,
/// made while the voting window is still open, reports exactly
/// `AlreadyVoted`; by the vote contract a rejected call leaves the tallies
/// and all other state unchanged.
pub proof fn lemma_one_vote(
    g0: Pallet,
    g1: Pallet,
    who: u64,
    pid: u32,
    support: bool,
    weight: u128,
    now2: u64,
)
    requires
        vote_post(g0, g1, who, pid, support, weight),
        g1.proposal_of(pid) matches Some(p) && now2 < p.voting_ends,
    ensures
        g1.vote_err(Origin::Signed(who), pid, now2) == Some(Error::AlreadyVoted),
{
    assert(g1.votes.val_of((pid, who)) == Some((true, weight)));
    assert(g1.has_voted(pid, who));
}

} // verus!
