//! Errors, events, and the era engine that orchestrates the state machine.

use vstd::prelude::*;
use std::collections::HashMap;

use crate::hasher::Hasher;
use crate::ledger::Ledger;
use crate::queue::EraQueue;
use crate::tally::{VoteRecord, count_by_voter, copy_records, is_winner, record_vote, tally,
    vote_fee};
use crate::topic::{Topic, TopicStore};

verus! {

broadcast use vstd::std_specs::hash::group_hash_axioms;

/// Every caller-reachable failure of the voting state machine.
#[derive(Clone, Copy, Debug, PartialEq, Eq, Structural)]
pub enum Error {
    /// The topic's content hash is already known.
    DuplicateTopic,
    /// A vote referenced a hash that is not active in the current era.
    UnknownTopic,
    /// The voter already spent all votes allowed in one era.
    VoterReachedMaxVotes,
    /// The external ledger refused to reserve the required funds.
    InsufficientFunds,
}

/// Notifications produced by the state machine for an external event sink.
#[derive(Clone, Copy, Debug, PartialEq, Eq, Structural)]
pub enum Event {
    /// A topic was admitted and queued for the next era.
    NewTopic { who: u64, topic_hash: u64, deposit: u64 },
    /// An era boundary was processed.
    NewEra { era: u64 },
    /// A vote was recorded.
    NewVote { who: u64, topic_hash: u64 },
}

/// The era state machine: topic admission, vote casting, and era
/// rollover, over a content hasher and a fund ledger supplied at
/// construction.  The external clock drives it through the explicit tick
/// arguments; every era of `era_duration` ticks resolves one winner.
pub struct EraEngine<H: Hasher, L: Ledger> {
    pub hasher: H,
    pub ledger: L,
    /// Ticks per era; fixed and positive.
    pub era_duration: u64,
    /// How many votes one voter may cast within one era.
    pub max_votes: u64,
    /// The deposit reserved for submitting a topic.
    pub submission_deposit: u64,
    /// The base fee the quadratic vote cost scales from.
    pub base_vote_fee: u64,
    pub topics: TopicStore,
    pub queue: EraQueue,
    /// The append-only vote log of each era.
    pub votes: HashMap<u64, Vec<VoteRecord>>,
    /// The winner resolved for each era, set once at rollover.
    pub winners: HashMap<u64, u64>,
    /// Eras whose rollover has been processed: the boundary of era
    /// `current_era` is the next one that will be.
    pub current_era: u64,
}

impl<H: Hasher, L: Ledger> EraEngine<H, L> {
    /// The era a tick belongs to.
    pub open spec fn era_index(&self, tick: u64) -> int {
        tick as int / self.era_duration as int
    }

    /// The vote log recorded for `era`.
    pub open spec fn log_of(&self, era: u64) -> Seq<VoteRecord> {
        if self.votes@.contains_key(era) {
            self.votes@[era]@
        } else {
            Seq::<VoteRecord>::empty()
        }
    }

    /// `tick` is an era boundary whose rollover has not yet been
    /// processed.
    pub open spec fn rollover_due(&self, tick: u64) -> bool {
        &&& tick as int % self.era_duration as int == 0
        &&& self.era_index(tick) > self.current_era as int
    }

    /// The construction-time configuration, which never changes.
    pub open spec fn same_config(pre: Self, post: Self) -> bool {
        &&& post.hasher == pre.hasher
        &&& post.era_duration == pre.era_duration
        &&& post.max_votes == pre.max_votes
        &&& post.submission_deposit == pre.submission_deposit
        &&& post.base_vote_fee == pre.base_vote_fee
    }

    /// Well-formedness: the configuration is sound, fees cannot
    /// overflow, queued and active topics are stored, duplicate-free and
    /// disjoint, every vote references a stored topic, and winners are
    /// stored topics resolved only for completed eras.
    pub open spec fn wf(&self) -> bool {
        &&& self.era_duration >= 1
        &&& (self.max_votes as int) * (self.max_votes as int) * (self.base_vote_fee as int)
            <= u64::MAX as int
        &&& self.ledger.wf()
        &&& self.queue.wf()
        &&& forall|i: int|
            0 <= i < self.queue.queued@.len() ==> self.topics@.contains_key(
                #[trigger] self.queue.queued@[i],
            )
        &&& forall|i: int|
            0 <= i < self.queue.active@.len() ==> self.topics@.contains_key(
                #[trigger] self.queue.active@[i],
            )
        &&& forall|i: int|
            0 <= i < self.queue.queued@.len() ==> !self.queue.active@.contains(
                #[trigger] self.queue.queued@[i],
            )
        &&& forall|e: u64, i: int|
            self.votes@.contains_key(e) && 0 <= i < self.votes@[e]@.len()
                ==> self.topics@.contains_key(#[trigger] self.votes@[e]@[i].topic)
        &&& forall|e: u64|
            #[trigger] self.winners@.contains_key(e) ==> self.topics@.contains_key(self.winners@[e])
                && e < self.current_era
    }

    pub fn new(
        hasher: H,
        ledger: L,
        era_duration: u64,
        max_votes: u64,
        submission_deposit: u64,
        base_vote_fee: u64,
    ) -> (engine: Self)
        requires
            era_duration >= 1,
            (max_votes as int) * (max_votes as int) * (base_vote_fee as int) <= u64::MAX as int,
            ledger.wf(),
        ensures
            engine.wf(),
            engine.hasher == hasher,
            engine.ledger == ledger,
            engine.era_duration == era_duration,
            engine.max_votes == max_votes,
            engine.submission_deposit == submission_deposit,
            engine.base_vote_fee == base_vote_fee,
            engine.topics@ == Map::<u64, Topic>::empty(),
            engine.queue.queued@ == Seq::<u64>::empty(),
            engine.queue.active@ == Seq::<u64>::empty(),
            engine.votes@ == Map::<u64, Vec<VoteRecord>>::empty(),
            engine.winners@ == Map::<u64, u64>::empty(),
            engine.current_era == 0,
    {
        EraEngine {
            hasher,
            ledger,
            era_duration,
            max_votes,
            submission_deposit,
            base_vote_fee,
            topics: TopicStore::new(),
            queue: EraQueue::new(),
            votes: HashMap::new(),
            winners: HashMap::new(),
            current_era: 0,
        }
    }

    /// Admits a topic: hashes the content, rejects a known hash as a
    /// duplicate, reserves the submission deposit from the proposer, and
    /// only then stores the topic and queues it for the next era.
    pub fn submit_topic(&mut self, proposer: u64, content: Vec<u8>, now: u64) -> (r: Result<
        u64,
        Error,
    >)
        requires
            old(self).wf(),
        ensures
            final(self).wf(),
            Self::same_config(*old(self), *final(self)),
            ({
                let h = H::hash_spec(content@);
                let deposit = old(self).submission_deposit;
                &&& (r == Result::<u64, Error>::Err(Error::DuplicateTopic) <==> old(
                    self,
                ).topics@.contains_key(h))
                &&& (r == Result::<u64, Error>::Err(Error::DuplicateTopic) ==> *final(self) == *old(
                    self,
                ))
                &&& (r is Err ==> r == Result::<u64, Error>::Err(Error::DuplicateTopic) || r
                    == Result::<u64, Error>::Err(Error::InsufficientFunds))
                &&& (r == Result::<u64, Error>::Err(Error::InsufficientFunds) ==> final(self).topics@ == old(self).topics@ && final(self).queue == old(self).queue && final(self).votes@ == old(self).votes@ && final(self).winners@ == old(self).winners@ && final(self).current_era == old(self).current_era && (forall|a: u64|
                    #[trigger] final(self).ledger.reserved_total(a) == old(
                        self,
                    ).ledger.reserved_total(a)))
                &&& (r matches Ok(hh) ==> hh == h && final(self).topics@ == old(
                    self,
                ).topics@.insert(
                    h,
                    (Topic {
                        content: content,
                        proposer: proposer,
                        deposit: deposit,
                        submitted_at: now,
                    }),
                ) && final(self).queue.queued@ == old(self).queue.queued@.push(h) && final(self).queue.active == old(self).queue.active && final(self).votes@ == old(self).votes@
                    && final(self).winners@ == old(self).winners@ && final(self).current_era == old(
                    self,
                ).current_era && (forall|a: u64|
                    #[trigger] final(self).ledger.reserved_total(a) == old(
                        self,
                    ).ledger.reserved_total(a) + if a == proposer {
                        deposit as int
                    } else {
                        0int
                    }))
            }),
    {
        let topic_hash = self.hasher.hash(&content);
        if self.topics.contains(topic_hash) {
            return Err(Error::DuplicateTopic);
        }
        let deposit = self.submission_deposit;
        match self.ledger.reserve(proposer, deposit) {
            Err(_) => {
                return Err(Error::InsufficientFunds);
            },
            Ok(()) => {},
        }
        let topic = Topic { content, proposer, deposit, submitted_at: now };
        match self.topics.put(topic_hash, topic) {
            Err(e) => {
                return Err(e);
            },
            Ok(()) => {},
        }
        match self.queue.enqueue_next(topic_hash) {
            Err(e) => {
                return Err(e);
            },
            Ok(()) => {},
        }
        Ok(topic_hash)
    }

    /// Casts one vote for an active topic: gates it against the per-era
    /// cap, reserves the quadratic fee from the voter, and only then
    /// appends the record to the tick's era log.
    pub fn vote_topic(&mut self, voter: u64, topic_hash: u64, current_tick: u64) -> (r: Result<
        (),
        Error,
    >)
        requires
            old(self).wf(),
        ensures
            final(self).wf(),
            Self::same_config(*old(self), *final(self)),
            !old(self).queue.active@.contains(topic_hash) ==> r == Result::<(), Error>::Err(
                Error::UnknownTopic,
            ) && *final(self) == *old(self),
            old(self).queue.active@.contains(topic_hash) ==> ({
                let era = (current_tick as int / old(self).era_duration as int) as u64;
                let log = old(self).log_of(era);
                let fee = vote_fee(log, voter, topic_hash, old(self).base_vote_fee);
                &&& (count_by_voter(log, voter) + 1 > old(self).max_votes as int ==> r
                    == Result::<(), Error>::Err(Error::VoterReachedMaxVotes) && *final(self)
                    == *old(self))
                &&& (count_by_voter(log, voter) + 1 <= old(self).max_votes as int ==> (r is Ok || r
                    == Result::<(), Error>::Err(Error::InsufficientFunds)))
                &&& (count_by_voter(log, voter) + 1 <= old(self).max_votes as int && r is Ok
                    ==> final(self).votes@.contains_key(era) && final(self).votes@[era]@ == log.push((VoteRecord { topic: topic_hash, voter: voter }))
                        && (forall|k: u64|
                        k != era ==> (#[trigger] final(self).votes@.contains_key(k) <==> old(
                            self,
                        ).votes@.contains_key(k)) && (old(self).votes@.contains_key(k) ==> final(self).votes@[k] == old(self).votes@[k])) && final(self).topics@ == old(
                        self,
                    ).topics@ && final(self).queue == old(self).queue && final(self).winners@
                        == old(self).winners@ && final(self).current_era == old(self).current_era
                        && (forall|a: u64|
                        #[trigger] final(self).ledger.reserved_total(a) == old(
                            self,
                        ).ledger.reserved_total(a) + if a == voter {
                            fee
                        } else {
                            0int
                        }))
                &&& (count_by_voter(log, voter) + 1 <= old(self).max_votes as int && r
                    == Result::<(), Error>::Err(Error::InsufficientFunds) ==> final(self).topics@ == old(self).topics@ && final(self).queue == old(self).queue && final(self).votes@ == old(self).votes@ && final(self).winners@ == old(self).winners@
                        && final(self).current_era == old(self).current_era && (forall|a: u64|
                        #[trigger] final(self).ledger.reserved_total(a) == old(
                            self,
                        ).ledger.reserved_total(a)))
            }),
    {
        if !self.queue.active_contains(topic_hash) {
            return Err(Error::UnknownTopic);
        }
        let era = current_tick / self.era_duration;
        let log: Vec<VoteRecord> = match self.votes.get(&era) {
            Some(v) => copy_records(v),
            None => Vec::new(),
        };
        let max_votes = self.max_votes;
        let base_fee = self.base_vote_fee;
        let fee = match record_vote(&log, voter, topic_hash, max_votes, base_fee) {
            Ok(f) => f,
            Err(e) => {
                return Err(e);
            },
        };
        match self.ledger.reserve(voter, fee) {
            Err(_) => {
                return Err(Error::InsufficientFunds);
            },
            Ok(()) => {},
        }
        let mut new_log = log;
        new_log.push(VoteRecord { topic: topic_hash, voter });
        self.votes.insert(era, new_log);
        proof {
            assert forall|e2: u64, i: int|
                self.votes@.contains_key(e2) && 0 <= i
                    < self.votes@[e2]@.len() implies self.topics@.contains_key(
                #[trigger] self.votes@[e2]@[i].topic,
            ) by {
                if e2 == era {
                    if i < self.votes@[e2]@.len() - 1 {
                        assert(self.votes@[e2]@[i] == old(self).log_of(era)[i]);
                        assert(old(self).votes@.contains_key(era));
                    } else {
                        assert(self.votes@[e2]@[i].topic == topic_hash);
                        assert(old(self).queue.active@.contains(topic_hash));
                        let j = choose|j: int|
                            0 <= j < old(self).queue.active@.len() && old(self).queue.active@[j]
                                == topic_hash;
                        assert(old(self).topics@.contains_key(old(self).queue.active@[j]));
                    }
                }
            };
        }
        Ok(())
    }

    /// Processes a tick.  At a not-yet-processed era boundary the
    /// closing era's votes are tallied, its winner (if any votes were
    /// cast) is recorded once and for all, and the queued topics are
    /// promoted wholesale to active; every other tick changes nothing.
    pub fn advance(&mut self, tick: u64) -> (r: Option<Event>)
        requires
            old(self).wf(),
        ensures
            final(self).wf(),
            Self::same_config(*old(self), *final(self)),
            !old(self).rollover_due(tick) ==> r is None && *final(self) == *old(self),
            old(self).rollover_due(tick) ==> ({
                let e = old(self).era_index(tick);
                let prev = (e - 1) as u64;
                let log = old(self).log_of(prev);
                &&& r == Some(Event::NewEra { era: e as u64 })
                &&& final(self).current_era as int == e
                &&& !final(self).rollover_due(tick)
                &&& final(self).queue.active@ == old(self).queue.queued@
                &&& final(self).queue.queued@ == Seq::<u64>::empty()
                &&& (log.len() == 0 ==> final(self).winners@ == old(self).winners@)
                &&& (log.len() > 0 ==> final(self).winners@.contains_key(prev) && is_winner(
                    log,
                    final(self).winners@[prev],
                ) && final(self).winners@ == old(self).winners@.insert(
                    prev,
                    final(self).winners@[prev],
                ))
                &&& final(self).topics@ == old(self).topics@
                &&& final(self).votes@ == old(self).votes@
                &&& final(self).ledger == old(self).ledger
            }),
    {
        if tick % self.era_duration != 0 {
            return None;
        }
        let e = tick / self.era_duration;
        if e <= self.current_era {
            return None;
        }
        let prev = e - 1;
        let log: Vec<VoteRecord> = match self.votes.get(&prev) {
            Some(v) => copy_records(v),
            None => Vec::new(),
        };
        match tally(&log) {
            Some(w) => {
                proof {
                    let i = choose|i: int| 0 <= i < log@.len() && log@[i].topic == w;
                    assert(old(self).votes@.contains_key(prev));
                    assert(old(self).votes@[prev]@[i].topic == w);
                }
                self.winners.insert(prev, w);
            },
            None => {},
        }
        self.queue.rollover();
        self.current_era = e;
        proof {
            assert forall|e2: u64| #[trigger]
                self.winners@.contains_key(e2) implies self.topics@.contains_key(self.winners@[e2])
                && e2 < self.current_era by {
                if e2 != prev {
                    assert(old(self).winners@.contains_key(e2));
                }
            };
        }
        Some(Event::NewEra { era: e })
    }

    /// The details of a stored topic, by its content hash.
    pub fn get_topic_preimage(&self, topic_hash: u64) -> (r: Option<&Topic>)
        ensures
            match r {
                Some(t) => self.topics@.contains_key(topic_hash) && *t == self.topics@[topic_hash],
                None => !self.topics@.contains_key(topic_hash),
            },
    {
        self.topics.get(topic_hash)
    }

    /// The hashes votable in the current era.
    pub fn get_current_topics(&self) -> (r: &Vec<u64>)
        ensures
            r@ == self.queue.active@,
    {
        self.queue.current_active()
    }

    /// The hashes queued for the next era.
    pub fn get_next_topics(&self) -> (r: &Vec<u64>)
        ensures
            r@ == self.queue.queued@,
    {
        self.queue.current_queued()
    }

    /// The vote log of `era`, if any vote was recorded for it.
    pub fn get_votes(&self, era: u64) -> (r: Option<&Vec<VoteRecord>>)
        ensures
            match r {
                Some(log) => self.votes@.contains_key(era) && log@ == self.log_of(era),
                None => !self.votes@.contains_key(era),
            },
    {
        self.votes.get(&era)
    }

    /// The winner resolved for `era`, if one was.
    pub fn get_winners(&self, era: u64) -> (r: Option<u64>)
        ensures
            r == if self.winners@.contains_key(era) {
                Some(self.winners@[era])
            } else {
                None::<u64>
            },
    {
        match self.winners.get(&era) {
            Some(w) => Some(*w),
            None => None,
        }
    }
}

} // verus!
