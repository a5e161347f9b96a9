//! Vote records, the quadratic fee rule, and winner resolution.

use vstd::prelude::*;

use crate::engine::Error;

verus! {

/// One vote, as stored in an era's append-only vote log.
#[derive(Clone, Copy, Debug, PartialEq, Eq, Structural)]
pub struct VoteRecord {
    pub topic: u64,
    pub voter: u64,
}

/// How many records of `log` are votes for `topic`.
pub open spec fn count_for_topic(log: Seq<VoteRecord>, topic: u64) -> int
    decreases log.len(),
{
    if log.len() == 0 {
        0
    } else {
        count_for_topic(log.drop_last(), topic) + if log.last().topic == topic {
            1int
        } else {
            0int
        }
    }
}

/// How many records of `log` were cast by `voter`, over all topics.
pub open spec fn count_by_voter(log: Seq<VoteRecord>, voter: u64) -> int
    decreases log.len(),
{
    if log.len() == 0 {
        0
    } else {
        count_by_voter(log.drop_last(), voter) + if log.last().voter == voter {
            1int
        } else {
            0int
        }
    }
}

/// How many records of `log` were cast by `voter` for `topic`.
pub open spec fn count_by_voter_for_topic(log: Seq<VoteRecord>, voter: u64, topic: u64) -> int
    decreases log.len(),
{
    if log.len() == 0 {
        0
    } else {
        count_by_voter_for_topic(log.drop_last(), voter, topic) + if log.last().voter == voter
            && log.last().topic == topic {
            1int
        } else {
            0int
        }
    }
}

/// The fee owed for the next vote by `voter` for `topic` on top of `log`:
/// the (k+1)-th such vote costs (k+1)^2 times the base fee.
pub open spec fn vote_fee(log: Seq<VoteRecord>, voter: u64, topic: u64, base_fee: u64) -> int {
    let prior = count_by_voter_for_topic(log, voter, topic);
    (prior + 1) * (prior + 1) * (base_fee as int)
}

/// `w` won `log`: it received votes, and every topic in the log either has
/// strictly fewer votes or ties with a hash no smaller than `w`.
pub open spec fn is_winner(log: Seq<VoteRecord>, w: u64) -> bool {
    &&& exists|i: int| 0 <= i < log.len() && log[i].topic == w
    &&& forall|i: int|
        0 <= i < log.len() ==> count_for_topic(log, #[trigger] log[i].topic) < count_for_topic(
            log,
            w,
        ) || (count_for_topic(log, log[i].topic) == count_for_topic(log, w) && w <= log[i].topic)
}

/// A voter never has more votes for one topic than votes in total.
pub proof fn lemma_topic_votes_within_total(log: Seq<VoteRecord>, voter: u64, topic: u64)
    ensures
        0 <= count_by_voter_for_topic(log, voter, topic) <= count_by_voter(log, voter),
        count_by_voter(log, voter) <= log.len(),
    decreases log.len(),
{
    if log.len() > 0 {
        lemma_topic_votes_within_total(log.drop_last(), voter, topic);
    }
}

/// Appending a record extends each count by exactly its own contribution.
pub proof fn lemma_counts_after_append(log: Seq<VoteRecord>, rec: VoteRecord)
    ensures
        count_for_topic(log.push(rec), rec.topic) == count_for_topic(log, rec.topic) + 1,
        count_by_voter(log.push(rec), rec.voter) == count_by_voter(log, rec.voter) + 1,
        count_by_voter_for_topic(log.push(rec), rec.voter, rec.topic) == count_by_voter_for_topic(
            log,
            rec.voter,
            rec.topic,
        ) + 1,
{
    assert(log.push(rec).drop_last() =~= log);
}

proof fn lemma_take_step(log: Seq<VoteRecord>, i: int)
    requires
        0 <= i < log.len(),
    ensures
        log.take(i + 1).drop_last() == log.take(i),
        log.take(i + 1).last() == log[i],
{
    assert(log.take(i + 1).drop_last() =~= log.take(i));
}

/// Counts the prior votes in `log` by `voter` for `topic` and by `voter`
/// over all topics, in one pass.
pub fn count_votes(log: &Vec<VoteRecord>, voter: u64, topic: u64) -> (r: (usize, usize))
    ensures
        r.0 as int == count_by_voter_for_topic(log@, voter, topic),
        r.1 as int == count_by_voter(log@, voter),
{
    let mut by_topic: usize = 0;
    let mut by_voter: usize = 0;
    let mut i: usize = 0;
    while i < log.len()
        invariant
            0 <= i <= log@.len(),
            by_topic <= i,
            by_voter <= i,
            by_topic as int == count_by_voter_for_topic(log@.take(i as int), voter, topic),
            by_voter as int == count_by_voter(log@.take(i as int), voter),
        decreases log@.len() - i,
    {
        proof {
            lemma_take_step(log@, i as int);
        }
        let rec = log[i];
        if rec.voter == voter {
            by_voter = by_voter + 1;
            if rec.topic == topic {
                by_topic = by_topic + 1;
            }
        }
        i = i + 1;
    }
    proof {
        assert(log@.take(log@.len() as int) =~= log@);
    }
    (by_topic, by_voter)
}

/// Counts the votes for `topic` across the whole of `log`.
pub fn count_topic_votes(log: &Vec<VoteRecord>, topic: u64) -> (c: usize)
    ensures
        c as int == count_for_topic(log@, topic),
{
    let mut c: usize = 0;
    let mut i: usize = 0;
    while i < log.len()
        invariant
            0 <= i <= log@.len(),
            c <= i,
            c as int == count_for_topic(log@.take(i as int), topic),
        decreases log@.len() - i,
    {
        proof {
            lemma_take_step(log@, i as int);
        }
        if log[i].topic == topic {
            c = c + 1;
        }
        i = i + 1;
    }
    proof {
        assert(log@.take(log@.len() as int) =~= log@);
    }
    c
}

/// Copies an era's vote log.
pub(crate) fn copy_records(log: &Vec<VoteRecord>) -> (r: Vec<VoteRecord>)
    ensures
        r@ == log@,
{
    let mut r: Vec<VoteRecord> = Vec::new();
    let mut i: usize = 0;
    while i < log.len()
        invariant
            0 <= i <= log@.len(),
            r@ == log@.take(i as int),
        decreases log@.len() - i,
    {
        r.push(log[i]);
        proof {
            assert(log@.take(i as int).push(log@[i as int]) =~= log@.take(i as int + 1));
        }
        i = i + 1;
    }
    proof {
        assert(log@.take(log@.len() as int) =~= log@);
    }
    r
}

/// Gates one vote by `voter` for `topic` against the per-era cap and
/// computes the quadratic fee the vote costs.  The log itself is not
/// changed here: the caller appends the record only after the fee has
/// been reserved.
pub fn record_vote(log: &Vec<VoteRecord>, voter: u64, topic: u64, max_votes: u64, base_fee: u64)
    -> (r: Result<u64, Error>)
    requires
        (max_votes as int) * (max_votes as int) * (base_fee as int) <= u64::MAX as int,
    ensures
        count_by_voter(log@, voter) + 1 > max_votes as int ==> r == Result::<u64, Error>::Err(
            Error::VoterReachedMaxVotes,
        ),
        count_by_voter(log@, voter) + 1 <= max_votes as int ==> (r matches Ok(fee) && fee as int
            == vote_fee(log@, voter, topic, base_fee)),
{
    let (prior_same, prior_total) = count_votes(log, voter, topic);
    proof {
        lemma_topic_votes_within_total(log@, voter, topic);
    }
    if prior_total as u64 >= max_votes {
        return Err(Error::VoterReachedMaxVotes);
    }
    let k1: u64 = prior_same as u64 + 1;
    proof {
        assert(1 <= k1 as int <= max_votes as int);
        assert((k1 as int) * (base_fee as int) <= (max_votes as int) * (max_votes as int) * (
        base_fee as int) && (k1 as int) * ((k1 as int) * (base_fee as int)) <= (max_votes as int)
            * (max_votes as int) * (base_fee as int) && (k1 as int) * ((k1 as int) * (
        base_fee as int)) == (k1 as int) * (k1 as int) * (base_fee as int)) by (nonlinear_arith)
            requires
                1 <= k1 as int <= max_votes as int,
                0 <= base_fee as int,
        ;
    }
    let step: u64 = k1 * base_fee;
    let fee: u64 = k1 * step;
    Ok(fee)
}

/// Resolves the winner of an era's vote log: the topic with the most
/// votes, breaking ties in favour of the lowest hash.  An empty log has
/// no winner.
pub fn tally(log: &Vec<VoteRecord>) -> (r: Option<u64>)
    ensures
        r is None <==> log@.len() == 0,
        r matches Some(w) ==> is_winner(log@, w),
{
    if log.len() == 0 {
        return None;
    }
    let mut best_t: u64 = log[0].topic;
    let mut best_c: usize = count_topic_votes(log, best_t);
    let mut i: usize = 1;
    while i < log.len()
        invariant
            1 <= i <= log@.len(),
            best_c as int == count_for_topic(log@, best_t),
            exists|j: int| 0 <= j < i && log@[j].topic == best_t,
            forall|j: int|
                0 <= j < i ==> count_for_topic(log@, #[trigger] log@[j].topic) < best_c as int || (
                count_for_topic(log@, log@[j].topic) == best_c as int && best_t <= log@[j].topic),
        decreases log@.len() - i,
    {
        let t = log[i].topic;
        let c = count_topic_votes(log, t);
        if c > best_c || (c == best_c && t < best_t) {
            best_t = t;
            best_c = c;
        }
        i = i + 1;
    }
    Some(best_t)
}

} // verus!
