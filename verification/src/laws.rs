//! General laws of the voting state machine, proved once and for all.

use vstd::prelude::*;

use crate::engine::EraEngine;
use crate::hasher::Hasher;
use crate::ledger::Ledger;
use crate::tally::{VoteRecord, count_by_voter_for_topic, lemma_counts_after_append, vote_fee};
use crate::topic::Topic;

verus! {

/// Once a topic is stored under its content hash, submitting the same
/// content again finds that hash present and is rejected as a
/// duplicate, while content whose hash differs from every stored one is
/// not.  Together with `submit_topic`'s contract — success stores the
/// topic under its content's hash, and `DuplicateTopic` is returned
/// exactly when that hash is already stored — this pins resubmission:
/// the same content fails, and distinct content never collides unless
/// its hashes do.
pub proof fn lemma_duplicate_resubmission(topics: Map<u64, Topic>, h1: u64, t: Topic, h2: u64)
    ensures
        topics.insert(h1, t).contains_key(h1),
        h2 != h1 && !topics.contains_key(h2) ==> !topics.insert(h1, t).contains_key(h2),
{
}

/// An engine holding no topics can have nothing queued, nothing active,
/// no recorded vote, and no resolved winner: eras that pass without a
/// submission leave no trace beyond the era counter.
pub proof fn lemma_no_topics_no_activity<H: Hasher, L: Ledger>(engine: &EraEngine<H, L>)
    requires
        engine.wf(),
        forall|h: u64| !engine.topics@.contains_key(h),
    ensures
        engine.queue.active@.len() == 0,
        engine.queue.queued@.len() == 0,
        forall|e: u64| !engine.winners@.contains_key(e),
        forall|e: u64| engine.log_of(e).len() == 0,
{
    if engine.queue.active@.len() > 0 {
        assert(engine.topics@.contains_key(engine.queue.active@[0]));
    }
    if engine.queue.queued@.len() > 0 {
        assert(engine.topics@.contains_key(engine.queue.queued@[0]));
    }
    assert forall|e: u64| !engine.winners@.contains_key(e) by {
        if engine.winners@.contains_key(e) {
            assert(engine.topics@.contains_key(engine.winners@[e]));
        }
    };
    assert forall|e: u64| engine.log_of(e).len() == 0 by {
        if engine.log_of(e).len() > 0 {
            assert(engine.topics@.contains_key(engine.votes@[e]@[0].topic));
        }
    };
}

/// The quadratic cost curve: on a log holding k prior votes by `voter`
/// for `topic`, the next such vote costs (k+1)^2 times the base fee,
/// and casting it raises the price of the vote after to (k+2)^2 times
/// the base fee — successive votes cost 1, 4, 9, 16, ... base fees.
pub proof fn lemma_quadratic_cost_progression(
    log: Seq<VoteRecord>,
    voter: u64,
    topic: u64,
    base_fee: u64,
)
    ensures
        vote_fee(log, voter, topic, base_fee) == ({
            let k1 = count_by_voter_for_topic(log, voter, topic) + 1;
            k1 * k1 * (base_fee as int)
        }),
        vote_fee(log.push((VoteRecord { topic: topic, voter: voter })), voter, topic, base_fee)
            == ({
            let k2 = count_by_voter_for_topic(log, voter, topic) + 2;
            k2 * k2 * (base_fee as int)
        }),
{
    lemma_counts_after_append(log, VoteRecord { topic: topic, voter: voter });
}

/// Winner resolution is deterministic: a vote log admits at most one
/// winner, since ties are broken in favour of the lowest hash.  Any two
/// replicas that tally the same log therefore resolve the same topic.
pub proof fn lemma_winner_unique(log: Seq<VoteRecord>, w1: u64, w2: u64)
    requires
        crate::tally::is_winner(log, w1),
        crate::tally::is_winner(log, w2),
    ensures
        w1 == w2,
{
    let i1 = choose|i: int| 0 <= i < log.len() && log[i].topic == w1;
    let i2 = choose|i: int| 0 <= i < log.len() && log[i].topic == w2;
    assert(log[i1].topic == w1);
    assert(log[i2].topic == w2);
}

/// Rollover is idempotent: once the engine's era counter has caught up
/// with a boundary tick, that boundary is no longer due, and by
/// `advance`'s contract a repeated call at the same tick changes
/// nothing — in particular it neither re-tallies the closed era nor
/// overwrites the winner already resolved for it.
pub proof fn lemma_rollover_idempotent<H: Hasher, L: Ledger>(engine: &EraEngine<H, L>, tick: u64)
    requires
        engine.current_era as int >= engine.era_index(tick),
    ensures
        !engine.rollover_due(tick),
{
}

/// Round-trip: a store keyed by the content hash gives back exactly the
/// stored topic, its content unmodified.  Together with `submit_topic`'s
/// contract and the determinism of `Hasher::hash_spec`, looking up a
/// submitted topic under the hash of its content returns that very
/// content.
pub proof fn lemma_content_round_trip(topics: Map<u64, Topic>, h: u64, t: Topic)
    ensures
        topics.insert(h, t)[h] == t,
        topics.insert(h, t)[h].content == t.content,
{
}

} // verus!
