use quadvoting::engine::{EraEngine, Error, Event};
use quadvoting::hasher::{FnvHasher, Hasher};
use quadvoting::ledger::{InMemoryLedger, Ledger};
use quadvoting::tally::{record_vote, tally, VoteRecord};

const ERA_DURATION: u64 = 20;
const MAX_VOTES: u64 = 5;
const SUBMISSION_DEPOSIT: u64 = 10;
const BASE_VOTE_FEE: u64 = 10;

fn engine_with_funds(max_votes: u64) -> EraEngine<FnvHasher, InMemoryLedger> {
    let mut ledger = InMemoryLedger::new();
    ledger.fund(1, 1_000);
    ledger.fund(2, 1_000);
    EraEngine::new(
        FnvHasher,
        ledger,
        ERA_DURATION,
        max_votes,
        SUBMISSION_DEPOSIT,
        BASE_VOTE_FEE,
    )
}

fn rec(topic: u64, voter: u64) -> VoteRecord {
    VoteRecord { topic, voter }
}

#[test]
fn duplicate_content_is_rejected() {
    let mut engine = engine_with_funds(MAX_VOTES);
    let h1 = engine
        .submit_topic(1, b"proposal one".to_vec(), 0)
        .expect("first submission succeeds");
    assert_eq!(
        engine.submit_topic(1, b"proposal one".to_vec(), 0),
        Err(Error::DuplicateTopic)
    );
    assert_eq!(
        engine.submit_topic(2, b"proposal one".to_vec(), 0),
        Err(Error::DuplicateTopic)
    );
    // Distinct content does not collide.
    let h2 = engine
        .submit_topic(1, b"proposal two".to_vec(), 0)
        .expect("distinct content is accepted");
    assert_ne!(h1, h2);
    // Empty content is content like any other.
    assert!(engine.submit_topic(1, vec![], 0).is_ok());
}

#[test]
fn empty_eras_leave_no_trace() {
    let mut engine = engine_with_funds(MAX_VOTES);
    for t in 0..=3 * ERA_DURATION {
        engine.advance(t);
    }
    assert!(engine.get_current_topics().is_empty());
    assert!(engine.get_next_topics().is_empty());
    for era in 0..4 {
        assert!(engine.get_winners(era).is_none());
        assert!(engine.get_votes(era).is_none());
    }
}

#[test]
fn quadratic_fee_progression() {
    let mut engine = engine_with_funds(MAX_VOTES);
    let h = engine.submit_topic(1, b"the topic".to_vec(), 0).unwrap();
    for t in 0..=ERA_DURATION {
        engine.advance(t);
    }
    // Successive votes by the same voter for the same topic cost
    // 1, 4, 9 times the base fee.
    assert!(engine.vote_topic(2, h, 21).is_ok());
    assert_eq!(engine.ledger.reserved_balance(2), 10);
    assert!(engine.vote_topic(2, h, 22).is_ok());
    assert_eq!(engine.ledger.reserved_balance(2), 50);
    assert!(engine.vote_topic(2, h, 23).is_ok());
    assert_eq!(engine.ledger.reserved_balance(2), 140);
}

#[test]
fn vote_fee_formula_exact_values() {
    let log: Vec<VoteRecord> = vec![];
    assert_eq!(record_vote(&log, 7, 5, MAX_VOTES, BASE_VOTE_FEE), Ok(10));
    let log = vec![rec(5, 7)];
    assert_eq!(record_vote(&log, 7, 5, MAX_VOTES, BASE_VOTE_FEE), Ok(40));
    let log = vec![rec(5, 7), rec(5, 7)];
    assert_eq!(record_vote(&log, 7, 5, MAX_VOTES, BASE_VOTE_FEE), Ok(90));
    // Votes by other voters, or for other topics, do not raise the price.
    let log = vec![rec(5, 8), rec(6, 7), rec(5, 7)];
    assert_eq!(record_vote(&log, 7, 5, MAX_VOTES, BASE_VOTE_FEE), Ok(40));
}

#[test]
fn vote_cap_rejects_without_reserving() {
    let mut engine = engine_with_funds(2);
    let h1 = engine.submit_topic(1, b"first".to_vec(), 0).unwrap();
    let h2 = engine.submit_topic(1, b"second".to_vec(), 0).unwrap();
    for t in 0..=ERA_DURATION {
        engine.advance(t);
    }
    assert!(engine.vote_topic(2, h1, 21).is_ok());
    assert!(engine.vote_topic(2, h2, 22).is_ok());
    let reserved_before = engine.ledger.reserved_balance(2);
    // The cap counts votes across all topics within the era.
    assert_eq!(engine.vote_topic(2, h1, 23), Err(Error::VoterReachedMaxVotes));
    assert_eq!(engine.ledger.reserved_balance(2), reserved_before);
    assert_eq!(engine.get_votes(1).map(|v| v.len()), Some(2));
}

#[test]
fn rollover_is_idempotent() {
    let mut engine = engine_with_funds(MAX_VOTES);
    let h = engine.submit_topic(1, b"only entry".to_vec(), 0).unwrap();
    for t in 0..=ERA_DURATION {
        engine.advance(t);
    }
    assert!(engine.vote_topic(2, h, 25).is_ok());
    assert_eq!(
        engine.advance(2 * ERA_DURATION),
        Some(Event::NewEra { era: 2 })
    );
    assert_eq!(engine.get_winners(1), Some(h));
    let active_before = engine.get_current_topics().clone();
    // A repeated boundary tick is a no-op: nothing is re-tallied or
    // overwritten.
    assert_eq!(engine.advance(2 * ERA_DURATION), None);
    assert_eq!(engine.get_winners(1), Some(h));
    assert_eq!(engine.get_current_topics(), &active_before);
    // Off-boundary ticks are no-ops as well.
    assert_eq!(engine.advance(2 * ERA_DURATION + 3), None);
}

#[test]
fn stored_content_round_trips_through_its_hash() {
    let mut engine = engine_with_funds(MAX_VOTES);
    let content = b"exact bytes, kept as they are".to_vec();
    let h = engine.submit_topic(1, content.clone(), 7).unwrap();
    assert_eq!(h, FnvHasher.hash(&content));
    let stored = engine.get_topic_preimage(h).expect("stored under its hash");
    assert_eq!(stored.content, content);
    assert_eq!(stored.proposer, 1);
    assert_eq!(stored.deposit, SUBMISSION_DEPOSIT);
    assert_eq!(stored.submitted_at, 7);
}

#[test]
fn vote_for_inactive_topic_is_unknown() {
    let mut engine = engine_with_funds(MAX_VOTES);
    assert_eq!(engine.vote_topic(1, 12345, 0), Err(Error::UnknownTopic));
    // A queued topic is not votable until its era starts.
    let h = engine.submit_topic(1, b"queued only".to_vec(), 0).unwrap();
    assert_eq!(engine.vote_topic(1, h, 1), Err(Error::UnknownTopic));
}

#[test]
fn insufficient_funds_leave_state_unchanged() {
    let mut engine = engine_with_funds(MAX_VOTES);
    // Account 9 holds nothing.
    assert_eq!(
        engine.submit_topic(9, b"cannot pay".to_vec(), 0),
        Err(Error::InsufficientFunds)
    );
    assert!(engine.get_next_topics().is_empty());
    // A voter whose funds cover less than the base fee cannot vote.
    let h = engine.submit_topic(1, b"funded".to_vec(), 0).unwrap();
    for t in 0..=ERA_DURATION {
        engine.advance(t);
    }
    engine.ledger.fund(9, BASE_VOTE_FEE - 1);
    assert_eq!(engine.vote_topic(9, h, 21), Err(Error::InsufficientFunds));
    assert!(engine.get_votes(1).is_none());
    assert_eq!(engine.ledger.reserved_balance(9), 0);
}

#[test]
fn tally_picks_strict_maximum() {
    assert_eq!(tally(&vec![]), None);
    let log = vec![rec(5, 1), rec(3, 2), rec(5, 2)];
    assert_eq!(tally(&log), Some(5));
}

#[test]
fn tally_breaks_ties_by_lowest_hash() {
    let log = vec![rec(5, 1), rec(3, 2)];
    assert_eq!(tally(&log), Some(3));
    let log = vec![rec(9, 1), rec(2, 2), rec(9, 3), rec(2, 4)];
    assert_eq!(tally(&log), Some(2));
}

#[test]
fn fnv_hash_known_values() {
    assert_eq!(FnvHasher.hash(&vec![]), 0xcbf29ce484222325);
    assert_eq!(FnvHasher.hash(&b"a".to_vec()), 0xaf63dc4c8601ec8c);
}

#[test]
fn ledger_reserves_atomically() {
    let mut ledger = InMemoryLedger::new();
    ledger.fund(1, 100);
    assert_eq!(ledger.reserve(1, 30), Ok(()));
    assert_eq!(ledger.free_balance(1), 70);
    assert_eq!(ledger.reserved_balance(1), 30);
    // A reservation beyond the free balance fails and changes nothing.
    assert!(ledger.reserve(1, 71).is_err());
    assert_eq!(ledger.free_balance(1), 70);
    assert_eq!(ledger.reserved_balance(1), 30);
    assert!(ledger.reserve(2, 1).is_err());
}

#[test]
fn advance_reports_new_eras_only_at_fresh_boundaries() {
    let mut engine = engine_with_funds(MAX_VOTES);
    assert_eq!(engine.advance(0), None);
    assert_eq!(engine.advance(5), None);
    assert_eq!(engine.advance(ERA_DURATION), Some(Event::NewEra { era: 1 }));
    assert_eq!(engine.advance(ERA_DURATION), None);
    assert_eq!(
        engine.advance(2 * ERA_DURATION),
        Some(Event::NewEra { era: 2 })
    );
}

#[test]
fn promotion_preserves_submission_order() {
    let mut engine = engine_with_funds(MAX_VOTES);
    let h1 = engine.submit_topic(1, b"t one".to_vec(), 0).unwrap();
    let h2 = engine.submit_topic(1, b"t two".to_vec(), 0).unwrap();
    let h3 = engine.submit_topic(1, b"t three".to_vec(), 0).unwrap();
    assert_eq!(engine.get_next_topics(), &vec![h1, h2, h3]);
    engine.advance(ERA_DURATION);
    assert_eq!(engine.get_current_topics(), &vec![h1, h2, h3]);
    assert_eq!(engine.get_next_topics(), &Vec::new());
}

#[test]
fn era_without_votes_has_no_winner() {
    let mut engine = engine_with_funds(MAX_VOTES);
    engine.submit_topic(1, b"unloved".to_vec(), 0).unwrap();
    for t in 0..=2 * ERA_DURATION {
        engine.advance(t);
    }
    assert_eq!(engine.get_winners(0), None);
    assert_eq!(engine.get_winners(1), None);
}
