use quadvoting::engine::EraEngine;
use quadvoting::hasher::FnvHasher;
use quadvoting::ledger::InMemoryLedger;

const ERA_DURATION: u64 = 20;
const MAX_VOTES: u64 = 5;
const SUBMISSION_DEPOSIT: u64 = 10;
const BASE_VOTE_FEE: u64 = 10;

fn new_test_engine() -> EraEngine<FnvHasher, InMemoryLedger> {
    let mut ledger = InMemoryLedger::new();
    ledger.fund(1, 1_000);
    ledger.fund(2, 1_000);
    EraEngine::new(
        FnvHasher,
        ledger,
        ERA_DURATION,
        MAX_VOTES,
        SUBMISSION_DEPOSIT,
        BASE_VOTE_FEE,
    )
}

/// Delivers every tick up to and including `n`, as the block clock would.
fn run_to_tick(engine: &mut EraEngine<FnvHasher, InMemoryLedger>, n: u64) {
    let mut t: u64 = 0;
    while t <= n {
        engine.advance(t);
        t += 1;
    }
}

#[test]
fn submit_topic_with_sufficient_funds() {
    let mut engine = new_test_engine();
    assert!(engine.submit_topic(1, vec![0], 0).is_ok());
}

#[test]
fn test_voting_end_to_end() {
    let mut engine = new_test_engine();

    // Starting at the initial tick: no votes or topics exist yet.
    engine.advance(0);
    assert!(engine.get_votes(0).is_none());
    assert!(engine.get_current_topics().is_empty());
    assert!(engine.get_next_topics().is_empty());

    // New topics land in the next era's batch, not the current one.
    assert!(engine
        .submit_topic(1, "new test topic 1".as_bytes().to_vec(), 0)
        .is_ok());
    assert!(
        engine.get_current_topics().is_empty(),
        "confirm that the newly added topic wasn't added to current topics"
    );
    assert!(
        !engine.get_next_topics().is_empty(),
        "confirm that the newly added topic was added to next topics batch"
    );

    assert!(engine
        .submit_topic(1, "new test topic 2".as_bytes().to_vec(), 0)
        .is_ok());
    assert!(engine
        .submit_topic(1, "new test topic 3".as_bytes().to_vec(), 0)
        .is_ok());

    // Transition to a new era.
    run_to_tick(&mut engine, 20);

    // At the start of the new era the queue is empty and the former
    // next topics are now current.
    assert!(engine.get_next_topics().is_empty());
    let current_topics = engine.get_current_topics().clone();
    assert_eq!(current_topics.len(), 3, "should have 3 topics");

    // Vote for item 1 and 3, then use a different user to vote for
    // item 2 and 3.
    assert!(engine.vote_topic(1, current_topics[0], 20).is_ok());
    assert!(engine.vote_topic(1, current_topics[2], 20).is_ok());
    assert!(engine.vote_topic(2, current_topics[1], 20).is_ok());
    assert!(engine.vote_topic(2, current_topics[2], 20).is_ok());

    // All four votes are in the log of the era that tick 20 opened.
    let votes = engine.get_votes(1).expect("should have votes");
    assert_eq!(votes.len(), 4);

    run_to_tick(&mut engine, 40);

    let winner = engine.get_winners(1).expect("should have some winners");
    // The winner of that era should be topic 3, as it had the most votes.
    assert_eq!(current_topics[2], winner);
}
