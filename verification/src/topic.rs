//! Topics and the store that maps content hashes to them.

use vstd::prelude::*;
use std::collections::HashMap;

use crate::engine::Error;

verus! {

broadcast use vstd::std_specs::hash::group_hash_axioms;

/// A proposal.  Its identity is the hash of `content`; once stored it is
/// never mutated.
pub struct Topic {
    pub content: Vec<u8>,
    pub proposer: u64,
    pub deposit: u64,
    pub submitted_at: u64,
}

/// The mapping from a topic's content hash to the topic itself.
pub struct TopicStore {
    pub map: HashMap<u64, Topic>,
}

impl View for TopicStore {
    type V = Map<u64, Topic>;

    open spec fn view(&self) -> Map<u64, Topic> {
        self.map@
    }
}

impl TopicStore {
    pub fn new() -> (s: TopicStore)
        ensures
            s@ == Map::<u64, Topic>::empty(),
    {
        TopicStore { map: HashMap::new() }
    }

    pub fn contains(&self, hash: u64) -> (r: bool)
        ensures
            r == self@.contains_key(hash),
    {
        self.map.contains_key(&hash)
    }

    /// Looks the topic up; a pure read.
    pub fn get(&self, hash: u64) -> (r: Option<&Topic>)
        ensures
            match r {
                Some(t) => self@.contains_key(hash) && *t == self@[hash],
                None => !self@.contains_key(hash),
            },
    {
        self.map.get(&hash)
    }

    /// Inserts a topic under its content hash; a hash already present is
    /// a duplicate and leaves the store unchanged.
    pub fn put(&mut self, hash: u64, topic: Topic) -> (r: Result<(), Error>)
        ensures
            old(self)@.contains_key(hash) ==> r == Result::<(), Error>::Err(Error::DuplicateTopic)
                && final(self)@ == old(self)@,
            !old(self)@.contains_key(hash) ==> r is Ok && final(self)@ == old(self)@.insert(
                hash,
                topic,
            ),
    {
        if self.map.contains_key(&hash) {
            Err(Error::DuplicateTopic)
        } else {
            self.map.insert(hash, topic);
            Ok(())
        }
    }
}

} // verus!
