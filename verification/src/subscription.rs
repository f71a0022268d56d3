//! Who listens on a topic.
use std::collections::HashSet;
use vstd::prelude::*;

verus! {

/// Internal tracking of a topic that was subscribed to.
pub struct Subscription {
    topic_type: String,
    handles: HashSet<u128>,
}

/// The message type that the topic was first subscribed with, and the ids of its subscribers.
#[verifier::ext_equal]
pub struct SubscriptionView {
    pub topic_type: Seq<char>,
    pub handles: Set<u128>,
}

impl View for Subscription {
    type V = SubscriptionView;

    closed spec fn view(&self) -> SubscriptionView {
        SubscriptionView { topic_type: self.topic_type@, handles: self.handles@ }
    }
}

impl Subscription {
    /// A topic without subscribers.
    pub fn new(topic_type: &str) -> (subscription: Subscription)
        ensures
            subscription@ == (SubscriptionView {
                topic_type: topic_type@,
                handles: Set::<u128>::empty(),
            }),
    {
        Subscription { topic_type: topic_type.to_owned(), handles: HashSet::new() }
    }

    /// The message type that the topic was first subscribed with.
    pub fn topic_type(&self) -> (topic_type: &String)
        ensures
            topic_type@ == self@.topic_type,
    {
        &self.topic_type
    }

    /// The ids of the subscribers, each once.
    pub fn handles(&self) -> (handles: Vec<u128>)
        ensures
            handles@.no_duplicates(),
            handles@.to_set() == self@.handles,
    {
        let mut handles: Vec<u128> = Vec::new();
        for id in walk: self.handles.iter()
            invariant
                walk.seq().no_duplicates(),
                walk.seq().unref().to_set() == self.handles@,
                handles@ == walk.seq().unref().take(walk.index() as int),
                walk.index() == walk.seq().len() ==> handles@ == walk.seq().unref(),
        {
            handles.push(*id);
        }
        handles
    }

    /// Whether nobody listens.
    pub fn is_empty(&self) -> (empty: bool)
        ensures
            empty == (self@.handles == Set::<u128>::empty()),
    {
        self.handles.is_empty()
    }

    /// Adds a subscriber.
    pub fn add(&mut self, id: u128)
        ensures
            final(self)@ == (SubscriptionView { handles: old(self)@.handles.insert(id), ..old(self)@ }),
    {
        self.handles.insert(id);
    }

    /// Takes a subscriber away, and tells whether it was there.
    pub fn remove(&mut self, id: u128) -> (found: bool)
        ensures
            final(self)@ == (SubscriptionView { handles: old(self)@.handles.remove(id), ..old(self)@ }),
            found == old(self)@.handles.contains(id),
    {
        self.handles.remove(&id)
    }
}

} // verus!
