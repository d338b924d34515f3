//! Topics: the named categories of push message an observer can subscribe to.

use vstd::prelude::*;

verus! {

/// A category of push message. The set is closed.
#[derive(Clone, Copy, Debug, PartialEq, Eq, Hash, Structural)]
pub enum WsTopic {
    SyncStatus,
    MilestoneConfirmed,
    SolidInfo,
    Vertex,
    TipInfo,
    NodeStatus,
    MpsMetricsUpdated,
    MilestoneInfo,
    ConfirmedMilestoneMetrics,
    DatabaseSizeMetrics,
    ConfirmedInfo,
    Milestone,
}

impl WsTopic {
    /// The canonical name of the topic, as it appears in the `type` field of a
    /// push message.
    pub open spec fn spec_name(self) -> Seq<char> {
        match self {
            WsTopic::SyncStatus => "SyncStatus"@,
            WsTopic::MilestoneConfirmed => "MilestoneConfirmed"@,
            WsTopic::SolidInfo => "SolidInfo"@,
            WsTopic::Vertex => "Vertex"@,
            WsTopic::TipInfo => "TipInfo"@,
            WsTopic::NodeStatus => "NodeStatus"@,
            WsTopic::MpsMetricsUpdated => "MpsMetricsUpdated"@,
            WsTopic::MilestoneInfo => "MilestoneInfo"@,
            WsTopic::ConfirmedMilestoneMetrics => "ConfirmedMilestoneMetrics"@,
            WsTopic::DatabaseSizeMetrics => "DatabaseSizeMetrics"@,
            WsTopic::ConfirmedInfo => "ConfirmedInfo"@,
            WsTopic::Milestone => "Milestone"@,
        }
    }

    /// Returns the canonical name of the topic.
    pub fn name(&self) -> (name: &'static str)
        ensures
            name@ == self.spec_name(),
    {
        match self {
            WsTopic::SyncStatus => "SyncStatus",
            WsTopic::MilestoneConfirmed => "MilestoneConfirmed",
            WsTopic::SolidInfo => "SolidInfo",
            WsTopic::Vertex => "Vertex",
            WsTopic::TipInfo => "TipInfo",
            WsTopic::NodeStatus => "NodeStatus",
            WsTopic::MpsMetricsUpdated => "MpsMetricsUpdated",
            WsTopic::MilestoneInfo => "MilestoneInfo",
            WsTopic::ConfirmedMilestoneMetrics => "ConfirmedMilestoneMetrics",
            WsTopic::DatabaseSizeMetrics => "DatabaseSizeMetrics",
            WsTopic::ConfirmedInfo => "ConfirmedInfo",
            WsTopic::Milestone => "Milestone",
        }
    }
}

/// A set of topics: what one observer is subscribed to. It may be empty.
#[derive(Clone, Debug)]
pub struct TopicSet {
    items: Vec<WsTopic>,
}

impl View for TopicSet {
    type V = Set<WsTopic>;

    closed spec fn view(&self) -> Set<WsTopic> {
        self.items@.to_set()
    }
}

impl Default for TopicSet {
    fn default() -> (set: Self)
        ensures
            set@ == Set::<WsTopic>::empty(),
    {
        TopicSet::new()
    }
}

impl TopicSet {
    /// The empty set.
    pub fn new() -> (set: Self)
        ensures
            set@ == Set::<WsTopic>::empty(),
    {
        let set = TopicSet { items: Vec::new() };
        assert(set.items@.to_set() =~= Set::<WsTopic>::empty());
        set
    }

    /// The set of the topics listed in `topics`.
    pub fn from_topics(topics: Vec<WsTopic>) -> (set: Self)
        ensures
            set@ == topics@.to_set(),
    {
        TopicSet { items: topics }
    }

    /// Tells whether `topic` is in the set.
    pub fn contains(&self, topic: WsTopic) -> (found: bool)
        ensures
            found == self@.contains(topic),
    {
        let mut i: usize = 0;
        while i < self.items.len()
            invariant
                i <= self.items@.len(),
                forall|k: int| 0 <= k < i ==> self.items@[k] != topic,
            decreases self.items@.len() - i,
        {
            if self.items[i] == topic {
                assert(self.items@.contains(topic));
                return true;
            }
            i += 1;
        }
        false
    }

    /// Tells whether the set is empty.
    pub fn is_empty(&self) -> (empty: bool)
        ensures
            empty == (self@ == Set::<WsTopic>::empty()),
    {
        let empty = self.items.len() == 0;
        proof {
            if empty {
                assert(self.items@.to_set() =~= Set::<WsTopic>::empty());
            } else {
                assert(self.items@.contains(self.items@[0]));
                assert(self.items@.to_set().contains(self.items@[0]));
            }
        }
        empty
    }

    /// Adds `topic`. Returns whether it was new to the set.
    pub fn insert(&mut self, topic: WsTopic) -> (fresh: bool)
        ensures
            final(self)@ == old(self)@.insert(topic),
            fresh == !old(self)@.contains(topic),
    {
        if self.contains(topic) {
            assert(self@ =~= self@.insert(topic));
            false
        } else {
            proof {
                self.items@.lemma_push_to_set_commute(topic);
            }
            self.items.push(topic);
            true
        }
    }

    /// Removes `topic`. Returns whether it was in the set.
    pub fn remove(&mut self, topic: WsTopic) -> (present: bool)
        ensures
            final(self)@ == old(self)@.remove(topic),
            present == old(self)@.contains(topic),
    {
        let mut kept: Vec<WsTopic> = Vec::new();
        let mut present = false;
        let mut i: usize = 0;
        assert(self.items@.take(0).to_set() =~= Set::<WsTopic>::empty());
        assert(kept@.to_set() =~= Set::<WsTopic>::empty().remove(topic));
        while i < self.items.len()
            invariant
                i <= self.items@.len(),
                present == self.items@.take(i as int).to_set().contains(topic),
                kept@.to_set() == self.items@.take(i as int).to_set().remove(topic),
            decreases self.items@.len() - i,
        {
            let t = self.items[i];
            proof {
                let seen = self.items@.take(i as int);
                assert(self.items@.take(i + 1) == seen.push(t));
                seen.lemma_push_to_set_commute(t);
                kept@.lemma_push_to_set_commute(t);
                if t == topic {
                    assert(seen.to_set().insert(t).remove(topic) =~= seen.to_set().remove(topic));
                } else {
                    assert(seen.to_set().remove(topic).insert(t) =~= seen.to_set().insert(t).remove(
                        topic,
                    ));
                }
            }
            if t == topic {
                present = true;
            } else {
                kept.push(t);
            }
            i += 1;
        }
        assert(self.items@.take(i as int) == self.items@);
        self.items = kept;
        present
    }
}

} // verus!
