//! The dashboard worker: what it depends on and what it registers when it
//! starts.

use vstd::prelude::*;
use crate::event::{has_transform, EventKind};
use crate::forwarder::{topic_handler, ForwarderState, TopicForwarder};
use crate::topic::WsTopic;

verus! {

/// A worker of the node that the dashboard needs before it can start.
#[derive(Clone, Copy, Debug, PartialEq, Eq, Hash, Structural)]
pub enum Dependency {
    Tangle,
    Metrics,
    PeerManager,
}

/// The dashboard worker.
#[derive(Clone, Copy, Debug, PartialEq, Eq, Structural)]
pub struct Dashboard {}

impl Default for Dashboard {
    fn default() -> (dashboard: Self)
        ensures
            dashboard == (Dashboard {  }),
    {
        Dashboard {  }
    }
}

/// A running forwarder of `source` into `topic`, gated or not.
pub open spec fn registered(source: EventKind, topic: WsTopic, gated: bool) -> TopicForwarder {
    TopicForwarder { source, topic, require_node_confirmed: gated, state: ForwarderState::Running }
}

/// The forwarders of the dashboard, in the order in which they are
/// registered. New activity on the tangle (solid messages, vertices, tips) is
/// gated; what concerns milestones and metrics is not.
pub open spec fn catalog() -> Seq<TopicForwarder> {
    seq![
        registered(EventKind::LatestMilestoneChanged, WsTopic::SyncStatus, false),
        registered(EventKind::MilestoneConfirmed, WsTopic::SyncStatus, false),
        registered(EventKind::MpsMetricsUpdated, WsTopic::MpsMetricsUpdated, false),
        registered(EventKind::MilestoneConfirmed, WsTopic::Milestone, false),
        registered(EventKind::MessageSolidified, WsTopic::SolidInfo, true),
        registered(EventKind::LatestMilestoneChanged, WsTopic::MilestoneInfo, false),
        registered(EventKind::VertexCreated, WsTopic::Vertex, true),
        registered(EventKind::MilestoneConfirmed, WsTopic::MilestoneConfirmed, false),
        registered(EventKind::TipAdded, WsTopic::TipInfo, true),
        registered(EventKind::TipRemoved, WsTopic::TipInfo, true),
    ]
}

impl Dashboard {
    /// The workers that must be running before the dashboard starts.
    pub fn dependencies() -> (dependencies: Vec<Dependency>)
        ensures
            dependencies@ == seq![Dependency::Tangle, Dependency::Metrics, Dependency::PeerManager],
    {
        let mut dependencies: Vec<Dependency> = Vec::new();
        dependencies.push(Dependency::Tangle);
        dependencies.push(Dependency::Metrics);
        dependencies.push(Dependency::PeerManager);
        assert(dependencies@ =~= seq![
            Dependency::Tangle,
            Dependency::Metrics,
            Dependency::PeerManager,
        ]);
        dependencies
    }

    /// Registers the forwarders of the dashboard: one per pair of event kind
    /// and topic of the catalogue, all running. The caller gives each its
    /// channel and its task.
    pub fn start() -> (forwarders: Vec<TopicForwarder>)
        ensures
            forwarders@ == catalog(),
    {
        let mut forwarders: Vec<TopicForwarder> = Vec::new();
        forwarders.push(topic_handler(EventKind::LatestMilestoneChanged, WsTopic::SyncStatus, false));
        forwarders.push(topic_handler(EventKind::MilestoneConfirmed, WsTopic::SyncStatus, false));
        forwarders.push(
            topic_handler(EventKind::MpsMetricsUpdated, WsTopic::MpsMetricsUpdated, false),
        );
        forwarders.push(topic_handler(EventKind::MilestoneConfirmed, WsTopic::Milestone, false));
        forwarders.push(topic_handler(EventKind::MessageSolidified, WsTopic::SolidInfo, true));
        forwarders.push(
            topic_handler(EventKind::LatestMilestoneChanged, WsTopic::MilestoneInfo, false),
        );
        forwarders.push(topic_handler(EventKind::VertexCreated, WsTopic::Vertex, true));
        forwarders.push(
            topic_handler(EventKind::MilestoneConfirmed, WsTopic::MilestoneConfirmed, false),
        );
        forwarders.push(topic_handler(EventKind::TipAdded, WsTopic::TipInfo, true));
        forwarders.push(topic_handler(EventKind::TipRemoved, WsTopic::TipInfo, true));
        assert(forwarders@ =~= catalog());
        forwarders
    }
}

/// Every forwarder of the catalogue starts running and has a transform from
/// its kind of event into its topic, and no pair of event kind and topic is
/// registered twice.
pub proof fn lemma_catalog_is_sound()
    ensures
        catalog().len() == 10,
        forall|i: int|
            0 <= i < catalog().len() ==> (#[trigger] catalog()[i]).state == ForwarderState::Running
                && has_transform(catalog()[i].source, catalog()[i].topic),
        forall|i: int, j: int|
            0 <= i < j < catalog().len() ==> !(catalog()[i].source == catalog()[j].source
                && catalog()[i].topic == catalog()[j].topic),
{
}

} // verus!
