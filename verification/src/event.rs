//! Domain events: what the engine reports, as plain values, and the transform
//! of each into the outward event of a topic.

use vstd::prelude::*;
use crate::responses::{
    ConfirmedInfoResponse, MilestoneInfoResponse, MilestoneResponse, MpsMetricsUpdatedResponse,
    SolidInfoResponse, SyncStatusResponse, TipInfoResponse, VertexResponse, WsEvent, WsEventInner,
};
use crate::topic::WsTopic;

verus! {

/// The latest milestone has changed.
#[derive(Clone, Debug, PartialEq, Eq)]
pub struct LatestMilestoneChanged {
    pub index: u32,
    pub message_id: String,
    pub timestamp: u64,
}

/// A milestone was confirmed.
#[derive(Clone, Debug, PartialEq, Eq)]
pub struct MilestoneConfirmed {
    pub message_id: String,
    pub index: u32,
    pub timestamp: u64,
    pub referenced_messages: usize,
    /// The messages that the milestone excluded.
    pub excluded_messages: Vec<String>,
}

/// The messages-per-second counters were updated.
#[derive(Clone, Debug, PartialEq, Eq)]
pub struct MpsMetricsUpdated {
    pub incoming: u64,
    pub new: u64,
    pub known: u64,
    pub invalid: u64,
    pub outgoing: u64,
}

/// A message became solid.
#[derive(Clone, Debug, PartialEq, Eq)]
pub struct MessageSolidified {
    pub message_id: String,
}

/// A vertex was added to the tangle.
#[derive(Clone, Debug, PartialEq, Eq)]
pub struct VertexCreated {
    pub message_id: String,
    pub parent_message_ids: Vec<String>,
    pub is_solid: bool,
    pub is_referenced: bool,
    pub is_conflicting: bool,
    pub is_milestone: bool,
    pub is_tip: bool,
    pub is_selected: bool,
}

/// A message became a tip.
#[derive(Clone, Debug, PartialEq, Eq)]
pub struct TipAdded {
    pub message_id: String,
}

/// A message stopped being a tip.
#[derive(Clone, Debug, PartialEq, Eq)]
pub struct TipRemoved {
    pub message_id: String,
}

/// The kinds of domain event that the dashboard listens to.
#[derive(Clone, Copy, Debug, PartialEq, Eq, Hash, Structural)]
pub enum EventKind {
    LatestMilestoneChanged,
    MilestoneConfirmed,
    MpsMetricsUpdated,
    MessageSolidified,
    VertexCreated,
    TipAdded,
    TipRemoved,
}

/// One occurrence of a domain event.
#[derive(Clone, Debug, PartialEq, Eq)]
pub enum DomainEvent {
    LatestMilestoneChanged(LatestMilestoneChanged),
    MilestoneConfirmed(MilestoneConfirmed),
    MpsMetricsUpdated(MpsMetricsUpdated),
    MessageSolidified(MessageSolidified),
    VertexCreated(VertexCreated),
    TipAdded(TipAdded),
    TipRemoved(TipRemoved),
}

impl DomainEvent {
    /// The kind of this event.
    pub open spec fn spec_kind(self) -> EventKind {
        match self {
            DomainEvent::LatestMilestoneChanged(_) => EventKind::LatestMilestoneChanged,
            DomainEvent::MilestoneConfirmed(_) => EventKind::MilestoneConfirmed,
            DomainEvent::MpsMetricsUpdated(_) => EventKind::MpsMetricsUpdated,
            DomainEvent::MessageSolidified(_) => EventKind::MessageSolidified,
            DomainEvent::VertexCreated(_) => EventKind::VertexCreated,
            DomainEvent::TipAdded(_) => EventKind::TipAdded,
            DomainEvent::TipRemoved(_) => EventKind::TipRemoved,
        }
    }

    /// Returns the kind of this event.
    pub fn kind(&self) -> (kind: EventKind)
        ensures
            kind == self.spec_kind(),
    {
        match self {
            DomainEvent::LatestMilestoneChanged(_) => EventKind::LatestMilestoneChanged,
            DomainEvent::MilestoneConfirmed(_) => EventKind::MilestoneConfirmed,
            DomainEvent::MpsMetricsUpdated(_) => EventKind::MpsMetricsUpdated,
            DomainEvent::MessageSolidified(_) => EventKind::MessageSolidified,
            DomainEvent::VertexCreated(_) => EventKind::VertexCreated,
            DomainEvent::TipAdded(_) => EventKind::TipAdded,
            DomainEvent::TipRemoved(_) => EventKind::TipRemoved,
        }
    }
}

/// What a transform reads of the tangle besides the event itself.
#[derive(Clone, Copy, Debug, PartialEq, Eq, Structural)]
pub struct TangleIndices {
    pub latest_milestone_index: u32,
    pub confirmed_milestone_index: u32,
}

/// Whether events of kind `source` have a transform into `topic`.
pub open spec fn has_transform(source: EventKind, topic: WsTopic) -> bool {
    match (topic, source) {
        (WsTopic::SyncStatus, EventKind::LatestMilestoneChanged) => true,
        (WsTopic::SyncStatus, EventKind::MilestoneConfirmed) => true,
        (WsTopic::MpsMetricsUpdated, EventKind::MpsMetricsUpdated) => true,
        (WsTopic::Milestone, EventKind::MilestoneConfirmed) => true,
        (WsTopic::SolidInfo, EventKind::MessageSolidified) => true,
        (WsTopic::MilestoneInfo, EventKind::LatestMilestoneChanged) => true,
        (WsTopic::Vertex, EventKind::VertexCreated) => true,
        (WsTopic::MilestoneConfirmed, EventKind::MilestoneConfirmed) => true,
        (WsTopic::TipInfo, EventKind::TipAdded) => true,
        (WsTopic::TipInfo, EventKind::TipRemoved) => true,
        _ => false,
    }
}

/// The payload that `event` gives under `topic`, if it has a transform into
/// it. Both milestone events populate `SyncStatus`: each brings one index and
/// the tangle supplies the other.
pub open spec fn payload(topic: WsTopic, event: DomainEvent, tangle: TangleIndices) -> Option<
    WsEventInner,
> {
    match (topic, event) {
        (WsTopic::SyncStatus, DomainEvent::LatestMilestoneChanged(e)) => Some(
            WsEventInner::SyncStatus(
                SyncStatusResponse { lmi: e.index, cmi: tangle.confirmed_milestone_index },
            ),
        ),
        (WsTopic::SyncStatus, DomainEvent::MilestoneConfirmed(e)) => Some(
            WsEventInner::SyncStatus(
                SyncStatusResponse { lmi: tangle.latest_milestone_index, cmi: e.index },
            ),
        ),
        (WsTopic::MpsMetricsUpdated, DomainEvent::MpsMetricsUpdated(e)) => Some(
            WsEventInner::MpsMetricsUpdated(
                MpsMetricsUpdatedResponse { incoming: e.incoming, new: e.new, outgoing: e.outgoing },
            ),
        ),
        (WsTopic::Milestone, DomainEvent::MilestoneConfirmed(e)) => Some(
            WsEventInner::Milestone(MilestoneResponse { message_id: e.message_id, index: e.index }),
        ),
        (WsTopic::SolidInfo, DomainEvent::MessageSolidified(e)) => Some(
            WsEventInner::SolidInfo(SolidInfoResponse { id: e.message_id }),
        ),
        (WsTopic::MilestoneInfo, DomainEvent::LatestMilestoneChanged(e)) => Some(
            WsEventInner::MilestoneInfo(MilestoneInfoResponse { id: e.message_id }),
        ),
        (WsTopic::Vertex, DomainEvent::VertexCreated(e)) => Some(
            WsEventInner::Vertex(
                VertexResponse {
                    id: e.message_id,
                    parents: e.parent_message_ids,
                    is_solid: e.is_solid,
                    is_referenced: e.is_referenced,
                    is_conflicting: e.is_conflicting,
                    is_milestone: e.is_milestone,
                    is_tip: e.is_tip,
                    is_selected: e.is_selected,
                },
            ),
        ),
        (WsTopic::MilestoneConfirmed, DomainEvent::MilestoneConfirmed(e)) => Some(
            WsEventInner::ConfirmedInfo(
                ConfirmedInfoResponse { id: e.message_id, excluded_ids: e.excluded_messages },
            ),
        ),
        (WsTopic::TipInfo, DomainEvent::TipAdded(e)) => Some(
            WsEventInner::TipInfo(TipInfoResponse { id: e.message_id, is_tip: true }),
        ),
        (WsTopic::TipInfo, DomainEvent::TipRemoved(e)) => Some(
            WsEventInner::TipInfo(TipInfoResponse { id: e.message_id, is_tip: false }),
        ),
        _ => None,
    }
}

/// The outward event that `event` gives under `topic`, if any.
pub open spec fn outward(topic: WsTopic, event: DomainEvent, tangle: TangleIndices) -> Option<
    WsEvent,
> {
    match payload(topic, event, tangle) {
        Some(inner) => Some(WsEvent { kind: topic, inner }),
        None => None,
    }
}

/// Transforms `event` into the outward event of `topic`. There is one exactly
/// when events of that kind have a transform into the topic.
pub fn forward(topic: WsTopic, event: DomainEvent, tangle: TangleIndices) -> (out: Option<WsEvent>)
    ensures
        out == outward(topic, event, tangle),
        out is Some <==> has_transform(event.spec_kind(), topic),
{
    let inner = match (topic, event) {
        (WsTopic::SyncStatus, DomainEvent::LatestMilestoneChanged(e)) => WsEventInner::SyncStatus(
            SyncStatusResponse { lmi: e.index, cmi: tangle.confirmed_milestone_index },
        ),
        (WsTopic::SyncStatus, DomainEvent::MilestoneConfirmed(e)) => WsEventInner::SyncStatus(
            SyncStatusResponse { lmi: tangle.latest_milestone_index, cmi: e.index },
        ),
        (WsTopic::MpsMetricsUpdated, DomainEvent::MpsMetricsUpdated(e)) => {
            WsEventInner::MpsMetricsUpdated(
                MpsMetricsUpdatedResponse { incoming: e.incoming, new: e.new, outgoing: e.outgoing },
            )
        },
        (WsTopic::Milestone, DomainEvent::MilestoneConfirmed(e)) => WsEventInner::Milestone(
            MilestoneResponse { message_id: e.message_id, index: e.index },
        ),
        (WsTopic::SolidInfo, DomainEvent::MessageSolidified(e)) => WsEventInner::SolidInfo(
            SolidInfoResponse { id: e.message_id },
        ),
        (WsTopic::MilestoneInfo, DomainEvent::LatestMilestoneChanged(e)) => {
            WsEventInner::MilestoneInfo(MilestoneInfoResponse { id: e.message_id })
        },
        (WsTopic::Vertex, DomainEvent::VertexCreated(e)) => WsEventInner::Vertex(
            VertexResponse {
                id: e.message_id,
                parents: e.parent_message_ids,
                is_solid: e.is_solid,
                is_referenced: e.is_referenced,
                is_conflicting: e.is_conflicting,
                is_milestone: e.is_milestone,
                is_tip: e.is_tip,
                is_selected: e.is_selected,
            },
        ),
        (WsTopic::MilestoneConfirmed, DomainEvent::MilestoneConfirmed(e)) => {
            WsEventInner::ConfirmedInfo(
                ConfirmedInfoResponse { id: e.message_id, excluded_ids: e.excluded_messages },
            )
        },
        (WsTopic::TipInfo, DomainEvent::TipAdded(e)) => WsEventInner::TipInfo(
            TipInfoResponse { id: e.message_id, is_tip: true },
        ),
        (WsTopic::TipInfo, DomainEvent::TipRemoved(e)) => WsEventInner::TipInfo(
            TipInfoResponse { id: e.message_id, is_tip: false },
        ),
        _ => { return None; },
    };
    Some(WsEvent::new(topic, inner))
}

/// Every outward event that a transform gives carries the topic it was made
/// for and a payload of that topic's shape, and a transform exists exactly for
/// the pairs of event kind and topic that `has_transform` lists.
pub proof fn lemma_outward_well_formed(topic: WsTopic, event: DomainEvent, tangle: TangleIndices)
    ensures
        outward(topic, event, tangle) is Some <==> has_transform(event.spec_kind(), topic),
        outward(topic, event, tangle) matches Some(out) ==> out.kind == topic && out.well_formed(),
{
}

} // verus!
