//! Outward events: what is pushed to observers, one payload shape per topic.

use vstd::prelude::*;
use vstd::string::StringExecFns;
use crate::topic::WsTopic;

verus! {

/// Latest and confirmed milestone index of the node.
#[derive(Clone, Debug, PartialEq, Eq)]
pub struct SyncStatusResponse {
    pub lmi: u32,
    pub cmi: u32,
}

/// Messages per second, by direction.
#[derive(Clone, Debug, PartialEq, Eq)]
pub struct MpsMetricsUpdatedResponse {
    pub incoming: u64,
    pub new: u64,
    pub outgoing: u64,
}

/// A milestone: the identifier of its message and its index.
#[derive(Clone, Debug, PartialEq, Eq)]
pub struct MilestoneResponse {
    pub message_id: String,
    pub index: u32,
}

/// A message that became solid.
#[derive(Clone, Debug, PartialEq, Eq)]
pub struct SolidInfoResponse {
    pub id: String,
}

/// A confirmed milestone and the messages it excluded.
#[derive(Clone, Debug, PartialEq, Eq)]
pub struct ConfirmedInfoResponse {
    pub id: String,
    pub excluded_ids: Vec<String>,
}

/// Counters of the last confirmed milestone.
#[derive(Clone, Debug, PartialEq, Eq)]
pub struct ConfirmedMilestoneMetricsResponse {
    pub ms_index: u32,
    pub referenced_messages: u64,
    pub time_since_last_ms: u64,
}

/// The message of the latest milestone.
#[derive(Clone, Debug, PartialEq, Eq)]
pub struct MilestoneInfoResponse {
    pub id: String,
}

/// A vertex of the tangle with its parents and flags.
#[derive(Clone, Debug, PartialEq, Eq)]
pub struct VertexResponse {
    pub id: String,
    pub parents: Vec<String>,
    pub is_solid: bool,
    pub is_referenced: bool,
    pub is_conflicting: bool,
    pub is_milestone: bool,
    pub is_tip: bool,
    pub is_selected: bool,
}

/// Size of the database at a point in time.
#[derive(Clone, Debug, PartialEq, Eq)]
pub struct DatabaseSizeMetricsResponse {
    pub total: u64,
    pub ts: u64,
}

/// A message that became, or stopped being, a tip.
#[derive(Clone, Debug, PartialEq, Eq)]
pub struct TipInfoResponse {
    pub id: String,
    pub is_tip: bool,
}

/// Health of the node.
#[derive(Clone, Debug, PartialEq, Eq)]
pub struct NodeStatusResponse {
    pub is_healthy: bool,
    pub is_synced: bool,
    pub uptime: u64,
    pub version: String,
}

/// The payload of an outward event: exactly one shape is populated.
#[derive(Clone, Debug, PartialEq, Eq)]
pub enum WsEventInner {
    SyncStatus(SyncStatusResponse),
    MpsMetricsUpdated(MpsMetricsUpdatedResponse),
    Milestone(MilestoneResponse),
    SolidInfo(SolidInfoResponse),
    ConfirmedInfo(ConfirmedInfoResponse),
    ConfirmedMilestoneMetrics(ConfirmedMilestoneMetricsResponse),
    MilestoneInfo(MilestoneInfoResponse),
    Vertex(VertexResponse),
    DatabaseSizeMetrics(DatabaseSizeMetricsResponse),
    TipInfo(TipInfoResponse),
    NodeStatus(NodeStatusResponse),
}

impl WsEventInner {
    /// Whether this payload has the shape that `topic` carries. The shape of
    /// the data is determined by the topic alone; a confirmed milestone is
    /// announced with the shape of `ConfirmedInfo`.
    pub open spec fn fits(self, topic: WsTopic) -> bool {
        match topic {
            WsTopic::SyncStatus => self is SyncStatus,
            WsTopic::MilestoneConfirmed => self is ConfirmedInfo,
            WsTopic::SolidInfo => self is SolidInfo,
            WsTopic::Vertex => self is Vertex,
            WsTopic::TipInfo => self is TipInfo,
            WsTopic::NodeStatus => self is NodeStatus,
            WsTopic::MpsMetricsUpdated => self is MpsMetricsUpdated,
            WsTopic::MilestoneInfo => self is MilestoneInfo,
            WsTopic::ConfirmedMilestoneMetrics => self is ConfirmedMilestoneMetrics,
            WsTopic::DatabaseSizeMetrics => self is DatabaseSizeMetrics,
            WsTopic::ConfirmedInfo => self is ConfirmedInfo,
            WsTopic::Milestone => self is Milestone,
        }
    }
}

/// An outward event: a topic and the payload pushed under it.
#[derive(Clone, Debug, PartialEq, Eq)]
pub struct WsEvent {
    pub kind: WsTopic,
    pub inner: WsEventInner,
}

impl WsEvent {
    /// Pairs a topic with a payload.
    pub fn new(kind: WsTopic, inner: WsEventInner) -> (event: Self)
        ensures
            event.kind == kind,
            event.inner == inner,
    {
        Self { kind, inner }
    }

    /// Whether the payload has the shape that the topic carries.
    pub open spec fn well_formed(self) -> bool {
        self.inner.fits(self.kind)
    }

    /// Tells whether the payload has the shape that the topic carries.
    pub fn is_well_formed(&self) -> (ok: bool)
        ensures
            ok == self.well_formed(),
    {
        match self.kind {
            WsTopic::SyncStatus => matches!(self.inner, WsEventInner::SyncStatus(_)),
            WsTopic::MilestoneConfirmed => matches!(self.inner, WsEventInner::ConfirmedInfo(_)),
            WsTopic::SolidInfo => matches!(self.inner, WsEventInner::SolidInfo(_)),
            WsTopic::Vertex => matches!(self.inner, WsEventInner::Vertex(_)),
            WsTopic::TipInfo => matches!(self.inner, WsEventInner::TipInfo(_)),
            WsTopic::NodeStatus => matches!(self.inner, WsEventInner::NodeStatus(_)),
            WsTopic::MpsMetricsUpdated => matches!(self.inner, WsEventInner::MpsMetricsUpdated(_)),
            WsTopic::MilestoneInfo => matches!(self.inner, WsEventInner::MilestoneInfo(_)),
            WsTopic::ConfirmedMilestoneMetrics => matches!(
                self.inner,
                WsEventInner::ConfirmedMilestoneMetrics(_)
            ),
            WsTopic::DatabaseSizeMetrics => matches!(
                self.inner,
                WsEventInner::DatabaseSizeMetrics(_)
            ),
            WsTopic::ConfirmedInfo => matches!(self.inner, WsEventInner::ConfirmedInfo(_)),
            WsTopic::Milestone => matches!(self.inner, WsEventInner::Milestone(_)),
        }
    }
}

/// The push message of one event: an object with the canonical name of the
/// topic under `type` and the serialized payload under `data`.
pub open spec fn wire(topic: WsTopic, data: Seq<char>) -> Seq<char> {
    "{\"type\":\""@ + topic.spec_name() + "\",\"data\":"@ + data + "}"@
}

/// Frames a serialized payload as the push message of `topic`.
pub fn frame(topic: WsTopic, data: &str) -> (text: String)
    ensures
        text@ == wire(topic, data@),
{
    let mut text = String::from_str("{\"type\":\"");
    text.append(topic.name());
    text.append("\",\"data\":");
    text.append(data);
    text.append("}");
    text
}

/// A push message tells its topic: the messages of two different topics
/// differ, whatever their payloads.
pub proof fn lemma_wire_tells_topic(a: WsTopic, b: WsTopic, data_a: Seq<char>, data_b: Seq<char>)
    requires
        wire(a, data_a) == wire(b, data_b),
    ensures
        a == b,
{
    reveal_strlit("{\"type\":\"");
    reveal_strlit("\",\"data\":");
    reveal_strlit("SyncStatus");
    reveal_strlit("MilestoneConfirmed");
    reveal_strlit("SolidInfo");
    reveal_strlit("Vertex");
    reveal_strlit("TipInfo");
    reveal_strlit("NodeStatus");
    reveal_strlit("MpsMetricsUpdated");
    reveal_strlit("MilestoneInfo");
    reveal_strlit("ConfirmedMilestoneMetrics");
    reveal_strlit("DatabaseSizeMetrics");
    reveal_strlit("ConfirmedInfo");
    reveal_strlit("Milestone");
    let x = wire(a, data_a);
    let y = wire(b, data_b);
    let head = "{\"type\":\""@;
    let mid = "\",\"data\":"@;
    let n = a.spec_name();
    let m = b.spec_name();
    assert forall|i: int| 0 <= i < n.len() implies x[9 + i] == #[trigger] n[i] by {}
    assert forall|i: int| 0 <= i < m.len() implies y[9 + i] == #[trigger] m[i] by {}
    assert(x[9 + n.len() as int] == '"');
    assert(y[9 + m.len() as int] == '"');
    if n.len() < m.len() {
        assert(m[n.len() as int] == y[9 + n.len() as int]);
    } else if m.len() < n.len() {
        assert(n[m.len() as int] == x[9 + m.len() as int]);
    } else {
        assert(n[0] == m[0]);
        assert(n[1] == m[1]);
        assert(n[2] == m[2]);
    }
}

} // verus!
