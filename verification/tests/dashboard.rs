use bee_core::dashboard::{Dashboard, Dependency};
use bee_core::event::{
    forward, DomainEvent, EventKind, LatestMilestoneChanged, MessageSolidified, MilestoneConfirmed,
    MpsMetricsUpdated, TangleIndices, TipAdded, TipRemoved, VertexCreated,
};
use bee_core::forwarder::{
    topic_handler, ForwarderAction, ForwarderInput, ForwarderState, TopicForwarder,
    CONFIRMED_THRESHOLD,
};
use bee_core::responses::{
    ConfirmedInfoResponse, MilestoneInfoResponse, MilestoneResponse, MpsMetricsUpdatedResponse,
    frame, SolidInfoResponse, SyncStatusResponse, TipInfoResponse, VertexResponse, WsEvent,
    WsEventInner,
};
use bee_core::topic::{TopicSet, WsTopic};
use bee_core::users::{broadcast, ShutdownHandshake, WsUser, WsUsers};
use std::sync::mpsc::{channel, Receiver, Sender};

type Users = WsUsers<Sender<String>, u32, u32>;

fn tangle() -> TangleIndices {
    TangleIndices { latest_milestone_index: 50, confirmed_milestone_index: 48 }
}

fn milestone_confirmed(index: u32) -> DomainEvent {
    DomainEvent::MilestoneConfirmed(MilestoneConfirmed {
        message_id: format!("ms{}", index),
        index,
        timestamp: 1_600_000_000,
        referenced_messages: 3,
        excluded_messages: vec![String::from("x1"), String::from("x2")],
    })
}

fn latest_changed(index: u32) -> DomainEvent {
    DomainEvent::LatestMilestoneChanged(LatestMilestoneChanged {
        index,
        message_id: format!("lm{}", index),
        timestamp: 7,
    })
}

fn vertex(id: &str) -> DomainEvent {
    DomainEvent::VertexCreated(VertexCreated {
        message_id: String::from(id),
        parent_message_ids: vec![String::from("p1"), String::from("p2")],
        is_solid: true,
        is_referenced: false,
        is_conflicting: false,
        is_milestone: false,
        is_tip: true,
        is_selected: false,
    })
}

fn input(event: DomainEvent, confirmed: bool) -> ForwarderInput {
    ForwarderInput::Event { event, tangle: tangle(), confirmed }
}

fn observer(topics: Vec<WsTopic>, handshake: Option<(u32, u32)>) -> (WsUser<Sender<String>, u32, u32>, Receiver<String>) {
    let (tx, rx) = channel();
    let shutdown = handshake.map(|(signal, ready)| ShutdownHandshake { signal, ready });
    (WsUser { tx, topics: TopicSet::from_topics(topics), shutdown }, rx)
}

fn milestone_data(event: &WsEvent) -> Result<String, serde_json::Error> {
    let mut data = serde_json::Map::new();
    if let WsEventInner::Milestone(m) = &event.inner {
        data.insert(String::from("messageID"), serde_json::Value::from(m.message_id.as_str()));
        data.insert(String::from("index"), serde_json::Value::from(m.index));
    }
    serde_json::to_string(&serde_json::Value::Object(data))
}

fn deliver<E>(users: &Users, event: &WsEvent, data: Result<String, E>) -> Vec<usize> {
    match broadcast(event, data, users) {
        Some(fanout) => {
            for id in fanout.recipients.iter() {
                let user = users.get(*id).unwrap();
                let _ = user.tx.send(fanout.text.clone());
            }
            fanout.recipients
        }
        None => Vec::new(),
    }
}

#[test]
fn milestone_confirmed_reaches_the_subscribed_observer_only() {
    let mut users = Users::new();
    let (a, rx_a) = observer(vec![WsTopic::Milestone], Some((1, 1)));
    let (b, rx_b) = observer(vec![], Some((2, 2)));
    users.insert(1, a);
    users.insert(2, b);

    let mut forwarder = topic_handler(EventKind::MilestoneConfirmed, WsTopic::Milestone, false);
    let action = forwarder.step(input(milestone_confirmed(42), false));
    let event = match action {
        ForwarderAction::Broadcast(event) => event,
        other => panic!("expected a broadcast, got {:?}", other),
    };
    assert_eq!(event.kind, WsTopic::Milestone);
    assert_eq!(
        event.inner,
        WsEventInner::Milestone(MilestoneResponse { message_id: String::from("ms42"), index: 42 })
    );

    let data = milestone_data(&event);
    let recipients = deliver(&users, &event, data);
    assert_eq!(recipients, vec![1]);
    let text = rx_a.try_recv().unwrap();
    assert_eq!(text, "{\"type\":\"Milestone\",\"data\":{\"index\":42,\"messageID\":\"ms42\"}}");
    let message: serde_json::Value = serde_json::from_str(&text).unwrap();
    assert_eq!(message["type"], "Milestone");
    assert_eq!(message["data"]["index"], 42);
    assert_eq!(message["data"]["messageID"], "ms42");
    assert_eq!(message.as_object().unwrap().len(), 2);
    assert!(rx_a.try_recv().is_err());
    assert!(rx_b.try_recv().is_err());
}

#[test]
fn gated_vertex_is_discarded_below_the_threshold() {
    assert_eq!(CONFIRMED_THRESHOLD, 5);
    let confirmation_depth: u32 = 2;
    let mut users = Users::new();
    let (a, rx_a) = observer(vec![WsTopic::Vertex], Some((1, 1)));
    users.insert(1, a);

    let mut forwarder = topic_handler(EventKind::VertexCreated, WsTopic::Vertex, true);
    let action = forwarder.step(input(vertex("v1"), confirmation_depth >= CONFIRMED_THRESHOLD));
    assert_eq!(action, ForwarderAction::Skip);
    assert_eq!(forwarder.state, ForwarderState::Running);
    assert!(rx_a.try_recv().is_err());
    assert_eq!(users.len(), 1);
}

#[test]
fn gated_vertex_is_forwarded_at_the_threshold() {
    let mut forwarder = topic_handler(EventKind::VertexCreated, WsTopic::Vertex, true);
    let action = forwarder.step(input(vertex("v1"), 5 >= CONFIRMED_THRESHOLD));
    assert_eq!(
        action,
        ForwarderAction::Broadcast(WsEvent {
            kind: WsTopic::Vertex,
            inner: WsEventInner::Vertex(VertexResponse {
                id: String::from("v1"),
                parents: vec![String::from("p1"), String::from("p2")],
                is_solid: true,
                is_referenced: false,
                is_conflicting: false,
                is_milestone: false,
                is_tip: true,
                is_selected: false,
            }),
        })
    );
}

#[test]
fn abruptly_disconnected_observer_fails_silently_and_removes_itself() {
    let mut users = Users::new();
    let (c, rx_c) = observer(vec![WsTopic::SyncStatus], Some((3, 3)));
    let (d, rx_d) = observer(vec![WsTopic::SyncStatus], Some((4, 4)));
    users.insert(3, c);
    users.insert(4, d);
    drop(rx_c);

    let mut forwarder = topic_handler(EventKind::LatestMilestoneChanged, WsTopic::SyncStatus, false);
    for index in 0..10u32 {
        let event = match forwarder.step(input(latest_changed(index), true)) {
            ForwarderAction::Broadcast(event) => event,
            other => panic!("expected a broadcast, got {:?}", other),
        };
        let data: Result<String, ()> = Ok(format!("{{\"lmi\":{},\"cmi\":48}}", index));
        let recipients = deliver(&users, &event, data);
        assert_eq!(recipients, vec![3, 4]);
    }
    for index in 0..10u32 {
        assert_eq!(
            rx_d.try_recv().unwrap(),
            format!("{{\"type\":\"SyncStatus\",\"data\":{{\"lmi\":{},\"cmi\":48}}}}", index)
        );
    }
    assert!(rx_d.try_recv().is_err());

    let removed = users.remove(3);
    assert!(removed.is_some());
    assert!(!users.contains(3));
    assert_eq!(users.ids(), vec![4]);
    let event = WsEvent::new(
        WsTopic::SyncStatus,
        WsEventInner::SyncStatus(SyncStatusResponse { lmi: 1, cmi: 1 }),
    );
    assert_eq!(deliver(&users, &event, Ok::<String, ()>(String::from("{}"))), vec![4]);
}

#[test]
fn broadcast_reaches_each_subscriber_once_and_no_other() {
    let mut users = Users::new();
    let mut receivers = Vec::new();
    let subscriptions = vec![
        (10usize, vec![WsTopic::TipInfo, WsTopic::Vertex]),
        (11, vec![WsTopic::Vertex]),
        (12, vec![]),
        (13, vec![WsTopic::TipInfo, WsTopic::TipInfo]),
        (14, vec![WsTopic::SyncStatus]),
    ];
    for (id, topics) in subscriptions {
        let (user, rx) = observer(topics, None);
        users.insert(id, user);
        receivers.push((id, rx));
    }
    let event = WsEvent::new(
        WsTopic::TipInfo,
        WsEventInner::TipInfo(TipInfoResponse { id: String::from("t"), is_tip: true }),
    );
    let data: Result<String, ()> = Ok(String::from("{\"id\":\"t\",\"is_tip\":true}"));
    let recipients = deliver(&users, &event, data);
    assert_eq!(recipients, vec![10, 13]);
    for (id, rx) in receivers.iter() {
        let got: Vec<String> = rx.try_iter().collect();
        if *id == 10 || *id == 13 {
            assert_eq!(
                got,
                vec![String::from("{\"type\":\"TipInfo\",\"data\":{\"id\":\"t\",\"is_tip\":true}}")]
            );
        } else {
            assert!(got.is_empty());
        }
    }
}

#[test]
fn broadcast_is_abandoned_when_serialization_fails() {
    let mut users = Users::new();
    let (a, rx_a) = observer(vec![WsTopic::Milestone], None);
    users.insert(1, a);
    let event = WsEvent::new(
        WsTopic::Milestone,
        WsEventInner::Milestone(MilestoneResponse { message_id: String::from("m"), index: 1 }),
    );
    let failed: Result<String, &str> = Err("malformed");
    assert!(broadcast(&event, failed, &users).is_none());
    assert!(rx_a.try_recv().is_err());
    let fanout = broadcast(&event, Ok::<String, &str>(String::from("{}")), &users).unwrap();
    assert_eq!(fanout.text, "{\"type\":\"Milestone\",\"data\":{}}");
    assert_eq!(fanout.recipients, vec![1]);
}

#[test]
fn broadcast_to_an_empty_registry_reaches_no_one() {
    let users = Users::new();
    assert!(users.is_empty());
    let event = WsEvent::new(
        WsTopic::SolidInfo,
        WsEventInner::SolidInfo(SolidInfoResponse { id: String::from("s") }),
    );
    let fanout = broadcast(&event, Ok::<String, ()>(String::from("x")), &users).unwrap();
    assert!(fanout.recipients.is_empty());
}

#[test]
fn gating_is_decided_for_every_event_without_replay() {
    let mut forwarder = topic_handler(EventKind::MessageSolidified, WsTopic::SolidInfo, true);
    let solid = |id: &str| {
        DomainEvent::MessageSolidified(MessageSolidified { message_id: String::from(id) })
    };
    let inputs = vec![
        input(solid("a"), false),
        input(solid("b"), false),
        input(solid("c"), true),
        input(solid("d"), false),
        input(solid("e"), true),
    ];
    let out = forwarder.run(inputs);
    let ids: Vec<String> = out
        .iter()
        .map(|event| match &event.inner {
            WsEventInner::SolidInfo(info) => info.id.clone(),
            other => panic!("unexpected payload {:?}", other),
        })
        .collect();
    assert_eq!(ids, vec![String::from("c"), String::from("e")]);
    assert!(out.iter().all(|event| event.kind == WsTopic::SolidInfo));
    assert_eq!(forwarder.state, ForwarderState::Running);
}

#[test]
fn ungated_forwarder_ignores_the_confirmation_reading() {
    let mut forwarder = topic_handler(EventKind::MpsMetricsUpdated, WsTopic::MpsMetricsUpdated, false);
    let event = DomainEvent::MpsMetricsUpdated(MpsMetricsUpdated {
        incoming: 10,
        new: 4,
        known: 5,
        invalid: 1,
        outgoing: 7,
    });
    assert_eq!(
        forwarder.step(input(event, false)),
        ForwarderAction::Broadcast(WsEvent {
            kind: WsTopic::MpsMetricsUpdated,
            inner: WsEventInner::MpsMetricsUpdated(MpsMetricsUpdatedResponse {
                incoming: 10,
                new: 4,
                outgoing: 7,
            }),
        })
    );
}

#[test]
fn forwarder_outputs_are_first_in_first_out() {
    let mut forwarder = topic_handler(EventKind::LatestMilestoneChanged, WsTopic::MilestoneInfo, false);
    let inputs: Vec<ForwarderInput> = (1..=6u32).map(|i| input(latest_changed(i), true)).collect();
    let out = forwarder.run(inputs);
    let expected: Vec<WsEvent> = (1..=6u32)
        .map(|i| WsEvent {
            kind: WsTopic::MilestoneInfo,
            inner: WsEventInner::MilestoneInfo(MilestoneInfoResponse { id: format!("lm{}", i) }),
        })
        .collect();
    assert_eq!(out, expected);
}

#[test]
fn run_in_two_batches_equals_run_in_one() {
    let make = || -> Vec<ForwarderInput> {
        vec![
            input(vertex("a"), true),
            input(vertex("b"), false),
            ForwarderInput::Shutdown,
            input(vertex("c"), true),
            ForwarderInput::Exhausted,
            input(vertex("d"), true),
        ]
    };
    let mut whole = topic_handler(EventKind::VertexCreated, WsTopic::Vertex, true);
    let all = whole.run(make());
    let mut parts = topic_handler(EventKind::VertexCreated, WsTopic::Vertex, true);
    let mut second = make();
    let first: Vec<ForwarderInput> = second.drain(..3).collect();
    let mut joined = parts.run(first);
    assert_eq!(parts.state, ForwarderState::Draining);
    joined.extend(parts.run(second));
    assert_eq!(all, joined);
    assert_eq!(all.len(), 2);
    assert_eq!(whole.state, ForwarderState::Stopped);
    assert_eq!(parts.state, ForwarderState::Stopped);
}

#[test]
fn forwarder_drains_what_is_buffered_and_then_stops() {
    let mut forwarder = topic_handler(EventKind::TipAdded, WsTopic::TipInfo, true);
    let tip = |id: &str| DomainEvent::TipAdded(TipAdded { message_id: String::from(id) });
    assert_eq!(forwarder.step(ForwarderInput::Shutdown), ForwarderAction::Skip);
    assert_eq!(forwarder.state, ForwarderState::Draining);
    assert_eq!(forwarder.step(ForwarderInput::Shutdown), ForwarderAction::Skip);
    assert_eq!(forwarder.state, ForwarderState::Draining);
    assert_eq!(
        forwarder.step(input(tip("t1"), true)),
        ForwarderAction::Broadcast(WsEvent {
            kind: WsTopic::TipInfo,
            inner: WsEventInner::TipInfo(TipInfoResponse { id: String::from("t1"), is_tip: true }),
        })
    );
    assert_eq!(forwarder.step(ForwarderInput::Exhausted), ForwarderAction::Exit);
    assert_eq!(forwarder.state, ForwarderState::Stopped);
    assert_eq!(forwarder.step(input(tip("t2"), true)), ForwarderAction::Exit);
    assert_eq!(forwarder.step(ForwarderInput::Shutdown), ForwarderAction::Exit);
    assert_eq!(forwarder.step(ForwarderInput::Exhausted), ForwarderAction::Exit);
    assert_eq!(forwarder.state, ForwarderState::Stopped);
    assert!(forwarder.run(vec![input(tip("t3"), true)]).is_empty());
}

#[test]
fn running_forwarder_stops_when_its_channel_ends() {
    let mut forwarder = topic_handler(EventKind::TipRemoved, WsTopic::TipInfo, true);
    assert_eq!(forwarder.step(ForwarderInput::Exhausted), ForwarderAction::Exit);
    assert_eq!(forwarder.state, ForwarderState::Stopped);
}

#[test]
fn forwarder_skips_events_of_another_kind() {
    let mut forwarder = topic_handler(EventKind::LatestMilestoneChanged, WsTopic::SyncStatus, false);
    assert_eq!(forwarder.step(input(milestone_confirmed(9), true)), ForwarderAction::Skip);
    let mut unmatched = topic_handler(EventKind::TipAdded, WsTopic::Vertex, false);
    let tip = DomainEvent::TipAdded(TipAdded { message_id: String::from("t") });
    assert_eq!(unmatched.step(input(tip, true)), ForwarderAction::Skip);
}

#[test]
fn shutdown_takes_every_handshake_once() {
    let mut users = Users::new();
    let (a, _rx_a) = observer(vec![WsTopic::Milestone], Some((100, 101)));
    let (b, _rx_b) = observer(vec![], None);
    let (c, _rx_c) = observer(vec![WsTopic::Vertex], Some((300, 301)));
    users.insert(1, a);
    users.insert(2, b);
    users.insert(3, c);

    let handshakes = users.shutdown();
    let taken: Vec<(usize, u32, u32)> =
        handshakes.iter().map(|(id, h)| (*id, h.signal, h.ready)).collect();
    assert_eq!(taken, vec![(1, 100, 101), (3, 300, 301)]);
    assert_eq!(users.len(), 3);
    assert_eq!(users.ids(), vec![1, 2, 3]);
    for id in [1usize, 2, 3] {
        assert!(users.get(id).unwrap().shutdown.is_none());
    }
    assert!(users.get(1).unwrap().topics.contains(WsTopic::Milestone));
    assert!(users.shutdown().is_empty());
}

#[test]
fn shutdown_of_an_empty_registry_signals_no_one() {
    let mut users = Users::new();
    assert!(users.shutdown().is_empty());
    assert!(users.is_empty());
}

#[test]
fn registry_insert_replaces_in_place() {
    let mut users = Users::new();
    let (a, _ra) = observer(vec![WsTopic::Milestone], Some((1, 1)));
    let (b, _rb) = observer(vec![WsTopic::Vertex], Some((2, 2)));
    let (a2, _ra2) = observer(vec![WsTopic::TipInfo], Some((9, 9)));
    assert!(users.insert(7, a).is_none());
    assert!(users.insert(8, b).is_none());
    let previous = users.insert(7, a2).unwrap();
    assert!(previous.topics.contains(WsTopic::Milestone));
    assert_eq!(previous.shutdown.unwrap().signal, 1);
    assert_eq!(users.len(), 2);
    assert_eq!(users.ids(), vec![7, 8]);
    assert!(users.get(7).unwrap().topics.contains(WsTopic::TipInfo));
    assert!(!users.get(7).unwrap().topics.contains(WsTopic::Milestone));
    assert!(users.get(9).is_none());
    assert!(users.contains(8));
    assert!(!users.contains(9));
}

#[test]
fn registry_remove_keeps_the_order_of_the_others() {
    let mut users = Users::new();
    for id in [5usize, 6, 7, 8] {
        let (user, _rx) = observer(vec![WsTopic::Vertex], None);
        users.insert(id, user);
    }
    assert!(users.remove(6).is_some());
    assert!(users.remove(6).is_none());
    assert!(users.remove(99).is_none());
    assert_eq!(users.ids(), vec![5, 7, 8]);
    assert_eq!(users.len(), 3);
}

#[test]
fn update_subscriptions_replaces_the_set() {
    let mut users = Users::new();
    let (a, _ra) = observer(vec![WsTopic::Milestone], Some((1, 2)));
    users.insert(1, a);
    assert!(users.update_subscriptions(1, TopicSet::from_topics(vec![WsTopic::Vertex])));
    assert!(!users.update_subscriptions(2, TopicSet::from_topics(vec![WsTopic::Vertex])));
    let user = users.get(1).unwrap();
    assert!(user.topics.contains(WsTopic::Vertex));
    assert!(!user.topics.contains(WsTopic::Milestone));
    assert_eq!(user.shutdown.as_ref().unwrap().ready, 2);
    let event = WsEvent::new(
        WsTopic::Milestone,
        WsEventInner::Milestone(MilestoneResponse { message_id: String::from("m"), index: 1 }),
    );
    assert!(broadcast(&event, Ok::<String, ()>(String::new()), &users).unwrap().recipients.is_empty());
    assert!(users.update_subscriptions(1, TopicSet::new()));
    assert!(users.get(1).unwrap().topics.is_empty());
}

#[test]
fn start_registers_the_ten_forwarders_of_the_catalogue() {
    let forwarders = Dashboard::start();
    let running = |source, topic, gated| TopicForwarder {
        source,
        topic,
        require_node_confirmed: gated,
        state: ForwarderState::Running,
    };
    let expected = vec![
        running(EventKind::LatestMilestoneChanged, WsTopic::SyncStatus, false),
        running(EventKind::MilestoneConfirmed, WsTopic::SyncStatus, false),
        running(EventKind::MpsMetricsUpdated, WsTopic::MpsMetricsUpdated, false),
        running(EventKind::MilestoneConfirmed, WsTopic::Milestone, false),
        running(EventKind::MessageSolidified, WsTopic::SolidInfo, true),
        running(EventKind::LatestMilestoneChanged, WsTopic::MilestoneInfo, false),
        running(EventKind::VertexCreated, WsTopic::Vertex, true),
        running(EventKind::MilestoneConfirmed, WsTopic::MilestoneConfirmed, false),
        running(EventKind::TipAdded, WsTopic::TipInfo, true),
        running(EventKind::TipRemoved, WsTopic::TipInfo, true),
    ];
    assert_eq!(forwarders, expected);
}

#[test]
fn one_confirmed_milestone_feeds_three_topics() {
    let mut topics = Vec::new();
    for mut forwarder in Dashboard::start() {
        if let ForwarderAction::Broadcast(event) = forwarder.step(input(milestone_confirmed(42), true)) {
            assert!(event.is_well_formed());
            topics.push(event.kind);
        }
    }
    assert_eq!(topics, vec![WsTopic::SyncStatus, WsTopic::Milestone, WsTopic::MilestoneConfirmed]);
}

#[test]
fn dashboard_depends_on_three_workers() {
    assert_eq!(
        Dashboard::dependencies(),
        vec![Dependency::Tangle, Dependency::Metrics, Dependency::PeerManager]
    );
    assert_eq!(Dashboard::default(), Dashboard {});
}

#[test]
fn both_milestone_events_populate_sync_status() {
    assert_eq!(
        forward(WsTopic::SyncStatus, latest_changed(51), tangle()),
        Some(WsEvent {
            kind: WsTopic::SyncStatus,
            inner: WsEventInner::SyncStatus(SyncStatusResponse { lmi: 51, cmi: 48 }),
        })
    );
    assert_eq!(
        forward(WsTopic::SyncStatus, milestone_confirmed(49), tangle()),
        Some(WsEvent {
            kind: WsTopic::SyncStatus,
            inner: WsEventInner::SyncStatus(SyncStatusResponse { lmi: 50, cmi: 49 }),
        })
    );
}

#[test]
fn confirmed_milestone_transforms() {
    assert_eq!(
        forward(WsTopic::MilestoneConfirmed, milestone_confirmed(42), tangle()),
        Some(WsEvent {
            kind: WsTopic::MilestoneConfirmed,
            inner: WsEventInner::ConfirmedInfo(ConfirmedInfoResponse {
                id: String::from("ms42"),
                excluded_ids: vec![String::from("x1"), String::from("x2")],
            }),
        })
    );
    assert_eq!(
        forward(WsTopic::Milestone, milestone_confirmed(42), tangle()),
        Some(WsEvent {
            kind: WsTopic::Milestone,
            inner: WsEventInner::Milestone(MilestoneResponse {
                message_id: String::from("ms42"),
                index: 42,
            }),
        })
    );
}

#[test]
fn tips_and_solid_messages_transform() {
    let added = DomainEvent::TipAdded(TipAdded { message_id: String::from("a") });
    let removed = DomainEvent::TipRemoved(TipRemoved { message_id: String::from("r") });
    let solid = DomainEvent::MessageSolidified(MessageSolidified { message_id: String::from("s") });
    assert_eq!(added.kind(), EventKind::TipAdded);
    assert_eq!(removed.kind(), EventKind::TipRemoved);
    assert_eq!(solid.kind(), EventKind::MessageSolidified);
    assert_eq!(
        forward(WsTopic::TipInfo, added, tangle()).unwrap().inner,
        WsEventInner::TipInfo(TipInfoResponse { id: String::from("a"), is_tip: true })
    );
    assert_eq!(
        forward(WsTopic::TipInfo, removed, tangle()).unwrap().inner,
        WsEventInner::TipInfo(TipInfoResponse { id: String::from("r"), is_tip: false })
    );
    assert_eq!(
        forward(WsTopic::SolidInfo, solid, tangle()).unwrap().inner,
        WsEventInner::SolidInfo(SolidInfoResponse { id: String::from("s") })
    );
}

#[test]
fn no_transform_for_topics_fed_by_other_workers() {
    for topic in [
        WsTopic::NodeStatus,
        WsTopic::ConfirmedMilestoneMetrics,
        WsTopic::DatabaseSizeMetrics,
        WsTopic::ConfirmedInfo,
    ] {
        assert_eq!(forward(topic, milestone_confirmed(1), tangle()), None);
        assert_eq!(forward(topic, latest_changed(1), tangle()), None);
        assert_eq!(forward(topic, vertex("v"), tangle()), None);
    }
    assert_eq!(forward(WsTopic::Vertex, latest_changed(1), tangle()), None);
    assert_eq!(forward(WsTopic::Milestone, latest_changed(1), tangle()), None);
}

#[test]
fn event_shape_follows_the_topic() {
    let payload = WsEventInner::ConfirmedInfo(ConfirmedInfoResponse {
        id: String::from("c"),
        excluded_ids: vec![],
    });
    assert!(WsEvent::new(WsTopic::ConfirmedInfo, payload.clone()).is_well_formed());
    assert!(WsEvent::new(WsTopic::MilestoneConfirmed, payload.clone()).is_well_formed());
    assert!(!WsEvent::new(WsTopic::Milestone, payload.clone()).is_well_formed());
    let event = WsEvent::new(WsTopic::SyncStatus, payload.clone());
    assert_eq!(event.kind, WsTopic::SyncStatus);
    assert_eq!(event.inner, payload);
    assert!(!event.is_well_formed());
}

#[test]
fn topic_names_are_canonical_and_distinct() {
    let topics = vec![
        (WsTopic::SyncStatus, "SyncStatus"),
        (WsTopic::MilestoneConfirmed, "MilestoneConfirmed"),
        (WsTopic::SolidInfo, "SolidInfo"),
        (WsTopic::Vertex, "Vertex"),
        (WsTopic::TipInfo, "TipInfo"),
        (WsTopic::NodeStatus, "NodeStatus"),
        (WsTopic::MpsMetricsUpdated, "MpsMetricsUpdated"),
        (WsTopic::MilestoneInfo, "MilestoneInfo"),
        (WsTopic::ConfirmedMilestoneMetrics, "ConfirmedMilestoneMetrics"),
        (WsTopic::DatabaseSizeMetrics, "DatabaseSizeMetrics"),
        (WsTopic::ConfirmedInfo, "ConfirmedInfo"),
        (WsTopic::Milestone, "Milestone"),
    ];
    for (i, (topic, name)) in topics.iter().enumerate() {
        assert_eq!(topic.name(), *name);
        for (other, _) in topics.iter().skip(i + 1) {
            assert_ne!(topic.name(), other.name());
        }
    }
}

#[test]
fn topic_set_behaves_as_a_set() {
    let mut set = TopicSet::new();
    assert!(set.is_empty());
    assert!(!set.contains(WsTopic::Vertex));
    assert!(set.insert(WsTopic::Vertex));
    assert!(!set.insert(WsTopic::Vertex));
    assert!(set.insert(WsTopic::TipInfo));
    assert!(set.contains(WsTopic::Vertex));
    assert!(set.contains(WsTopic::TipInfo));
    assert!(!set.is_empty());
    assert!(set.remove(WsTopic::Vertex));
    assert!(!set.remove(WsTopic::Vertex));
    assert!(!set.contains(WsTopic::Vertex));
    assert!(set.remove(WsTopic::TipInfo));
    assert!(set.is_empty());

    let mut doubled = TopicSet::from_topics(vec![WsTopic::Milestone, WsTopic::Milestone]);
    assert!(doubled.remove(WsTopic::Milestone));
    assert!(!doubled.contains(WsTopic::Milestone));
    assert!(doubled.is_empty());
}

#[test]
fn frame_puts_the_topic_under_type_and_the_payload_under_data() {
    assert_eq!(frame(WsTopic::Vertex, "{\"id\":\"v\"}"), "{\"type\":\"Vertex\",\"data\":{\"id\":\"v\"}}");
    assert_eq!(frame(WsTopic::NodeStatus, "null"), "{\"type\":\"NodeStatus\",\"data\":null}");
    assert_eq!(frame(WsTopic::ConfirmedInfo, ""), "{\"type\":\"ConfirmedInfo\",\"data\":}");
}

#[test]
fn defaults_are_empty() {
    let users = Users::default();
    assert!(users.is_empty());
    assert_eq!(users.len(), 0);
    assert!(users.ids().is_empty());
    assert!(TopicSet::default().is_empty());
}
