//! The connected observers: who is subscribed to what, to whom one event
//! goes, and whom to signal when the subsystem shuts down.
//!
//! The handles of an observer (its outbound channel, its shutdown signal and
//! the acknowledgement that answers it) are carried, never used: sending and
//! waiting is left to whoever holds the set.

use vstd::prelude::*;
use crate::responses::{frame, wire, WsEvent};
use crate::topic::{TopicSet, WsTopic};

verus! {

/// The two ends that the coordinator holds of an observer's shutdown
/// handshake: the signal to fire and the acknowledgement to wait for.
pub struct ShutdownHandshake<Sig, Ack> {
    pub signal: Sig,
    pub ready: Ack,
}

/// One connected observer.
pub struct WsUser<Tx, Sig, Ack> {
    /// The outbound delivery handle.
    pub tx: Tx,
    /// The topics the observer is subscribed to.
    pub topics: TopicSet,
    /// The shutdown handshake, until it is taken. An observer without one is
    /// already disconnecting on its own.
    pub shutdown: Option<ShutdownHandshake<Sig, Ack>>,
}

/// The connected observers, each under the identifier of its connection.
pub struct WsUsers<Tx, Sig, Ack> {
    entries: Vec<(usize, WsUser<Tx, Sig, Ack>)>,
}

impl<Tx, Sig, Ack> View for WsUsers<Tx, Sig, Ack> {
    type V = Seq<(usize, WsUser<Tx, Sig, Ack>)>;

    /// The observers with their identifiers, in the order in which they are
    /// visited.
    closed spec fn view(&self) -> Seq<(usize, WsUser<Tx, Sig, Ack>)> {
        self.entries@
    }
}

impl<Tx, Sig, Ack> Default for WsUsers<Tx, Sig, Ack> {
    fn default() -> (users: Self)
        ensures
            users@ == Seq::<(usize, WsUser<Tx, Sig, Ack>)>::empty(),
            users.wf(),
    {
        WsUsers::new()
    }
}

/// The identifier of `entry` if its observer is subscribed to `topic`.
pub open spec fn subscribed_id<Tx, Sig, Ack>(topic: WsTopic) -> spec_fn(
    (usize, WsUser<Tx, Sig, Ack>),
) -> Option<usize> {
    |entry: (usize, WsUser<Tx, Sig, Ack>)|
        if entry.1.topics@.contains(topic) {
            Some(entry.0)
        } else {
            None
        }
}

/// The handshake of `entry` with its identifier, if it still has one.
pub open spec fn pending_handshake<Tx, Sig, Ack>() -> spec_fn((usize, WsUser<Tx, Sig, Ack>)) -> Option<
    (usize, ShutdownHandshake<Sig, Ack>),
> {
    |entry: (usize, WsUser<Tx, Sig, Ack>)|
        match entry.1.shutdown {
            Some(handshake) => Some((entry.0, handshake)),
            None => None,
        }
}

/// `entry` with its handshake taken.
pub open spec fn signalled<Tx, Sig, Ack>() -> spec_fn((usize, WsUser<Tx, Sig, Ack>)) -> (
    usize,
    WsUser<Tx, Sig, Ack>,
) {
    |entry: (usize, WsUser<Tx, Sig, Ack>)| (entry.0, WsUser { shutdown: None, ..entry.1 })
}

/// One serialized event and the observers it goes to.
#[derive(Clone, Debug)]
pub struct Fanout {
    /// The push message.
    pub text: String,
    /// The identifiers of the observers to send it to, one send each.
    pub recipients: Vec<usize>,
}

impl<Tx, Sig, Ack> WsUsers<Tx, Sig, Ack> {
    /// No identifier is registered twice.
    pub open spec fn wf(self) -> bool {
        forall|i: int, j: int| 0 <= i < j < self@.len() ==> self@[i].0 != self@[j].0
    }

    /// Where `id` is registered, if it is.
    pub open spec fn position(self, id: usize) -> Option<int> {
        if exists|i: int| 0 <= i < self@.len() && self@[i].0 == id {
            Some(choose|i: int| 0 <= i < self@.len() && self@[i].0 == id)
        } else {
            None
        }
    }

    /// Whether `id` is registered.
    pub open spec fn has(self, id: usize) -> bool {
        self.position(id) is Some
    }

    /// The observer registered under `id`.
    pub open spec fn user(self, id: usize) -> WsUser<Tx, Sig, Ack>
        recommends
            self.has(id),
    {
        self@[self.position(id)->0].1
    }

    /// The identifiers of the observers subscribed to `topic`, in the order in
    /// which they are visited.
    pub open spec fn subscribers(self, topic: WsTopic) -> Seq<usize> {
        self@.filter_map(subscribed_id(topic))
    }

    /// The handshakes that have not been taken yet, each with the identifier
    /// of its observer, in the order in which they are visited.
    pub open spec fn pending_shutdowns(self) -> Seq<(usize, ShutdownHandshake<Sig, Ack>)> {
        self@.filter_map(pending_handshake())
    }

    /// With distinct identifiers, an identifier is found where it stands.
    pub proof fn lemma_position(self, id: usize, i: int)
        requires
            self.wf(),
            0 <= i < self@.len(),
            self@[i].0 == id,
        ensures
            self.position(id) == Some(i),
            self.user(id) == self@[i].1,
    {
    }

    /// An empty set of observers.
    pub fn new() -> (users: Self)
        ensures
            users@ == Seq::<(usize, WsUser<Tx, Sig, Ack>)>::empty(),
            users.wf(),
    {
        WsUsers { entries: Vec::new() }
    }

    /// The number of registered observers.
    pub fn len(&self) -> (n: usize)
        ensures
            n == self@.len(),
    {
        self.entries.len()
    }

    /// Tells whether no observer is registered.
    pub fn is_empty(&self) -> (empty: bool)
        ensures
            empty == (self@.len() == 0),
    {
        self.entries.len() == 0
    }

    fn find(&self, id: usize) -> (found: Option<usize>)
        requires
            self.wf(),
        ensures
            match found {
                Some(i) => i < self@.len() && self@[i as int].0 == id && self.position(id) == Some(
                    i as int,
                ),
                None => self.position(id) is None,
            },
    {
        let mut i: usize = 0;
        while i < self.entries.len()
            invariant
                self.wf(),
                i <= self.entries@.len(),
                forall|k: int| 0 <= k < i ==> self.entries@[k].0 != id,
            decreases self.entries@.len() - i,
        {
            if self.entries[i].0 == id {
                proof {
                    self.lemma_position(id, i as int);
                }
                return Some(i);
            }
            i += 1;
        }
        None
    }

    /// Tells whether `id` is registered.
    pub fn contains(&self, id: usize) -> (found: bool)
        requires
            self.wf(),
        ensures
            found == self.has(id),
    {
        self.find(id).is_some()
    }

    /// The observer registered under `id`, if any.
    pub fn get(&self, id: usize) -> (user: Option<&WsUser<Tx, Sig, Ack>>)
        requires
            self.wf(),
        ensures
            user is Some == self.has(id),
            user matches Some(u) ==> *u == self.user(id),
    {
        match self.find(id) {
            Some(i) => Some(&self.entries[i].1),
            None => None,
        }
    }

    /// The identifiers of all registered observers, in the order in which they
    /// are visited.
    pub fn ids(&self) -> (ids: Vec<usize>)
        ensures
            ids@ == self@.map_values(|entry: (usize, WsUser<Tx, Sig, Ack>)| entry.0),
    {
        let mut ids: Vec<usize> = Vec::new();
        let mut i: usize = 0;
        while i < self.entries.len()
            invariant
                i <= self.entries@.len(),
                ids@.len() == i,
                forall|k: int| 0 <= k < i ==> ids@[k] == self.entries@[k].0,
            decreases self.entries@.len() - i,
        {
            ids.push(self.entries[i].0);
            i += 1;
        }
        assert(ids@ =~= self@.map_values(|entry: (usize, WsUser<Tx, Sig, Ack>)| entry.0));
        ids
    }

    /// Registers `user` under `id`. An observer already registered under `id`
    /// is replaced, in place, and returned; otherwise the new one is visited
    /// last.
    pub fn insert(&mut self, id: usize, user: WsUser<Tx, Sig, Ack>) -> (previous: Option<
        WsUser<Tx, Sig, Ack>,
    >)
        requires
            old(self).wf(),
        ensures
            final(self).wf(),
            final(self).has(id),
            final(self).user(id) == user,
            match old(self).position(id) {
                Some(i) => previous == Some(old(self)@[i].1) && final(self)@ == old(self)@.update(
                    i,
                    (id, user),
                ),
                None => previous is None && final(self)@ == old(self)@.push((id, user)),
            },
    {
        let found = self.find(id);
        self.entries.push((id, user));
        match found {
            Some(i) => {
                let replaced = self.entries.swap_remove(i);
                proof {
                    assert(self@ == old(self)@.update(i as int, (id, user)));
                    self.lemma_position(id, i as int);
                }
                Some(replaced.1)
            },
            None => {
                proof {
                    assert forall|k: int| 0 <= k < old(self)@.len() implies old(self)@[k].0
                        != id by {
                        if old(self)@[k].0 == id {
                            assert(old(self).position(id) is Some);
                        }
                    }
                    self.lemma_position(id, old(self)@.len() as int);
                }
                None
            },
        }
    }

    /// Removes the observer registered under `id` and returns it, if there is
    /// one. The others keep their order.
    pub fn remove(&mut self, id: usize) -> (removed: Option<WsUser<Tx, Sig, Ack>>)
        requires
            old(self).wf(),
        ensures
            final(self).wf(),
            !final(self).has(id),
            match old(self).position(id) {
                Some(i) => removed == Some(old(self)@[i].1) && final(self)@ == old(self)@.remove(i),
                None => removed is None && final(self)@ == old(self)@,
            },
    {
        match self.find(id) {
            Some(i) => {
                let entry = self.entries.remove(i);
                proof {
                    if self.position(id) is Some {
                        let k = choose|k: int| 0 <= k < self@.len() && self@[k].0 == id;
                        if k < i {
                            assert(old(self)@[k].0 == id);
                        } else {
                            assert(old(self)@[k + 1].0 == id);
                        }
                    }
                }
                Some(entry.1)
            },
            None => None,
        }
    }

    /// Replaces the subscription set of the observer registered under `id`.
    /// Returns whether there is such an observer; nothing changes otherwise.
    pub fn update_subscriptions(&mut self, id: usize, topics: TopicSet) -> (updated: bool)
        requires
            old(self).wf(),
        ensures
            final(self).wf(),
            updated == old(self).has(id),
            match old(self).position(id) {
                Some(i) => final(self)@ == old(self)@.update(
                    i,
                    (id, WsUser { topics, ..old(self)@[i].1 }),
                ),
                None => final(self)@ == old(self)@,
            },
    {
        match self.find(id) {
            Some(i) => {
                self.entries[i].1.topics = topics;
                assert(self@ =~= old(self)@.update(
                    i as int,
                    (id, WsUser { topics, ..old(self)@[i as int].1 }),
                ));
                true
            },
            None => false,
        }
    }

    /// Takes the shutdown handshake of every observer that still has one and
    /// returns them, each with the identifier of its observer. The caller
    /// fires each signal and waits for all the acknowledgements. Observers
    /// without a handshake are skipped; none is removed.
    pub fn shutdown(&mut self) -> (handshakes: Vec<(usize, ShutdownHandshake<Sig, Ack>)>)
        ensures
            handshakes@ == old(self).pending_shutdowns(),
            final(self)@ == old(self)@.map_values(signalled()),
            old(self).wf() ==> final(self).wf(),
    {
        let mut handshakes: Vec<(usize, ShutdownHandshake<Sig, Ack>)> = Vec::new();
        let mut i: usize = 0;
        while i < self.entries.len()
            invariant
                i <= self.entries@.len(),
                self.entries@.len() == old(self).entries@.len(),
                forall|k: int| 0 <= k < i ==> self.entries@[k] == signalled()(old(self).entries@[k]),
                forall|k: int|
                    i <= k < self.entries@.len() ==> self.entries@[k] == old(self).entries@[k],
                handshakes@ == old(self).entries@.take(i as int).filter_map(pending_handshake()),
            decreases self.entries@.len() - i,
        {
            let id = self.entries[i].0;
            proof {
                old(self).entries@.lemma_filter_map_take_succ(pending_handshake(), i as int);
            }
            let taken = self.entries[i].1.shutdown.take();
            match taken {
                Some(handshake) => {
                    handshakes.push((id, handshake));
                },
                None => {},
            }
            i += 1;
        }
        proof {
            assert(old(self).entries@.take(i as int) == old(self).entries@);
            assert(self@ =~= old(self)@.map_values(signalled()));
        }
        handshakes
    }
}

/// Fans one event out. `data` is the outcome of serializing the payload of
/// `event`, once. If that failed the broadcast is abandoned for this event;
/// otherwise the payload is framed as the push message of the topic, and the
/// message goes to every observer that is subscribed to the topic, once each,
/// and to no one else.
pub fn broadcast<Tx, Sig, Ack, E>(
    event: &WsEvent,
    data: Result<String, E>,
    users: &WsUsers<Tx, Sig, Ack>,
) -> (fanout: Option<Fanout>)
    ensures
        match data {
            Ok(payload) => fanout matches Some(f) && f.text@ == wire(event.kind, payload@)
                && f.recipients@ == users.subscribers(event.kind),
            Err(_) => fanout is None,
        },
{
    match data {
        Ok(payload) => {
            let text = frame(event.kind, payload.as_str());
            let mut recipients: Vec<usize> = Vec::new();
            let mut i: usize = 0;
            while i < users.entries.len()
                invariant
                    i <= users.entries@.len(),
                    recipients@ == users.entries@.take(i as int).filter_map(
                        subscribed_id(event.kind),
                    ),
                decreases users.entries@.len() - i,
            {
                proof {
                    users.entries@.lemma_filter_map_take_succ(subscribed_id(event.kind), i as int);
                }
                if users.entries[i].1.topics.contains(event.kind) {
                    recipients.push(users.entries[i].0);
                }
                i += 1;
            }
            proof {
                assert(users.entries@.take(i as int) == users.entries@);
            }
            Some(Fanout { text, recipients })
        },
        Err(_) => None,
    }
}

/// Whether the observer at position `k` is registered under `id` and
/// subscribed to `topic`.
pub open spec fn subscribed_at<Tx, Sig, Ack>(
    entries: Seq<(usize, WsUser<Tx, Sig, Ack>)>,
    k: int,
    id: usize,
    topic: WsTopic,
) -> bool {
    0 <= k < entries.len() && entries[k].0 == id && entries[k].1.topics@.contains(topic)
}

/// Whether the observer at position `k` is registered under `id` and still
/// holds `handshake`.
pub open spec fn pending_at<Tx, Sig, Ack>(
    entries: Seq<(usize, WsUser<Tx, Sig, Ack>)>,
    k: int,
    id: usize,
    handshake: ShutdownHandshake<Sig, Ack>,
) -> bool {
    0 <= k < entries.len() && entries[k].0 == id && entries[k].1.shutdown == Some(handshake)
}

proof fn lemma_subscribers_prefix<Tx, Sig, Ack>(
    entries: Seq<(usize, WsUser<Tx, Sig, Ack>)>,
    topic: WsTopic,
    n: int,
)
    requires
        0 <= n <= entries.len(),
        forall|i: int, j: int| 0 <= i < j < entries.len() ==> entries[i].0 != entries[j].0,
    ensures
        entries.take(n).filter_map(subscribed_id(topic)).no_duplicates(),
        forall|id: usize|
            entries.take(n).filter_map(subscribed_id(topic)).contains(id) <==> exists|k: int|
                k < n && #[trigger] subscribed_at(entries, k, id, topic),
    decreases n,
{
    let subs = entries.take(n).filter_map(subscribed_id(topic));
    if n == 0 {
        assert(subs =~= Seq::<usize>::empty());
    } else {
        let earlier = entries.take(n - 1).filter_map(subscribed_id(topic));
        lemma_subscribers_prefix(entries, topic, n - 1);
        entries.lemma_filter_map_take_succ(subscribed_id(topic), n - 1);
        let last = entries[n - 1];
        if last.1.topics@.contains(topic) {
            assert(subs == earlier.push(last.0));
            assert(!earlier.contains(last.0)) by {
                if earlier.contains(last.0) {
                    let k = choose|k: int| k < n - 1 && #[trigger] subscribed_at(
                        entries,
                        k,
                        last.0,
                        topic,
                    );
                    assert(entries[k].0 != entries[n - 1].0);
                }
            }
            assert forall|id: usize| subs.contains(id) <==> exists|k: int|
                k < n && #[trigger] subscribed_at(entries, k, id, topic) by {
                if subs.contains(id) {
                    let p = choose|p: int| 0 <= p < subs.len() && subs[p] == id;
                    if p < earlier.len() {
                        assert(earlier[p] == id);
                        assert(earlier.contains(id));
                        let k = choose|k: int| k < n - 1 && #[trigger] subscribed_at(
                            entries,
                            k,
                            id,
                            topic,
                        );
                        assert(k < n && subscribed_at(entries, k, id, topic));
                    } else {
                        assert(subscribed_at(entries, n - 1, id, topic));
                    }
                }
                if exists|k: int| k < n && #[trigger] subscribed_at(entries, k, id, topic) {
                    let k = choose|k: int| k < n && #[trigger] subscribed_at(entries, k, id, topic);
                    if k < n - 1 {
                        assert(earlier.contains(id));
                        let p = choose|p: int| 0 <= p < earlier.len() && earlier[p] == id;
                        assert(subs[p] == id);
                    } else {
                        assert(subs[earlier.len() as int] == id);
                    }
                }
            }
        } else {
            assert(subs == earlier);
            assert forall|id: usize| subs.contains(id) <==> exists|k: int|
                k < n && #[trigger] subscribed_at(entries, k, id, topic) by {
                if subs.contains(id) {
                    let k = choose|k: int| k < n - 1 && #[trigger] subscribed_at(
                        entries,
                        k,
                        id,
                        topic,
                    );
                    assert(k < n && subscribed_at(entries, k, id, topic));
                }
                if exists|k: int| k < n && #[trigger] subscribed_at(entries, k, id, topic) {
                    let k = choose|k: int| k < n && #[trigger] subscribed_at(entries, k, id, topic);
                    assert(k < n - 1 && subscribed_at(entries, k, id, topic));
                }
            }
        }
    }
}

/// One broadcast reaches every observer that is subscribed to the topic
/// exactly once, and reaches no observer that is not: the recipients hold no
/// identifier twice, and hold an identifier exactly when an observer is
/// registered under it whose subscription set contains the topic.
pub proof fn lemma_subscribers_exact<Tx, Sig, Ack>(users: WsUsers<Tx, Sig, Ack>, topic: WsTopic)
    requires
        users.wf(),
    ensures
        users.subscribers(topic).no_duplicates(),
        forall|id: usize| #[trigger]
            users.subscribers(topic).contains(id) <==> users.has(id) && users.user(
                id,
            ).topics@.contains(topic),
{
    let entries = users@;
    lemma_subscribers_prefix(entries, topic, entries.len() as int);
    assert(entries.take(entries.len() as int) == entries);
    assert forall|id: usize| #[trigger]
        users.subscribers(topic).contains(id) <==> users.has(id) && users.user(
            id,
        ).topics@.contains(topic) by {
        if users.subscribers(topic).contains(id) {
            let k = choose|k: int| k < entries.len() && #[trigger] subscribed_at(
                entries,
                k,
                id,
                topic,
            );
            users.lemma_position(id, k);
        }
        if users.has(id) && users.user(id).topics@.contains(topic) {
            let k = users.position(id)->0;
            assert(subscribed_at(entries, k, id, topic));
        }
    }
}

proof fn lemma_pending_prefix<Tx, Sig, Ack>(entries: Seq<(usize, WsUser<Tx, Sig, Ack>)>, n: int)
    requires
        0 <= n <= entries.len(),
    ensures
        forall|id: usize, handshake: ShutdownHandshake<Sig, Ack>|
            entries.take(n).filter_map(pending_handshake()).contains((id, handshake))
                <==> exists|k: int| k < n && #[trigger] pending_at(entries, k, id, handshake),
        (forall|k: int| 0 <= k < n ==> (#[trigger] entries[k]).1.shutdown is None)
            ==> entries.take(n).filter_map(pending_handshake()).len() == 0,
    decreases n,
{
    let pending = entries.take(n).filter_map(pending_handshake());
    if n == 0 {
        assert(pending =~= Seq::<(usize, ShutdownHandshake<Sig, Ack>)>::empty());
    } else {
        let earlier = entries.take(n - 1).filter_map(pending_handshake());
        lemma_pending_prefix(entries, n - 1);
        entries.lemma_filter_map_take_succ(pending_handshake(), n - 1);
        let last = entries[n - 1];
        assert forall|id: usize, handshake: ShutdownHandshake<Sig, Ack>|
            pending.contains((id, handshake)) <==> exists|k: int|
                k < n && #[trigger] pending_at(entries, k, id, handshake) by {
            if pending.contains((id, handshake)) {
                let p = choose|p: int| 0 <= p < pending.len() && pending[p] == (id, handshake);
                if p < earlier.len() {
                    assert(earlier[p] == (id, handshake));
                    assert(earlier.contains((id, handshake)));
                    let k = choose|k: int| k < n - 1 && #[trigger] pending_at(
                        entries,
                        k,
                        id,
                        handshake,
                    );
                    assert(k < n && pending_at(entries, k, id, handshake));
                } else {
                    assert(pending_at(entries, n - 1, id, handshake));
                }
            }
            if exists|k: int| k < n && #[trigger] pending_at(entries, k, id, handshake) {
                let k = choose|k: int| k < n && #[trigger] pending_at(entries, k, id, handshake);
                if k < n - 1 {
                    assert(earlier.contains((id, handshake)));
                    let p = choose|p: int| 0 <= p < earlier.len() && earlier[p] == (id, handshake);
                    assert(pending[p] == (id, handshake));
                } else {
                    assert(pending[earlier.len() as int] == (id, handshake));
                }
            }
        }
    }
}

proof fn lemma_pending_distinct<Tx, Sig, Ack>(entries: Seq<(usize, WsUser<Tx, Sig, Ack>)>, n: int)
    requires
        0 <= n <= entries.len(),
        forall|i: int, j: int| 0 <= i < j < entries.len() ==> entries[i].0 != entries[j].0,
    ensures
        forall|p: int, q: int|
            0 <= p < q < entries.take(n).filter_map(pending_handshake()).len() ==> entries.take(
                n,
            ).filter_map(pending_handshake())[p].0 != entries.take(n).filter_map(
                pending_handshake(),
            )[q].0,
    decreases n,
{
    let pending = entries.take(n).filter_map(pending_handshake());
    if n == 0 {
        assert(pending =~= Seq::<(usize, ShutdownHandshake<Sig, Ack>)>::empty());
    } else {
        let earlier = entries.take(n - 1).filter_map(pending_handshake());
        lemma_pending_distinct(entries, n - 1);
        lemma_pending_prefix(entries, n - 1);
        entries.lemma_filter_map_take_succ(pending_handshake(), n - 1);
        assert forall|p: int, q: int| 0 <= p < q < pending.len() implies pending[p].0
            != pending[q].0 by {
            if q == earlier.len() {
                assert(earlier[p] == pending[p]);
                assert(earlier.contains((pending[p].0, pending[p].1)));
                let k = choose|k: int| k < n - 1 && #[trigger] pending_at(
                    entries,
                    k,
                    pending[p].0,
                    pending[p].1,
                );
                assert(entries[k].0 != entries[n - 1].0);
            } else {
                assert(earlier[p] == pending[p] && earlier[q] == pending[q]);
            }
        }
    }
}

/// Shutdown signals every observer that has a handshake exactly once, and no
/// other: a handshake is handed out under an identifier exactly when the
/// observer registered under it held that handshake, and no identifier is
/// handed out twice.
pub proof fn lemma_shutdown_signals_each<Tx, Sig, Ack>(users: WsUsers<Tx, Sig, Ack>)
    requires
        users.wf(),
    ensures
        forall|id: usize, handshake: ShutdownHandshake<Sig, Ack>| #[trigger]
            users.pending_shutdowns().contains((id, handshake)) <==> users.has(id) && users.user(
                id,
            ).shutdown == Some(handshake),
        forall|p: int, q: int|
            0 <= p < q < users.pending_shutdowns().len() ==> users.pending_shutdowns()[p].0
                != users.pending_shutdowns()[q].0,
{
    let entries = users@;
    lemma_pending_prefix(entries, entries.len() as int);
    lemma_pending_distinct(entries, entries.len() as int);
    assert(entries.take(entries.len() as int) == entries);
    assert forall|id: usize, handshake: ShutdownHandshake<Sig, Ack>| #[trigger]
        users.pending_shutdowns().contains((id, handshake)) <==> users.has(id) && users.user(
            id,
        ).shutdown == Some(handshake) by {
        if users.pending_shutdowns().contains((id, handshake)) {
            let k = choose|k: int| k < entries.len() && #[trigger] pending_at(
                entries,
                k,
                id,
                handshake,
            );
            users.lemma_position(id, k);
        }
        if users.has(id) && users.user(id).shutdown == Some(handshake) {
            let k = users.position(id)->0;
            assert(pending_at(entries, k, id, handshake));
        }
    }
}

/// After a shutdown the same observers are registered, under the same
/// identifiers, and none of them has a handshake left: a second shutdown
/// signals no one.
pub proof fn lemma_shutdown_leaves_none<Tx, Sig, Ack>(
    before: WsUsers<Tx, Sig, Ack>,
    after: WsUsers<Tx, Sig, Ack>,
)
    requires
        after@ == before@.map_values(signalled()),
    ensures
        after@.len() == before@.len(),
        forall|k: int| 0 <= k < after@.len() ==> (#[trigger] after@[k]).1.shutdown is None,
        forall|k: int| 0 <= k < after@.len() ==> (#[trigger] after@[k]).0 == before@[k].0,
        before.wf() ==> after.wf(),
        after.pending_shutdowns() == Seq::<(usize, ShutdownHandshake<Sig, Ack>)>::empty(),
        after@.map_values(signalled()) == after@,
{
    let entries = after@;
    lemma_pending_prefix(entries, entries.len() as int);
    assert(entries.take(entries.len() as int) == entries);
    assert(after.pending_shutdowns() =~= Seq::<(usize, ShutdownHandshake<Sig, Ack>)>::empty());
    assert(after@.map_values(signalled()) =~= after@);
}

} // verus!
