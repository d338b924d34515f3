//! Topic forwarders: one per pair of event kind and topic. A forwarder takes
//! what its channel hands it, one input at a time, and says what to do next.
//! Whoever runs it owns the channel, performs the broadcast and reads the
//! confirmation state of the node.

use vstd::prelude::*;
use crate::event::{
    forward, has_transform, lemma_outward_well_formed, outward, DomainEvent, EventKind,
    TangleIndices,
};
use crate::responses::WsEvent;
use crate::topic::WsTopic;

verus! {

/// How many milestones deep the node must be confirmed before a gated topic
/// is forwarded.
pub const CONFIRMED_THRESHOLD: u32 = 5;

/// The life of a forwarder.
#[derive(Clone, Copy, Debug, PartialEq, Eq, Structural)]
pub enum ForwarderState {
    /// Draining its channel; the listener is active.
    Running,
    /// Shutdown was signalled; what is already buffered is still processed.
    Draining,
    /// The task has exited.
    Stopped,
}

/// What the channel of a forwarder hands it.
#[derive(Clone, Debug, PartialEq, Eq)]
pub enum ForwarderInput {
    /// An event, with the tangle indices and the answer of the node to
    /// "is the confirmation depth at least `CONFIRMED_THRESHOLD`?", both read
    /// when the event was taken from the channel. The answer is ignored by a
    /// forwarder that is not gated.
    Event { event: DomainEvent, tangle: TangleIndices, confirmed: bool },
    /// The shutdown of the subsystem was signalled.
    Shutdown,
    /// Nothing is buffered and nothing more will be taken from the channel.
    Exhausted,
}

/// What the runner of a forwarder does after a step.
#[derive(Clone, Debug, PartialEq, Eq)]
pub enum ForwarderAction {
    /// Hand the event to the broadcaster.
    Broadcast(WsEvent),
    /// Nothing to do for this input.
    Skip,
    /// Leave the loop: the forwarder has stopped.
    Exit,
}

/// A forwarder of events of one kind into one topic.
#[derive(Clone, Debug, PartialEq, Eq)]
pub struct TopicForwarder {
    pub source: EventKind,
    pub topic: WsTopic,
    pub require_node_confirmed: bool,
    pub state: ForwarderState,
}

impl TopicForwarder {
    /// The event that this forwarder hands to the broadcaster for `input`, if
    /// any: the transform of an event of its own kind, unless it has stopped or
    /// it is gated and the node was not confirmed when the event was taken.
    pub open spec fn emits(self, input: ForwarderInput) -> Option<WsEvent> {
        match input {
            ForwarderInput::Event { event, tangle, confirmed } => {
                if self.state != ForwarderState::Stopped && event.spec_kind() == self.source && (
                !self.require_node_confirmed || confirmed) {
                    outward(self.topic, event, tangle)
                } else {
                    None
                }
            },
            _ => None,
        }
    }

    /// The state after `input`.
    pub open spec fn next_state(self, input: ForwarderInput) -> ForwarderState {
        match (self.state, input) {
            (ForwarderState::Stopped, _) => ForwarderState::Stopped,
            (_, ForwarderInput::Exhausted) => ForwarderState::Stopped,
            (ForwarderState::Running, ForwarderInput::Shutdown) => ForwarderState::Draining,
            (state, _) => state,
        }
    }

    /// The forwarder after `input`.
    pub open spec fn after(self, input: ForwarderInput) -> TopicForwarder {
        TopicForwarder { state: self.next_state(input), ..self }
    }

    /// What the runner is told to do for `input`.
    pub open spec fn action(self, input: ForwarderInput) -> ForwarderAction {
        match self.emits(input) {
            Some(event) => ForwarderAction::Broadcast(event),
            None => if self.next_state(input) == ForwarderState::Stopped {
                ForwarderAction::Exit
            } else {
                ForwarderAction::Skip
            },
        }
    }

    /// The forwarder after all of `inputs`, in order.
    pub open spec fn after_all(self, inputs: Seq<ForwarderInput>) -> TopicForwarder
        decreases inputs.len(),
    {
        if inputs.len() == 0 {
            self
        } else {
            self.after_all(inputs.drop_last()).after(inputs.last())
        }
    }

    /// The events handed to the broadcaster over all of `inputs`, in order.
    pub open spec fn outputs(self, inputs: Seq<ForwarderInput>) -> Seq<WsEvent>
        decreases inputs.len(),
    {
        if inputs.len() == 0 {
            Seq::empty()
        } else {
            let earlier = self.outputs(inputs.drop_last());
            match self.after_all(inputs.drop_last()).emits(inputs.last()) {
                Some(event) => earlier.push(event),
                None => earlier,
            }
        }
    }

    /// Takes one input: updates the state and says what to do.
    pub fn step(&mut self, input: ForwarderInput) -> (action: ForwarderAction)
        ensures
            action == old(self).action(input),
            *final(self) == old(self).after(input),
    {
        match self.state {
            ForwarderState::Stopped => ForwarderAction::Exit,
            _ => match input {
                ForwarderInput::Exhausted => {
                    self.state = ForwarderState::Stopped;
                    ForwarderAction::Exit
                },
                ForwarderInput::Shutdown => {
                    self.state = ForwarderState::Draining;
                    ForwarderAction::Skip
                },
                ForwarderInput::Event { event, tangle, confirmed } => {
                    if event.kind() == self.source && (!self.require_node_confirmed || confirmed) {
                        match forward(self.topic, event, tangle) {
                            Some(out) => ForwarderAction::Broadcast(out),
                            None => ForwarderAction::Skip,
                        }
                    } else {
                        ForwarderAction::Skip
                    }
                },
            },
        }
    }

    /// Takes a batch of inputs in order and returns what is to be broadcast,
    /// in order.
    pub fn run(&mut self, inputs: Vec<ForwarderInput>) -> (out: Vec<WsEvent>)
        ensures
            out@ == old(self).outputs(inputs@),
            *final(self) == old(self).after_all(inputs@),
    {
        let ghost all = inputs@;
        let ghost start = *self;
        let mut out: Vec<WsEvent> = Vec::new();
        for input in iter: inputs
            invariant
                iter.seq() == all,
                out@ == start.outputs(all.take(iter.index() as int)),
                *self == start.after_all(all.take(iter.index() as int)),
        {
            proof {
                let done = iter.index() as int;
                assert(all.take(done + 1).drop_last() == all.take(done));
                assert(all.take(done + 1).last() == input);
            }
            match self.step(input) {
                ForwarderAction::Broadcast(event) => out.push(event),
                _ => {},
            }
        }
        proof {
            assert(all.take(all.len() as int) == all);
        }
        out
    }
}

/// Registers a forwarder of events of kind `source` into `topic`. It starts
/// running; with `require_node_confirmed` it is gated.
pub fn topic_handler(source: EventKind, topic: WsTopic, require_node_confirmed: bool) -> (forwarder:
    TopicForwarder)
    ensures
        forwarder == (TopicForwarder {
            source,
            topic,
            require_node_confirmed,
            state: ForwarderState::Running,
        }),
{
    TopicForwarder { source, topic, require_node_confirmed, state: ForwarderState::Running }
}

/// Whether `input` is an event taken while the node was not confirmed.
pub open spec fn taken_unconfirmed(input: ForwarderInput) -> bool {
    input matches ForwarderInput::Event { confirmed, .. } && !confirmed
}

/// A batch processed after another continues where the first one ended: the
/// outputs of the whole are the outputs of the first part followed by those of
/// the second, so nothing that was emitted is ever reordered, repeated or
/// taken back by what comes later.
pub proof fn lemma_outputs_concat(
    forwarder: TopicForwarder,
    first: Seq<ForwarderInput>,
    second: Seq<ForwarderInput>,
)
    ensures
        forwarder.after_all(first + second) == forwarder.after_all(first).after_all(second),
        forwarder.outputs(first + second) == forwarder.outputs(first) + forwarder.after_all(
            first,
        ).outputs(second),
    decreases second.len(),
{
    if second.len() == 0 {
        assert(first + second == first);
    } else {
        lemma_outputs_concat(forwarder, first, second.drop_last());
        assert((first + second).drop_last() == first + second.drop_last());
        assert((first + second).last() == second.last());
    }
}

/// Delivery is first in, first out: of two inputs that are both emitted, the
/// earlier one is emitted at an earlier position, and the position of each is
/// the number of events emitted before it.
pub proof fn lemma_outputs_fifo(
    forwarder: TopicForwarder,
    inputs: Seq<ForwarderInput>,
    i: int,
    j: int,
)
    requires
        0 <= i < j < inputs.len(),
        forwarder.after_all(inputs.take(i)).emits(inputs[i]) is Some,
        forwarder.after_all(inputs.take(j)).emits(inputs[j]) is Some,
    ensures
        forwarder.outputs(inputs.take(i)).len() < forwarder.outputs(inputs.take(j)).len()
            < forwarder.outputs(inputs).len(),
        forwarder.outputs(inputs)[forwarder.outputs(inputs.take(i)).len() as int]
            == forwarder.after_all(inputs.take(i)).emits(inputs[i])->0,
        forwarder.outputs(inputs)[forwarder.outputs(inputs.take(j)).len() as int]
            == forwarder.after_all(inputs.take(j)).emits(inputs[j])->0,
{
    let upto_i = inputs.take(i + 1);
    let upto_j = inputs.take(j + 1);
    assert(upto_i.drop_last() == inputs.take(i));
    assert(upto_j.drop_last() == inputs.take(j));
    assert(upto_i + inputs.subrange(i + 1, j) == inputs.take(j));
    assert(upto_j + inputs.skip(j + 1) == inputs);
    lemma_outputs_concat(forwarder, upto_i, inputs.subrange(i + 1, j));
    lemma_outputs_concat(forwarder, upto_j, inputs.skip(j + 1));
}

/// A stopped forwarder stays stopped and emits nothing, whatever it is given.
pub proof fn lemma_stopped_is_silent(forwarder: TopicForwarder, inputs: Seq<ForwarderInput>)
    requires
        forwarder.state == ForwarderState::Stopped,
    ensures
        forwarder.after_all(inputs) == forwarder,
        forwarder.outputs(inputs) == Seq::<WsEvent>::empty(),
    decreases inputs.len(),
{
    if inputs.len() > 0 {
        lemma_stopped_is_silent(forwarder, inputs.drop_last());
    }
}

/// Once its channel is exhausted a forwarder has stopped, whatever came
/// before, and emits nothing from then on.
pub proof fn lemma_exhausted_stops(
    forwarder: TopicForwarder,
    before: Seq<ForwarderInput>,
    later: Seq<ForwarderInput>,
)
    ensures
        forwarder.after_all(before.push(ForwarderInput::Exhausted)).state
            == ForwarderState::Stopped,
        forwarder.outputs(before.push(ForwarderInput::Exhausted) + later) == forwarder.outputs(
            before,
        ),
{
    let upto = before.push(ForwarderInput::Exhausted);
    assert(upto.drop_last() == before);
    lemma_outputs_concat(forwarder, upto, later);
    lemma_stopped_is_silent(forwarder.after_all(upto), later);
}

/// A gated forwarder emits nothing for events taken while the node was not
/// confirmed.
pub proof fn lemma_closed_gate_is_silent(forwarder: TopicForwarder, inputs: Seq<ForwarderInput>)
    requires
        forwarder.require_node_confirmed,
        forall|k: int|
            0 <= k < inputs.len() && inputs[k] is Event ==> taken_unconfirmed(#[trigger] inputs[k]),
    ensures
        forwarder.outputs(inputs) == Seq::<WsEvent>::empty(),
        forwarder.after_all(inputs).require_node_confirmed,
    decreases inputs.len(),
{
    if inputs.len() > 0 {
        let earlier = inputs.drop_last();
        assert forall|k: int| 0 <= k < earlier.len() && earlier[k] is Event implies taken_unconfirmed(
            #[trigger] earlier[k],
        ) by {
            assert(earlier[k] == inputs[k]);
        }
        lemma_closed_gate_is_silent(forwarder, earlier);
        assert(inputs.last() == inputs[inputs.len() - 1]);
    }
}

/// Gating is decided for every event by itself. What a gated forwarder
/// skipped while the node was not confirmed is never delivered afterwards:
/// the outputs are those of the later inputs alone.
pub proof fn lemma_gate_skips_history(
    forwarder: TopicForwarder,
    skipped: Seq<ForwarderInput>,
    later: Seq<ForwarderInput>,
)
    requires
        forwarder.require_node_confirmed,
        forall|k: int|
            0 <= k < skipped.len() && skipped[k] is Event ==> taken_unconfirmed(
                #[trigger] skipped[k],
            ),
    ensures
        forwarder.outputs(skipped + later) == forwarder.after_all(skipped).outputs(later),
{
    lemma_closed_gate_is_silent(forwarder, skipped);
    lemma_outputs_concat(forwarder, skipped, later);
}

/// A forwarder that has not stopped emits the transform of every event of its
/// own kind that passes the gating: every one if it is not gated, and those
/// taken while the node was confirmed otherwise.
pub proof fn lemma_open_gate_delivers(
    forwarder: TopicForwarder,
    event: DomainEvent,
    tangle: TangleIndices,
    confirmed: bool,
)
    requires
        forwarder.state != ForwarderState::Stopped,
        event.spec_kind() == forwarder.source,
        !forwarder.require_node_confirmed || confirmed,
    ensures
        forwarder.emits(ForwarderInput::Event { event, tangle, confirmed }) == outward(
            forwarder.topic,
            event,
            tangle,
        ),
        forwarder.action(ForwarderInput::Event { event, tangle, confirmed }) is Broadcast
            <==> has_transform(forwarder.source, forwarder.topic),
{
    lemma_outward_well_formed(forwarder.topic, event, tangle);
}

} // verus!
