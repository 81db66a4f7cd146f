//! Messages between the control side and the audio side of a processor.
//!
//! Two single-producer, single-consumer rings carry them: one from the
//! control side to the audio side, one back. The ends of a ring live on
//! different threads. What a ring holds at a moment depends on how far the
//! other thread has got, so the contracts here speak of what each end alone
//! decides: the messages that the ring has accepted from a producing end,
//! and the messages that a consuming end has taken from the ring, each in
//! order. What an end takes is what the other end was accepted with; that
//! link crosses the threads and is stated nowhere.

use super::audio_processor::AudioProcessor;
use super::midi_message::MidiMessage;
use super::midi_receiver::MidiReceiver;
use super::parameter::{ParameterId, ParameterValue};
use ringbuf::{Consumer, Producer, RingBuffer};
use std::collections::HashMap;
use vstd::prelude::*;

verus! {

/// `ringbuf::RingBuffer`: the ring itself, before it is split into its two
/// ends. Nothing of its inside is known here.
#[verifier::external_type_specification]
#[verifier::external_body]
#[verifier::reject_recursive_types(T)]
pub struct ExRingBuffer<T: Sized>(ringbuf::RingBuffer<T>);

/// `ringbuf::Producer`: the end of a ring that appends. Nothing of its inside
/// is known here.
#[verifier::external_type_specification]
#[verifier::external_body]
#[verifier::reject_recursive_types(T)]
pub struct ExProducer<T>(ringbuf::Producer<T>);

/// `ringbuf::Consumer`: the end of a ring that removes. Nothing of its inside
/// is known here.
#[verifier::external_type_specification]
#[verifier::external_body]
#[verifier::reject_recursive_types(T)]
pub struct ExConsumer<T>(ringbuf::Consumer<T>);

/// `ringbuf::Consumer::len` is the number of elements in the ring at that
/// moment; the producer may have added more by the time it returns, so
/// nothing is claimed of it.
pub assume_specification<T>[ ringbuf::Consumer::<T>::len ](
    consumer: &ringbuf::Consumer<T>,
) -> (len: usize)
;

/// Messages sent from proxy to processor.
#[derive(Clone, Copy, Debug, PartialEq, Eq, Structural)]
pub enum ProxyMessage {
    /// Handles a MIDI message.
    HandleMidi(MidiMessage),
    /// Sets a parameter.
    SetParameter(ParameterId, ParameterValue),
}

/// Messages sent from processor to proxy.
#[derive(Clone, Copy, Debug, PartialEq, Eq, Structural)]
pub enum ProcessorMessage {
    /// Updates a parameter.
    UpdateParameter(ParameterId, ParameterValue),
}

impl ProcessorMessage {
    /// The parameter that the message is about.
    pub open spec fn id(self) -> ParameterId {
        match self {
            ProcessorMessage::UpdateParameter(id, _) => id,
        }
    }
}

/// The messages that the ring to the processor has accepted at this end so
/// far, oldest first: one for each `ringbuf::Producer::push` on this end that
/// returned `Ok`. Only this end adds to it, whatever the other thread does.
pub uninterp spec fn accepted_messages(producer: ringbuf::Producer<ProxyMessage>) -> Seq<ProxyMessage>;

/// The messages that this end has taken from the ring to the processor so
/// far, oldest first: one for each `ringbuf::Consumer::pop` on this end that
/// returned a message. Only this end adds to it, whatever the other thread
/// does.
pub uninterp spec fn taken_messages(consumer: ringbuf::Consumer<ProxyMessage>) -> Seq<ProxyMessage>;

/// The updates that the ring to the proxy has accepted at this end so far,
/// oldest first: one for each `ringbuf::Producer::push` on this end that
/// returned `Ok`.
pub uninterp spec fn accepted_updates(producer: ringbuf::Producer<ProcessorMessage>) -> Seq<ProcessorMessage>;

/// The updates that this end has taken from the ring to the proxy so far,
/// oldest first: one for each `ringbuf::Consumer::pop` on this end that
/// returned an update.
pub uninterp spec fn taken_updates(consumer: ringbuf::Consumer<ProcessorMessage>) -> Seq<ProcessorMessage>;

/// The number of messages that a ring to the processor was made for: what
/// `ringbuf::RingBuffer::capacity` returns.
pub uninterp spec fn message_ring_capacity(ring: ringbuf::RingBuffer<ProxyMessage>) -> usize;

/// The number of messages that the ring of this end was made for: what
/// `ringbuf::Producer::capacity` returns. It is constant.
pub uninterp spec fn message_capacity(producer: ringbuf::Producer<ProxyMessage>) -> usize;

/// The number of updates that a ring to the proxy was made for: what
/// `ringbuf::RingBuffer::capacity` returns.
pub uninterp spec fn update_ring_capacity(ring: ringbuf::RingBuffer<ProcessorMessage>) -> usize;

/// The number of updates that the ring of this end was made for: what
/// `ringbuf::Producer::capacity` returns. It is constant.
pub uninterp spec fn update_capacity(producer: ringbuf::Producer<ProcessorMessage>) -> usize;

/// Wraps `ringbuf::RingBuffer::new`, which makes a ring for up to `capacity`
/// items. It allocates one slot more than that, so `capacity` has to be
/// below the largest `usize`. The claim is that the ring was made for
/// `capacity` items: `RingBuffer::capacity` is the number of slots less one.
#[verifier::external_body]
fn new_message_ring(capacity: usize) -> (ring: RingBuffer<ProxyMessage>)
    requires
        capacity < usize::MAX,
    ensures
        message_ring_capacity(ring) == capacity,
{
    RingBuffer::new(capacity)
}

/// Wraps `ringbuf::RingBuffer::new` for a ring of updates, with the same
/// demand and the same claim as [`new_message_ring`]: `capacity` is below the
/// largest `usize`, and the ring was made for `capacity` items.
#[verifier::external_body]
fn new_update_ring(capacity: usize) -> (ring: RingBuffer<ProcessorMessage>)
    requires
        capacity < usize::MAX,
    ensures
        update_ring_capacity(ring) == capacity,
{
    RingBuffer::new(capacity)
}

/// Wraps `ringbuf::RingBuffer::split`, which hands out the two ends of the
/// ring. The claims: the producing end reports the capacity of the ring,
/// and, since a ring takes items through its ends alone, nothing has been
/// accepted or taken yet.
#[verifier::external_body]
fn split_message_ring(ring: RingBuffer<ProxyMessage>) -> (ends: (
    Producer<ProxyMessage>,
    Consumer<ProxyMessage>,
))
    ensures
        message_capacity(ends.0) == message_ring_capacity(ring),
        accepted_messages(ends.0) == Seq::<ProxyMessage>::empty(),
        taken_messages(ends.1) == Seq::<ProxyMessage>::empty(),
{
    ring.split()
}

/// Wraps `ringbuf::RingBuffer::split` for a ring of updates, with the same
/// claims as [`split_message_ring`]: the producing end reports the capacity
/// of the ring, and nothing has been accepted or taken yet.
#[verifier::external_body]
fn split_update_ring(ring: RingBuffer<ProcessorMessage>) -> (ends: (
    Producer<ProcessorMessage>,
    Consumer<ProcessorMessage>,
))
    ensures
        update_capacity(ends.0) == update_ring_capacity(ring),
        accepted_updates(ends.0) == Seq::<ProcessorMessage>::empty(),
        taken_updates(ends.1) == Seq::<ProcessorMessage>::empty(),
{
    ring.split()
}

/// Wraps `ringbuf::Producer::push`, which appends an element, or, on a ring
/// that is full at that moment, hands the element back in the error. The
/// claims: an error carries the message that was passed in; the ring has
/// accepted the message exactly where the call returns `Ok`; the capacity of
/// a ring is constant.
#[verifier::external_body]
fn push_message(producer: &mut Producer<ProxyMessage>, message: ProxyMessage) -> (result: Result<
    (),
    ProxyMessage,
>)
    ensures
        result matches Err(back) ==> back == message,
        accepted_messages(*final(producer)) == if result is Ok {
            accepted_messages(*old(producer)).push(message)
        } else {
            accepted_messages(*old(producer))
        },
        message_capacity(*final(producer)) == message_capacity(*old(producer)),
{
    producer.push(message)
}

/// Wraps `ringbuf::Producer::push` for a ring of updates, with the same
/// claims as [`push_message`]: an error carries the update that was passed
/// in; the ring has accepted the update exactly where the call returns `Ok`;
/// the capacity of a ring is constant.
#[verifier::external_body]
fn push_update(producer: &mut Producer<ProcessorMessage>, update: ProcessorMessage) -> (result:
    Result<(), ProcessorMessage>)
    ensures
        result matches Err(back) ==> back == update,
        accepted_updates(*final(producer)) == if result is Ok {
            accepted_updates(*old(producer)).push(update)
        } else {
            accepted_updates(*old(producer))
        },
        update_capacity(*final(producer)) == update_capacity(*old(producer)),
{
    producer.push(update)
}

/// Wraps `ringbuf::Consumer::pop`, which removes the oldest element, or
/// returns `None` where the ring is empty at that moment. Which of the two
/// happens depends on what the other thread has pushed. The claim: this end
/// has taken the message exactly where the call returns one.
#[verifier::external_body]
fn pop_message(consumer: &mut Consumer<ProxyMessage>) -> (message: Option<ProxyMessage>)
    ensures
        taken_messages(*final(consumer)) == match message {
            Some(taken) => taken_messages(*old(consumer)).push(taken),
            None => taken_messages(*old(consumer)),
        },
{
    consumer.pop()
}

/// Wraps `ringbuf::Consumer::pop` for a ring of updates, with the same claim
/// as [`pop_message`]: this end has taken the update exactly where the call
/// returns one.
#[verifier::external_body]
fn pop_update(consumer: &mut Consumer<ProcessorMessage>) -> (update: Option<ProcessorMessage>)
    ensures
        taken_updates(*final(consumer)) == match update {
            Some(taken) => taken_updates(*old(consumer)).push(taken),
            None => taken_updates(*old(consumer)),
        },
{
    consumer.pop()
}

/// Whether `after` is the processor `before` once it was handed `message`: a
/// MIDI message goes to its MIDI input, a parameter change sets the parameter.
pub open spec fn dispatched<P: AudioProcessor>(
    before: &P,
    message: ProxyMessage,
    after: &P,
) -> bool {
    match message {
        ProxyMessage::HandleMidi(midi) => before.handled(midi, after),
        ProxyMessage::SetParameter(id, value) => before.parameter_set(id, value, after),
    }
}

/// Whether `after` is the processor `before` once it was handed each of
/// `messages`, the first of them first.
pub open spec fn delivered<P: AudioProcessor>(
    before: P,
    messages: Seq<ProxyMessage>,
    after: P,
) -> bool
    decreases messages.len(),
{
    if messages.len() == 0 {
        before == after
    } else {
        exists|mid: P|
            delivered(before, messages.drop_last(), mid) && #[trigger] dispatched(
                &mid,
                messages.last(),
                &after,
            )
    }
}

/// The snapshot after a message from the processor was recorded in it.
pub open spec fn updated(
    snapshot: Map<ParameterId, ParameterValue>,
    message: ProcessorMessage,
) -> Map<ParameterId, ParameterValue> {
    match message {
        ProcessorMessage::UpdateParameter(id, value) => snapshot.insert(id, value),
    }
}

/// The snapshot after each of `messages` was recorded in it, the first of
/// them first: a later value of a parameter replaces an earlier one.
pub open spec fn recorded(
    snapshot: Map<ParameterId, ParameterValue>,
    messages: Seq<ProcessorMessage>,
) -> Map<ParameterId, ParameterValue>
    decreases messages.len(),
{
    if messages.len() == 0 {
        snapshot
    } else {
        updated(recorded(snapshot, messages.drop_last()), messages.last())
    }
}

/// Whether a history `after` comes of `before` when `update` is offered to
/// the ring: the ring has accepted the update or, being full, dropped it.
pub open spec fn offered_one(
    before: Seq<ProcessorMessage>,
    update: ProcessorMessage,
    after: Seq<ProcessorMessage>,
) -> bool {
    after == before.push(update) || after == before
}

/// Whether a history `after` comes of `before` when each of `updates` is
/// offered to the ring, the first of them first: the ring has accepted some
/// of them, in their order, and nothing else.
pub open spec fn offered(
    before: Seq<ProcessorMessage>,
    updates: Seq<ProcessorMessage>,
    after: Seq<ProcessorMessage>,
) -> bool
    decreases updates.len(),
{
    if updates.len() == 0 {
        after == before
    } else {
        exists|mid: Seq<ProcessorMessage>|
            offered(before, updates.drop_last(), mid) && #[trigger] offered_one(
                mid,
                updates.last(),
                after,
            )
    }
}

/// Handing over a single message is dispatching it.
pub proof fn lemma_delivered_one<P: AudioProcessor>(before: P, message: ProxyMessage, after: P)
    ensures
        delivered(before, seq![message], after) <==> dispatched(&before, message, &after),
{
    let one = seq![message];
    assert(one.drop_last() =~= Seq::<ProxyMessage>::empty());
    assert(one.last() == message);
    if dispatched(&before, message, &after) {
        assert(delivered(before, one.drop_last(), before));
    }
    if delivered(before, one, after) {
        let mid = choose|mid: P|
            delivered(before, one.drop_last(), mid) && #[trigger] dispatched(
                &mid,
                one.last(),
                &after,
            );
        assert(mid == before);
    }
}

/// Once an update of a parameter was recorded, the snapshot knows the
/// parameter, and its value is that of the last such update.
pub proof fn lemma_recorded_last_update(
    snapshot: Map<ParameterId, ParameterValue>,
    messages: Seq<ProcessorMessage>,
    id: ParameterId,
    value: ParameterValue,
)
    ensures
        ({
            let all = messages.push(ProcessorMessage::UpdateParameter(id, value));
            &&& recorded(snapshot, all).contains_key(id)
            &&& recorded(snapshot, all)[id] == value
        }),
{
    let all = messages.push(ProcessorMessage::UpdateParameter(id, value));
    assert(all.drop_last() =~= messages);
}

/// Recording leaves every parameter alone that no message names.
pub proof fn lemma_recorded_keeps_others(
    snapshot: Map<ParameterId, ParameterValue>,
    messages: Seq<ProcessorMessage>,
    id: ParameterId,
)
    requires
        forall|i: int| 0 <= i < messages.len() ==> (#[trigger] messages[i]).id() != id,
    ensures
        recorded(snapshot, messages).contains_key(id) == snapshot.contains_key(id),
        snapshot.contains_key(id) ==> recorded(snapshot, messages)[id] == snapshot[id],
    decreases messages.len(),
{
    if messages.len() > 0 {
        lemma_recorded_keeps_others(snapshot, messages.drop_last(), id);
        assert(messages.last() == messages[messages.len() - 1]);
    }
}

/// Hands one message from the proxy to a processor.
pub fn dispatch<P: AudioProcessor>(processor: &mut P, message: ProxyMessage)
    ensures
        dispatched(old(processor), message, final(processor)),
{
    match message {
        ProxyMessage::HandleMidi(midi) => processor.handle_midi_message(midi),
        ProxyMessage::SetParameter(id, value) => processor.set_parameter(id, value),
    }
}

/// The control side's sending end: what a proxy uses to reach the processor
/// on the audio thread.
pub struct ProxySender {
    /// Channel to send messages to the processor.
    to_source: Producer<ProxyMessage>,
}

impl ProxySender {
    /// The messages that the ring has accepted from this sender so far,
    /// oldest first.
    pub closed spec fn sent(&self) -> Seq<ProxyMessage> {
        accepted_messages(self.to_source)
    }

    /// The number of messages that the ring of this sender was made for.
    pub closed spec fn capacity(&self) -> usize {
        message_capacity(self.to_source)
    }

    /// Whether `after` is this sender once it has offered `message` to its
    /// ring: the ring has accepted the message or, being full, dropped it.
    pub open spec fn offered(&self, message: ProxyMessage, after: &Self) -> bool {
        &&& after.sent() == self.sent().push(message) || after.sent() == self.sent()
        &&& after.capacity() == self.capacity()
    }

    /// Offers a message to the ring.
    fn offer(&mut self, message: ProxyMessage)
        ensures
            old(self).offered(message, final(self)),
    {
        let _ = push_message(&mut self.to_source, message);
    }

    /// Sends a parameter change to processor. On a full ring the change is
    /// dropped.
    pub fn set_parameter(&mut self, id: ParameterId, value: ParameterValue)
        ensures
            old(self).offered(ProxyMessage::SetParameter(id, value), final(self)),
    {
        self.offer(ProxyMessage::SetParameter(id, value));
    }
}

impl MidiReceiver for ProxySender {
    /// The message was offered to the ring, which has accepted it or, being
    /// full, dropped it.
    open spec fn handled(&self, message: MidiMessage, after: &Self) -> bool {
        self.offered(ProxyMessage::HandleMidi(message), after)
    }

    /// Sends a MIDI message to processor. On a full ring the message is
    /// dropped.
    fn handle_midi_message(&mut self, message: MidiMessage) {
        self.offer(ProxyMessage::HandleMidi(message));
    }
}

/// Parameter map populated by processor messages: the control side's last
/// known value of each parameter.
pub struct ParameterSnapshot {
    parameter_map: HashMap<ParameterId, ParameterValue>,
}

impl View for ParameterSnapshot {
    type V = Map<ParameterId, ParameterValue>;

    closed spec fn view(&self) -> Map<ParameterId, ParameterValue> {
        self.parameter_map@
    }
}

impl ParameterSnapshot {
    /// A snapshot that knows no parameter.
    pub fn new() -> (snapshot: Self)
        ensures
            snapshot@ == Map::<ParameterId, ParameterValue>::empty(),
    {
        ParameterSnapshot { parameter_map: HashMap::new() }
    }

    /// Gets a parameter: the last value recorded for it, or [None] where none
    /// was.
    pub fn get_parameter(&self, id: ParameterId) -> (value: Option<ParameterValue>)
        ensures
            value == if self@.contains_key(id) {
                Some(self@[id])
            } else {
                None
            },
    {
        broadcast use vstd::std_specs::hash::group_hash_axioms;

        match self.parameter_map.get(&id) {
            Some(value) => Some(*value),
            None => None,
        }
    }

    /// Records one message from the processor.
    pub fn update(&mut self, message: ProcessorMessage)
        ensures
            final(self)@ == updated(old(self)@, message),
    {
        broadcast use vstd::std_specs::hash::group_hash_axioms;

        match message {
            ProcessorMessage::UpdateParameter(id, value) => {
                self.parameter_map.insert(id, value);
            },
        }
    }

    /// Records what the processor has sent: takes the updates that are
    /// pending on the ring when the call begins, oldest first, and records
    /// each. It stops early where the ring runs empty. The snapshot is then
    /// what it was with every update recorded that the call took, and with
    /// no other.
    pub fn record(&mut self, from_source: &mut Consumer<ProcessorMessage>)
        ensures
            taken_updates(*old(from_source)).is_prefix_of(taken_updates(*final(from_source))),
            final(self)@ == recorded(
                old(self)@,
                taken_updates(*final(from_source)).skip(
                    taken_updates(*old(from_source)).len() as int,
                ),
            ),
    {
        let pending: usize = from_source.len();
        let ghost before = taken_updates(*from_source);
        let ghost mut messages: Seq<ProcessorMessage> = Seq::empty();
        let mut taken: usize = 0;
        let mut more: bool = true;
        while more && taken < pending
            invariant
                taken <= pending,
                taken_updates(*from_source) == before + messages,
                recorded(old(self)@, messages) == self@,
            decreases pending - taken + (if more { 1int } else { 0int }),
        {
            match pop_update(from_source) {
                Some(message) => {
                    self.update(message);
                    proof {
                        assert(messages.push(message).drop_last() =~= messages);
                        assert(before + messages.push(message) =~= (before + messages).push(
                            message,
                        ));
                        messages = messages.push(message);
                    }
                    taken += 1;
                },
                None => {
                    more = false;
                },
            }
        }
        assert((before + messages).skip(before.len() as int) =~= messages);
        assert((before + messages).subrange(0, before.len() as int) =~= before);
    }
}

/// The processor end of the communication channel, serving the proxy.
pub struct ProcessorProxySource {
    /// Channel to receive messages from proxy.
    from_proxy: Consumer<ProxyMessage>,
    /// Channel to send messages to proxy.
    to_proxy: Producer<ProcessorMessage>,
}

impl ProcessorProxySource {
    /// The messages that this source has taken from the ring of the proxy so
    /// far, oldest first.
    pub closed spec fn received(&self) -> Seq<ProxyMessage> {
        taken_messages(self.from_proxy)
    }

    /// The updates that the ring to the proxy has accepted from this source
    /// so far, oldest first.
    pub closed spec fn published(&self) -> Seq<ProcessorMessage> {
        accepted_updates(self.to_proxy)
    }

    /// The number of updates that the ring to the proxy was made for.
    pub closed spec fn capacity(&self) -> usize {
        update_capacity(self.to_proxy)
    }

    /// Creates new processor proxy source with specified message buffer size
    /// (upper limit for unprocessed messages), together with the two far
    /// ends: the sender that reaches this source, and the ring on which its
    /// parameter updates arrive. Both rings are made for `buffer_size`
    /// messages, and nothing has passed through them yet.
    pub fn new(buffer_size: usize) -> (ends: (Self, ProxySender, Consumer<ProcessorMessage>))
        requires
            buffer_size < usize::MAX,
        ensures
            ends.0.capacity() == buffer_size,
            ends.0.received() == Seq::<ProxyMessage>::empty(),
            ends.0.published() == Seq::<ProcessorMessage>::empty(),
            ends.1.capacity() == buffer_size,
            ends.1.sent() == Seq::<ProxyMessage>::empty(),
            taken_updates(ends.2) == Seq::<ProcessorMessage>::empty(),
    {
        // Build channel from proxy to processor.
        let from_proxy_to_source = new_message_ring(buffer_size);
        let (to_source, from_proxy) = split_message_ring(from_proxy_to_source);

        // Build channel from processor to proxy.
        let from_source_to_proxy = new_update_ring(buffer_size);
        let (to_proxy, from_source) = split_update_ring(from_source_to_proxy);

        (ProcessorProxySource { from_proxy, to_proxy }, ProxySender { to_source }, from_source)
    }

    /// Handles proxy messages on a processor: takes the messages that are
    /// pending on the ring when the call begins, oldest first, and hands each
    /// to the processor. It stops early where the ring runs empty, and returns
    /// at once where nothing is pending. The processor was then handed every
    /// message that the call took, in that order, and no other.
    pub fn handle_messages<P: AudioProcessor>(&mut self, processor: &mut P)
        ensures
            old(self).received().is_prefix_of(final(self).received()),
            delivered(
                *old(processor),
                final(self).received().skip(old(self).received().len() as int),
                *final(processor),
            ),
            final(self).published() == old(self).published(),
            final(self).capacity() == old(self).capacity(),
    {
        let pending: usize = self.from_proxy.len();
        let ghost before = self.received();
        let ghost mut messages: Seq<ProxyMessage> = Seq::empty();
        let mut taken: usize = 0;
        let mut more: bool = true;
        while more && taken < pending
            invariant
                taken <= pending,
                self.to_proxy == old(self).to_proxy,
                self.received() == before + messages,
                delivered(*old(processor), messages, *processor),
            decreases pending - taken + (if more { 1int } else { 0int }),
        {
            match pop_message(&mut self.from_proxy) {
                Some(message) => {
                    let ghost mid = *processor;
                    dispatch(processor, message);
                    proof {
                        assert(messages.push(message).drop_last() =~= messages);
                        assert(before + messages.push(message) =~= (before + messages).push(
                            message,
                        ));
                        messages = messages.push(message);
                        assert(dispatched(&mid, messages.last(), &*processor));
                    }
                    taken += 1;
                },
                None => {
                    more = false;
                },
            }
        }
        assert((before + messages).skip(before.len() as int) =~= messages);
        assert((before + messages).subrange(0, before.len() as int) =~= before);
    }

    /// Sends a parameter update to proxy. On a full ring the update is
    /// dropped.
    pub fn update_parameter(&mut self, id: ParameterId, value: ParameterValue)
        ensures
            offered_one(
                old(self).published(),
                ProcessorMessage::UpdateParameter(id, value),
                final(self).published(),
            ),
            final(self).received() == old(self).received(),
            final(self).capacity() == old(self).capacity(),
    {
        let _ = push_update(&mut self.to_proxy, ProcessorMessage::UpdateParameter(id, value));
    }
}

} // verus!
