use crate::base::processor_proxy;
use crate::base::{
    AudioProcessor, FloatBits, MidiMessage, MidiReceiver, Parameter, ParameterId, ParameterValue,
    ProcessorMessage, ProcessorProxySource, ProxyMessage, ProxySender,
};
use ringbuf::Consumer;
use vstd::prelude::*;

verus! {

/// Number of messages that each ring of a host can hold.
pub const MESSAGE_BUFFER_SIZE: usize = 256;

/// Audio processor wrapper for the audio callback, handling thread
/// synchronization: it owns the processor and the audio side of the message
/// rings.
///
/// One block of audio is rendered in three steps: [`Self::handle_messages`],
/// then the rendering itself on [`Self::processor_mut`], then
/// [`Self::update_proxy`].
pub struct CpalProcessor<P: AudioProcessor> {
    /// Wrapped audio processor.
    processor: P,
    /// Proxy source, communicates with proxy objects.
    proxy_source: ProcessorProxySource,
}

impl<P: AudioProcessor> CpalProcessor<P> {
    /// The wrapped audio processor.
    pub closed spec fn inner(&self) -> P {
        self.processor
    }

    /// The messages that the host has taken from the ring of the proxy so
    /// far, oldest first.
    pub closed spec fn received(&self) -> Seq<ProxyMessage> {
        self.proxy_source.received()
    }

    /// The updates that the ring to the proxy has accepted from the host so
    /// far, oldest first.
    pub closed spec fn published(&self) -> Seq<ProcessorMessage> {
        self.proxy_source.published()
    }

    /// The number of updates that the ring to the proxy was made for.
    pub closed spec fn capacity(&self) -> usize {
        self.proxy_source.capacity()
    }

    /// Creates new host for a processor, together with the far ends of its
    /// rings: the sender that reaches the processor, and the ring on which
    /// its parameter values arrive. Both rings are made for
    /// [`MESSAGE_BUFFER_SIZE`] messages. The updates of the parameters that
    /// the processor lists are offered to the proxy at once; nothing else has
    /// passed through the rings.
    pub fn new(processor: P) -> (ends: (Self, ProxySender, Consumer<ProcessorMessage>))
        ensures
            ends.0.inner() == processor,
            ends.0.capacity() == MESSAGE_BUFFER_SIZE,
            ends.0.received() == Seq::<ProxyMessage>::empty(),
            processor_proxy::offered(
                Seq::<ProcessorMessage>::empty(),
                Self::updates_of(processor),
                ends.0.published(),
            ),
            ends.1.capacity() == MESSAGE_BUFFER_SIZE,
            ends.1.sent() == Seq::<ProxyMessage>::empty(),
            processor_proxy::taken_updates(ends.2) == Seq::<ProcessorMessage>::empty(),
    {
        // Create proxy source and proxy.
        let (proxy_source, sender, from_source) = ProcessorProxySource::new(MESSAGE_BUFFER_SIZE);
        let mut host = CpalProcessor { processor, proxy_source };

        // Fetch initial data.
        host.update_proxy();

        (host, sender, from_source)
    }

    /// Hands the pending messages of the proxy to the wrapped processor,
    /// oldest first: the processor was then handed every message that the
    /// call took from the ring, in that order, and no other.
    pub fn handle_messages(&mut self)
        ensures
            old(self).received().is_prefix_of(final(self).received()),
            processor_proxy::delivered(
                old(self).inner(),
                final(self).received().skip(old(self).received().len() as int),
                final(self).inner(),
            ),
            final(self).published() == old(self).published(),
            final(self).capacity() == old(self).capacity(),
    {
        self.proxy_source.handle_messages(&mut self.processor);
    }

    /// Updates proxy (e.g. parameters might have changed during processing):
    /// offers to the ring the update of each parameter that the wrapped
    /// processor lists, see [`Self::updates_of`], in the order of the list.
    /// On a full ring an update is dropped. The processor itself is left as
    /// it is.
    pub fn update_proxy(&mut self)
        ensures
            final(self).inner() == old(self).inner(),
            processor_proxy::offered(
                old(self).published(),
                Self::updates_of(old(self).inner()),
                final(self).published(),
            ),
            final(self).received() == old(self).received(),
            final(self).capacity() == old(self).capacity(),
    {
        let count: usize = self.processor.list_parameters().len();
        let mut i: usize = 0;
        while i < count
            invariant
                i <= count == self.processor.parameters().len(),
                self.processor == old(self).processor,
                self.received() == old(self).received(),
                self.capacity() == old(self).capacity(),
                processor_proxy::offered(
                    old(self).published(),
                    Self::updates_upto(self.processor, i as int),
                    self.published(),
                ),
            decreases count - i,
        {
            let ghost before = self.published();
            match self.parameter_update(i) {
                Some(ProcessorMessage::UpdateParameter(id, value)) => {
                    self.proxy_source.update_parameter(id, value);
                    proof {
                        let update = ProcessorMessage::UpdateParameter(id, value);
                        let next = Self::updates_upto(self.processor, i + 1);
                        assert(next.drop_last() =~= Self::updates_upto(self.processor, i as int));
                        assert(processor_proxy::offered_one(before, next.last(), self.published()));
                    }
                },
                None => {},
            }
            i += 1;
        }
    }

    /// The updates that a processor publishes for the first `count`
    /// parameters of its list, in the order of the list.
    pub open spec fn updates_upto(processor: P, count: int) -> Seq<ProcessorMessage>
        decreases count,
    {
        if count <= 0 {
            Seq::empty()
        } else {
            match Self::update_of(processor, count - 1) {
                Some(update) => Self::updates_upto(processor, count - 1).push(update),
                None => Self::updates_upto(processor, count - 1),
            }
        }
    }

    /// The updates that a processor publishes: one for each parameter of its
    /// list that it reports a value for, in the order of the list.
    pub open spec fn updates_of(processor: P) -> Seq<ProcessorMessage> {
        Self::updates_upto(processor, processor.parameters().len() as int)
    }

    /// The update that a processor publishes for the parameter at `index` of
    /// its list: the value that it reports for that parameter, under the
    /// parameter's identifier. There is none where the list has no such
    /// entry, or where the processor reports no value for the parameter.
    pub open spec fn update_of(processor: P, index: int) -> Option<ProcessorMessage> {
        if 0 <= index < processor.parameters().len() {
            match processor.parameter(processor.parameters()[index].id) {
                Some(value) => Some(
                    ProcessorMessage::UpdateParameter(processor.parameters()[index].id, value),
                ),
                None => None,
            }
        } else {
            None
        }
    }

    /// The update to publish for the parameter at `index` of the list of the
    /// wrapped processor, if there is one.
    pub fn parameter_update(&self, index: usize) -> (update: Option<ProcessorMessage>)
        ensures
            update == Self::update_of(self.inner(), index as int),
    {
        let list: &[Parameter] = self.processor.list_parameters();
        if index >= list.len() {
            return None;
        }
        let id: ParameterId = list[index].id;
        match self.processor.get_parameter(id) {
            Some(value) => Some(ProcessorMessage::UpdateParameter(id, value)),
            None => None,
        }
    }

    /// The wrapped audio processor.
    pub fn processor(&self) -> (processor: &P)
        ensures
            *processor == self.inner(),
    {
        &self.processor
    }

    /// The wrapped audio processor, for whoever renders with it.
    pub fn processor_mut(&mut self) -> (processor: &mut P)
        ensures
            *processor == old(self).inner(),
            *final(processor) == final(self).inner(),
    {
        &mut self.processor
    }
}

impl<P: AudioProcessor> AudioProcessor for CpalProcessor<P> {
    open spec fn parameter(&self, id: ParameterId) -> Option<ParameterValue> {
        self.inner().parameter(id)
    }

    open spec fn parameters(&self) -> Seq<Parameter> {
        self.inner().parameters()
    }

    open spec fn was_reset(
        &self,
        sample_rate: FloatBits,
        max_buffer_size: usize,
        after: &Self,
    ) -> bool {
        self.inner().was_reset(sample_rate, max_buffer_size, &after.inner())
    }

    open spec fn layout_set(
        &self,
        input_channels: u16,
        output_channels: u16,
        after: &Self,
    ) -> bool {
        self.inner().layout_set(input_channels, output_channels, &after.inner())
    }

    open spec fn parameter_set(
        &self,
        id: ParameterId,
        value: ParameterValue,
        after: &Self,
    ) -> bool {
        self.inner().parameter_set(id, value, &after.inner())
    }

    fn get_parameter(&self, id: ParameterId) -> (value: Option<ParameterValue>) {
        self.processor.get_parameter(id)
    }

    fn list_parameters(&self) -> (list: &[Parameter]) {
        self.processor.list_parameters()
    }

    fn reset(&mut self, sample_rate: FloatBits, max_buffer_size: usize) {
        self.processor.reset(sample_rate, max_buffer_size);
    }

    fn set_channel_layout(&mut self, input_channels: u16, output_channels: u16) {
        self.processor.set_channel_layout(input_channels, output_channels);
    }

    fn set_parameter(&mut self, id: ParameterId, value: ParameterValue) {
        self.processor.set_parameter(id, value);
    }
}

impl<P: AudioProcessor> MidiReceiver for CpalProcessor<P> {
    open spec fn handled(&self, message: MidiMessage, after: &Self) -> bool {
        self.inner().handled(message, &after.inner())
    }

    fn handle_midi_message(&mut self, message: MidiMessage) {
        self.processor.handle_midi_message(message);
    }
}

} // verus!
