use vstd::prelude::*;

verus! {

/// MIDI message type.
#[derive(Clone, Copy, Debug, PartialEq, Eq, Structural)]
pub enum MidiMessage {
    /// Control change: channel, control number, value.
    ControlChange(u8, u8, u8),
    /// Note off: channel, note number, velocity.
    NoteOff(u8, u8, u8),
    /// Note on: channel, note number, velocity.
    NoteOn(u8, u8, u8),
}

/// The three kinds of channel message that the engine understands.
#[derive(Clone, Copy, Debug, PartialEq, Eq, Structural)]
pub enum MidiKind {
    ControlChange,
    NoteOff,
    NoteOn,
}

impl MidiMessage {
    /// The kind that a status byte announces: the status bytes `0x80..=0x8F`
    /// are note-offs, `0x90..=0x9F` note-ons and `0xB0..=0xBF` control
    /// changes. Every other byte announces nothing the engine handles.
    pub open spec fn kind_of_status(status: u8) -> Option<MidiKind> {
        if 0x80 <= status <= 0x8F {
            Some(MidiKind::NoteOff)
        } else if 0x90 <= status <= 0x9F {
            Some(MidiKind::NoteOn)
        } else if 0xB0 <= status <= 0xBF {
            Some(MidiKind::ControlChange)
        } else {
            None
        }
    }

    /// The message that a sequence of raw bytes encodes, if any: exactly three
    /// bytes, the first a supported status byte whose low four bits are the
    /// channel, the other two carried over as they are.
    pub open spec fn parse(bytes: Seq<u8>) -> Option<MidiMessage> {
        if bytes.len() != 3 {
            None
        } else {
            let channel = (bytes[0] % 16) as u8;
            match Self::kind_of_status(bytes[0]) {
                Some(MidiKind::NoteOff) => Some(MidiMessage::NoteOff(channel, bytes[1], bytes[2])),
                Some(MidiKind::NoteOn) => Some(MidiMessage::NoteOn(channel, bytes[1], bytes[2])),
                Some(MidiKind::ControlChange) => Some(
                    MidiMessage::ControlChange(channel, bytes[1], bytes[2]),
                ),
                None => None,
            }
        }
    }

    /// The kind of this message.
    pub open spec fn kind(self) -> MidiKind {
        match self {
            MidiMessage::ControlChange(..) => MidiKind::ControlChange,
            MidiMessage::NoteOff(..) => MidiKind::NoteOff,
            MidiMessage::NoteOn(..) => MidiKind::NoteOn,
        }
    }

    /// Masking a status byte with `0xF0` selects its kind, and masking it with
    /// `0x0F` its channel.
    pub proof fn lemma_status_nibbles(status: u8)
        ensures
            (status & 0xF0 == 0x80) <==> Self::kind_of_status(status) == Some(MidiKind::NoteOff),
            (status & 0xF0 == 0x90) <==> Self::kind_of_status(status) == Some(MidiKind::NoteOn),
            (status & 0xF0 == 0xB0) <==> Self::kind_of_status(status) == Some(
                MidiKind::ControlChange,
            ),
            status & 0x0F == status % 16,
    {
        assert((status & 0xF0 == 0x80) <==> (0x80 <= status <= 0x8F)) by (bit_vector);
        assert((status & 0xF0 == 0x90) <==> (0x90 <= status <= 0x9F)) by (bit_vector);
        assert((status & 0xF0 == 0xB0) <==> (0xB0 <= status <= 0xBF)) by (bit_vector);
        assert(status & 0x0F == status % 16) by (bit_vector);
    }

    /// Three bytes whose status byte, masked with `0xF0`, is `0x80`, `0x90` or
    /// `0xB0` always parse, to a message of the kind that the mask names, on
    /// the channel in the low four bits, with both data bytes unchanged. Bytes
    /// of any other length, or with any other status, parse to nothing.
    pub proof fn lemma_parse_by_mask(bytes: Seq<u8>)
        ensures
            Self::parse(bytes) is Some <==> bytes.len() == 3 && (bytes[0] & 0xF0 == 0x80 || bytes[0]
                & 0xF0 == 0x90 || bytes[0] & 0xF0 == 0xB0),
            bytes.len() == 3 && bytes[0] & 0xF0 == 0x80 ==> Self::parse(bytes) == Some(
                MidiMessage::NoteOff(bytes[0] & 0x0F, bytes[1], bytes[2]),
            ),
            bytes.len() == 3 && bytes[0] & 0xF0 == 0x90 ==> Self::parse(bytes) == Some(
                MidiMessage::NoteOn(bytes[0] & 0x0F, bytes[1], bytes[2]),
            ),
            bytes.len() == 3 && bytes[0] & 0xF0 == 0xB0 ==> Self::parse(bytes) == Some(
                MidiMessage::ControlChange(bytes[0] & 0x0F, bytes[1], bytes[2]),
            ),
    {
        if bytes.len() == 3 {
            Self::lemma_status_nibbles(bytes[0]);
        }
    }

    /// Parses raw bytes to a MIDI message, returns [None] if unsupported.
    pub fn from_bytes(raw_bytes: &[u8]) -> (message: Option<MidiMessage>)
        ensures
            message == Self::parse(raw_bytes@),
            message is Some <==> raw_bytes@.len() == 3 && (raw_bytes@[0] & 0xF0 == 0x80
                || raw_bytes@[0] & 0xF0 == 0x90 || raw_bytes@[0] & 0xF0 == 0xB0),
            message matches Some(parsed) ==> parsed.kind() == match raw_bytes@[0] & 0xF0 {
                0x80 => MidiKind::NoteOff,
                0x90 => MidiKind::NoteOn,
                _ => MidiKind::ControlChange,
            },
    {
        if raw_bytes.len() != 3 {
            return None;
        }
        let status: u8 = raw_bytes[0];
        let data1: u8 = raw_bytes[1];
        let data2: u8 = raw_bytes[2];
        proof {
            Self::lemma_status_nibbles(status);
        }
        let kind: u8 = status & 0xF0;
        let channel: u8 = status & 0x0F;
        if kind == 0x80 {
            Some(MidiMessage::NoteOff(channel, data1, data2))
        } else if kind == 0x90 {
            Some(MidiMessage::NoteOn(channel, data1, data2))
        } else if kind == 0xB0 {
            Some(MidiMessage::ControlChange(channel, data1, data2))
        } else {
            None
        }
    }
}

} // verus!
