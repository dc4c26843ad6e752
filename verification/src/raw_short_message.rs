//! A short message as its three bytes.
use vstd::prelude::*;
use crate::bit_util::{build_14_bit_value_from_two_7_bit_values, join_7_bit_halves};
use crate::numbers::{Channel, ControllerNumber, KeyNumber, U7};
use crate::short_message::{ShortMessage, ShortMessageFactory};
use crate::structured_short_message::{StructuredShortMessage, StructuredShortMessageView};

verus! {

/// What the three bytes of a short message say.
///
/// The upper four bits of the status byte give the kind, and for the seven
/// channel messages (kinds 8 to 14) the lower four bits give the channel.
/// Program change and channel pressure use the first data byte only. A pitch
/// bend value has its lower half in the first data byte and its upper half in
/// the second. Every other status byte is a system message.
pub open spec fn structured_from_bytes(
    status_byte: nat,
    data_byte_1: nat,
    data_byte_2: nat,
) -> StructuredShortMessageView {
    let kind = status_byte / 16;
    let channel = status_byte % 16;
    if kind == 8 {
        StructuredShortMessageView::NoteOff {
            channel,
            key_number: data_byte_1,
            velocity: data_byte_2,
        }
    } else if kind == 9 {
        StructuredShortMessageView::NoteOn {
            channel,
            key_number: data_byte_1,
            velocity: data_byte_2,
        }
    } else if kind == 10 {
        StructuredShortMessageView::PolyphonicKeyPressure {
            channel,
            key_number: data_byte_1,
            pressure_amount: data_byte_2,
        }
    } else if kind == 11 {
        StructuredShortMessageView::ControlChange {
            channel,
            controller_number: data_byte_1,
            control_value: data_byte_2,
        }
    } else if kind == 12 {
        StructuredShortMessageView::ProgramChange { channel, program_number: data_byte_1 }
    } else if kind == 13 {
        StructuredShortMessageView::ChannelPressure { channel, pressure_amount: data_byte_1 }
    } else if kind == 14 {
        StructuredShortMessageView::PitchBendChange {
            channel,
            pitch_bend_value: join_7_bit_halves(data_byte_2, data_byte_1),
        }
    } else {
        StructuredShortMessageView::System { status_byte, data_byte_1, data_byte_2 }
    }
}

/// A short message as it travels: a status byte, which is at least 128, and
/// two data bytes.
#[derive(Clone, Copy, PartialEq, Eq, Debug, Hash)]
pub struct RawShortMessage {
    status_byte: u8,
    data_byte_1: U7,
    data_byte_2: U7,
}

impl RawShortMessage {
    /// The status byte, as a number.
    pub closed spec fn spec_status_byte(self) -> nat {
        self.status_byte as nat
    }

    /// The first data byte, as a number.
    pub closed spec fn spec_data_byte_1(self) -> nat {
        self.data_byte_1@
    }

    /// The second data byte, as a number.
    pub closed spec fn spec_data_byte_2(self) -> nat {
        self.data_byte_2@
    }

    /// A status byte has its top bit set.
    #[verifier::type_invariant]
    pub open spec fn has_status_byte(self) -> bool {
        128 <= self.spec_status_byte() <= 255
    }

    /// The message with these three bytes, or `None` if `status_byte` is
    /// below 128 and so is no status byte.
    pub fn from_bytes(status_byte: u8, data_byte_1: U7, data_byte_2: U7) -> (r: Option<
        RawShortMessage,
    >)
        ensures
            r is Some <==> status_byte >= 128,
            r matches Some(msg) ==> msg.spec_status_byte() == status_byte
                && msg.spec_data_byte_1() == data_byte_1@ && msg.spec_data_byte_2()
                == data_byte_2@,
    {
        if status_byte >= 128 {
            Some(RawShortMessage { status_byte, data_byte_1, data_byte_2 })
        } else {
            None
        }
    }

    /// The note-on message for `key_number` with `velocity` on `channel`.
    pub fn note_on(channel: Channel, key_number: KeyNumber, velocity: U7) -> (r: RawShortMessage)
        ensures
            r.structured() == (StructuredShortMessageView::NoteOn {
                channel: channel@,
                key_number: key_number@,
                velocity: velocity@,
            }),
    {
        let c: u8 = channel.get();
        let status_byte: u8 = 0x90 | c;
        assert(status_byte / 16 == 9 && status_byte % 16 == c && status_byte >= 128)
            by (bit_vector)
            requires
                c < 16,
                status_byte == 0x90 | c,
        ;
        RawShortMessage { status_byte, data_byte_1: U7::new(key_number.get()), data_byte_2: velocity }
    }

    /// The status byte.
    pub fn status_byte(&self) -> (r: u8)
        ensures
            r == self.spec_status_byte(),
            r >= 128,
    {
        proof {
            use_type_invariant(self);
        }
        self.status_byte
    }

    /// The first data byte.
    pub fn data_byte_1(&self) -> (r: U7)
        ensures
            r@ == self.spec_data_byte_1(),
    {
        self.data_byte_1
    }

    /// The second data byte.
    pub fn data_byte_2(&self) -> (r: U7)
        ensures
            r@ == self.spec_data_byte_2(),
    {
        self.data_byte_2
    }
}

impl ShortMessage for RawShortMessage {
    open spec fn structured(&self) -> StructuredShortMessageView {
        structured_from_bytes(
            self.spec_status_byte(),
            self.spec_data_byte_1(),
            self.spec_data_byte_2(),
        )
    }

    fn to_structured(&self) -> (r: StructuredShortMessage) {
        let status_byte: u8 = self.status_byte;
        let kind: u8 = status_byte >> 4;
        let c: u8 = status_byte & 0x0f;
        assert(kind == status_byte / 16 && c == status_byte % 16 && c < 16) by (bit_vector)
            requires
                kind == status_byte >> 4,
                c == status_byte & 0x0f,
        ;
        let channel = Channel::new(c);
        let data_byte_1 = self.data_byte_1;
        let data_byte_2 = self.data_byte_2;
        if kind == 8 {
            StructuredShortMessage::NoteOff {
                channel,
                key_number: KeyNumber::new(data_byte_1.get()),
                velocity: data_byte_2,
            }
        } else if kind == 9 {
            StructuredShortMessage::NoteOn {
                channel,
                key_number: KeyNumber::new(data_byte_1.get()),
                velocity: data_byte_2,
            }
        } else if kind == 10 {
            StructuredShortMessage::PolyphonicKeyPressure {
                channel,
                key_number: KeyNumber::new(data_byte_1.get()),
                pressure_amount: data_byte_2,
            }
        } else if kind == 11 {
            StructuredShortMessage::ControlChange {
                channel,
                controller_number: ControllerNumber::new(data_byte_1.get()),
                control_value: data_byte_2,
            }
        } else if kind == 12 {
            StructuredShortMessage::ProgramChange { channel, program_number: data_byte_1 }
        } else if kind == 13 {
            StructuredShortMessage::ChannelPressure { channel, pressure_amount: data_byte_1 }
        } else if kind == 14 {
            StructuredShortMessage::PitchBendChange {
                channel,
                pitch_bend_value: build_14_bit_value_from_two_7_bit_values(
                    data_byte_2,
                    data_byte_1,
                ),
            }
        } else {
            StructuredShortMessage::System { status_byte, data_byte_1, data_byte_2 }
        }
    }

    fn channel(&self) -> (r: Option<Channel>) {
        let status_byte: u8 = self.status_byte;
        proof {
            use_type_invariant(self);
        }
        if status_byte < 0xf0 {
            let c: u8 = status_byte & 0x0f;
            assert(c == status_byte % 16 && c < 16 && 8 <= status_byte / 16 <= 14)
                by (bit_vector)
                requires
                    128 <= status_byte < 0xf0,
                    c == status_byte & 0x0f,
            ;
            Some(Channel::new(c))
        } else {
            assert(status_byte / 16 == 15) by (bit_vector)
                requires
                    status_byte >= 0xf0,
            ;
            None
        }
    }
}

impl ShortMessageFactory for RawShortMessage {
    fn control_change(
        channel: Channel,
        controller_number: ControllerNumber,
        control_value: U7,
    ) -> (r: Self) {
        let c: u8 = channel.get();
        let status_byte: u8 = 0xb0 | c;
        assert(status_byte / 16 == 11 && status_byte % 16 == c && status_byte >= 128)
            by (bit_vector)
            requires
                c < 16,
                status_byte == 0xb0 | c,
        ;
        RawShortMessage {
            status_byte,
            data_byte_1: U7::new(controller_number.get()),
            data_byte_2: control_value,
        }
    }
}

} // verus!
