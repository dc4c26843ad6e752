//! A short message taken apart into its kind and its fields.
use vstd::prelude::*;
use crate::numbers::{Channel, ControllerNumber, KeyNumber, U14, U7};

verus! {

/// A short MIDI message by kind, with the fields of that kind.
///
/// The seven channel messages each name their channel. A system message has
/// no channel and is kept as its three bytes.
#[derive(Clone, Copy, PartialEq, Eq, Debug, Hash)]
pub enum StructuredShortMessage {
    NoteOff { channel: Channel, key_number: KeyNumber, velocity: U7 },
    NoteOn { channel: Channel, key_number: KeyNumber, velocity: U7 },
    PolyphonicKeyPressure { channel: Channel, key_number: KeyNumber, pressure_amount: U7 },
    ControlChange { channel: Channel, controller_number: ControllerNumber, control_value: U7 },
    ProgramChange { channel: Channel, program_number: U7 },
    ChannelPressure { channel: Channel, pressure_amount: U7 },
    PitchBendChange { channel: Channel, pitch_bend_value: U14 },
    System { status_byte: u8, data_byte_1: U7, data_byte_2: U7 },
}

/// The mathematical content of a [`StructuredShortMessage`]: the same kinds,
/// with plain numbers as fields.
pub enum StructuredShortMessageView {
    NoteOff { channel: nat, key_number: nat, velocity: nat },
    NoteOn { channel: nat, key_number: nat, velocity: nat },
    PolyphonicKeyPressure { channel: nat, key_number: nat, pressure_amount: nat },
    ControlChange { channel: nat, controller_number: nat, control_value: nat },
    ProgramChange { channel: nat, program_number: nat },
    ChannelPressure { channel: nat, pressure_amount: nat },
    PitchBendChange { channel: nat, pitch_bend_value: nat },
    System { status_byte: nat, data_byte_1: nat, data_byte_2: nat },
}

impl View for StructuredShortMessage {
    type V = StructuredShortMessageView;

    open spec fn view(&self) -> StructuredShortMessageView {
        match *self {
            StructuredShortMessage::NoteOff { channel, key_number, velocity } => {
                StructuredShortMessageView::NoteOff {
                    channel: channel@,
                    key_number: key_number@,
                    velocity: velocity@,
                }
            },
            StructuredShortMessage::NoteOn { channel, key_number, velocity } => {
                StructuredShortMessageView::NoteOn {
                    channel: channel@,
                    key_number: key_number@,
                    velocity: velocity@,
                }
            },
            StructuredShortMessage::PolyphonicKeyPressure {
                channel,
                key_number,
                pressure_amount,
            } => StructuredShortMessageView::PolyphonicKeyPressure {
                channel: channel@,
                key_number: key_number@,
                pressure_amount: pressure_amount@,
            },
            StructuredShortMessage::ControlChange {
                channel,
                controller_number,
                control_value,
            } => StructuredShortMessageView::ControlChange {
                channel: channel@,
                controller_number: controller_number@,
                control_value: control_value@,
            },
            StructuredShortMessage::ProgramChange { channel, program_number } => {
                StructuredShortMessageView::ProgramChange {
                    channel: channel@,
                    program_number: program_number@,
                }
            },
            StructuredShortMessage::ChannelPressure { channel, pressure_amount } => {
                StructuredShortMessageView::ChannelPressure {
                    channel: channel@,
                    pressure_amount: pressure_amount@,
                }
            },
            StructuredShortMessage::PitchBendChange { channel, pitch_bend_value } => {
                StructuredShortMessageView::PitchBendChange {
                    channel: channel@,
                    pitch_bend_value: pitch_bend_value@,
                }
            },
            StructuredShortMessage::System { status_byte, data_byte_1, data_byte_2 } => {
                StructuredShortMessageView::System {
                    status_byte: status_byte as nat,
                    data_byte_1: data_byte_1@,
                    data_byte_2: data_byte_2@,
                }
            },
        }
    }
}

impl StructuredShortMessageView {
    /// The channel that the message is sent on; a system message has none.
    pub open spec fn channel(self) -> Option<nat> {
        match self {
            StructuredShortMessageView::NoteOff { channel, .. } => Some(channel),
            StructuredShortMessageView::NoteOn { channel, .. } => Some(channel),
            StructuredShortMessageView::PolyphonicKeyPressure { channel, .. } => Some(channel),
            StructuredShortMessageView::ControlChange { channel, .. } => Some(channel),
            StructuredShortMessageView::ProgramChange { channel, .. } => Some(channel),
            StructuredShortMessageView::ChannelPressure { channel, .. } => Some(channel),
            StructuredShortMessageView::PitchBendChange { channel, .. } => Some(channel),
            StructuredShortMessageView::System { .. } => None,
        }
    }

    /// Whether the message names one of the 16 channels or none at all.
    pub open spec fn channel_in_range(self) -> bool {
        match self.channel() {
            Some(channel) => channel < 16,
            None => true,
        }
    }
}

/// The messages of `msgs` that are sent on `channel`, in their order.
pub open spec fn on_channel(msgs: Seq<StructuredShortMessageView>, channel: nat) -> Seq<
    StructuredShortMessageView,
> {
    msgs.filter(|msg: StructuredShortMessageView| msg.channel() == Some(channel))
}

} // verus!
