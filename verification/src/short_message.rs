//! What the scanners ask of a message, and what the encoder asks of the
//! message type it builds.
use vstd::prelude::*;
use crate::numbers::{option_view, Channel, ControllerNumber, U7};
use crate::structured_short_message::{StructuredShortMessage, StructuredShortMessageView};

verus! {

/// A short MIDI message: anything that can tell its channel and take itself
/// apart into a [`StructuredShortMessage`].
pub trait ShortMessage {
    /// What the message says: its kind and fields, as plain numbers.
    spec fn structured(&self) -> StructuredShortMessageView;

    /// Takes the message apart.
    fn to_structured(&self) -> (r: StructuredShortMessage)
        ensures
            r@ == self.structured(),
    ;

    /// The channel that the message is sent on, if it has one.
    fn channel(&self) -> (r: Option<Channel>)
        ensures
            option_view(r) == self.structured().channel(),
    ;
}

/// A message type of which control-change messages can be built.
pub trait ShortMessageFactory: ShortMessage + Sized {
    /// The control-change message that sets `controller_number` to
    /// `control_value` on `channel`.
    fn control_change(
        channel: Channel,
        controller_number: ControllerNumber,
        control_value: U7,
    ) -> (r: Self)
        ensures
            r.structured() == (StructuredShortMessageView::ControlChange {
                channel: channel@,
                controller_number: controller_number@,
                control_value: control_value@,
            }),
    ;
}

/// What a short message says, if there is one.
pub open spec fn structured_of<T: ShortMessage>(msg: Option<T>) -> Option<
    StructuredShortMessageView,
> {
    match msg {
        Some(msg) => Some(msg.structured()),
        None => None,
    }
}

impl ShortMessage for StructuredShortMessage {
    open spec fn structured(&self) -> StructuredShortMessageView {
        self@
    }

    fn to_structured(&self) -> (r: StructuredShortMessage) {
        *self
    }

    fn channel(&self) -> (r: Option<Channel>) {
        match *self {
            StructuredShortMessage::NoteOff { channel, .. } => Some(channel),
            StructuredShortMessage::NoteOn { channel, .. } => Some(channel),
            StructuredShortMessage::PolyphonicKeyPressure { channel, .. } => Some(channel),
            StructuredShortMessage::ControlChange { channel, .. } => Some(channel),
            StructuredShortMessage::ProgramChange { channel, .. } => Some(channel),
            StructuredShortMessage::ChannelPressure { channel, .. } => Some(channel),
            StructuredShortMessage::PitchBendChange { channel, .. } => Some(channel),
            StructuredShortMessage::System { .. } => None,
        }
    }
}

impl ShortMessageFactory for StructuredShortMessage {
    fn control_change(
        channel: Channel,
        controller_number: ControllerNumber,
        control_value: U7,
    ) -> (r: Self) {
        StructuredShortMessage::ControlChange { channel, controller_number, control_value }
    }
}

} // verus!
