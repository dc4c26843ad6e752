//! A control-change message with a 14-bit value.
use vstd::prelude::*;
use crate::numbers::{Channel, ControllerNumber, U14};

verus! {

/// The mathematical content of a [`Midi14BitControlChangeMessage`].
pub struct Midi14BitControlChangeMessageView {
    pub channel: nat,
    pub msb_controller_number: nat,
    pub value: nat,
}

impl Midi14BitControlChangeMessageView {
    /// The controller that carried the least significant half: always 32
    /// above the one that carried the most significant half.
    pub open spec fn lsb_controller_number(self) -> nat {
        self.msb_controller_number + 32
    }

    /// Whether each number is in the range of its kind: the channel below 16,
    /// the controller of the most significant half at most 31, the value at
    /// most 16383.
    pub open spec fn is_valid(self) -> bool {
        &&& self.channel < 16
        &&& self.msb_controller_number <= 31
        &&& self.value <= 16383
    }
}

/// A 14-bit value for one of the controllers 0 to 31 on one channel.
///
/// On the wire it is two control-change messages: the upper seven bits on
/// the controller itself, the lower seven on the controller 32 above it.
#[derive(Clone, Copy, PartialEq, Eq, Debug, Hash)]
pub struct Midi14BitControlChangeMessage {
    channel: Channel,
    msb_controller_number: ControllerNumber,
    value: U14,
}

impl View for Midi14BitControlChangeMessage {
    type V = Midi14BitControlChangeMessageView;

    closed spec fn view(&self) -> Midi14BitControlChangeMessageView {
        Midi14BitControlChangeMessageView {
            channel: self.channel@,
            msb_controller_number: self.msb_controller_number@,
            value: self.value@,
        }
    }
}

impl Midi14BitControlChangeMessage {
    /// Every message is valid.
    #[verifier::type_invariant]
    pub open spec fn is_valid(self) -> bool {
        self@.is_valid()
    }

    /// The message that sets `msb_controller_number`, which must be one of the
    /// controllers 0 to 31, to `value` on `channel`.
    pub fn new(channel: Channel, msb_controller_number: ControllerNumber, value: U14) -> (r:
        Midi14BitControlChangeMessage)
        requires
            msb_controller_number@ <= 31,
        ensures
            r@ == (Midi14BitControlChangeMessageView {
                channel: channel@,
                msb_controller_number: msb_controller_number@,
                value: value@,
            }),
    {
        proof {
            use_type_invariant(channel);
            use_type_invariant(value);
        }
        Midi14BitControlChangeMessage { channel, msb_controller_number, value }
    }

    /// The channel.
    pub fn get_channel(&self) -> (r: Channel)
        ensures
            r@ == self@.channel,
    {
        self.channel
    }

    /// The controller that carries the most significant half.
    pub fn get_msb_controller_number(&self) -> (r: ControllerNumber)
        ensures
            r@ == self@.msb_controller_number,
    {
        self.msb_controller_number
    }

    /// The controller that carries the least significant half.
    pub fn get_lsb_controller_number(&self) -> (r: ControllerNumber)
        ensures
            r@ == self@.lsb_controller_number(),
    {
        proof {
            use_type_invariant(self);
        }
        self.msb_controller_number.corresponding_14_bit_lsb().unwrap()
    }

    /// The 14-bit value.
    pub fn get_value(&self) -> (r: U14)
        ensures
            r@ == self@.value,
    {
        self.value
    }
}

} // verus!
