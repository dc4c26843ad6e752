//! Parameter-number messages, and the control-change messages that carry
//! them.
use vstd::prelude::*;
use crate::bit_util::{
    extract_high_7_bit_value_from_14_bit_value,
    extract_low_7_bit_value_from_14_bit_value,
    high_7_bits,
    low_7_bits,
};
use crate::controller_numbers::{
    DATA_ENTRY_MSB,
    DATA_ENTRY_MSB_LSB,
    NON_REGISTERED_PARAMETER_NUMBER_LSB,
    NON_REGISTERED_PARAMETER_NUMBER_MSB,
    REGISTERED_PARAMETER_NUMBER_LSB,
    REGISTERED_PARAMETER_NUMBER_MSB,
};
use crate::numbers::{Channel, ControllerNumber, U14, U7};
use crate::short_message::{structured_of, ShortMessageFactory};
use crate::structured_short_message::StructuredShortMessageView;

verus! {

/// The mathematical content of a [`ParameterNumberMessage`].
pub struct ParameterNumberMessageView {
    pub channel: nat,
    pub number: nat,
    pub value: nat,
    pub is_registered: bool,
    pub is_14_bit: bool,
}

impl ParameterNumberMessageView {
    /// Whether each number is in the range of its kind: the channel below 16,
    /// the parameter number at most 16383, and the value at most 16383 where
    /// it has 14 bits and at most 127 where it has seven.
    pub open spec fn is_valid(self) -> bool {
        &&& self.channel < 16
        &&& self.number <= 16383
        &&& self.value <= (if self.is_14_bit {
            16383nat
        } else {
            127nat
        })
    }

    /// The control-change message on this message's channel that sets
    /// `controller_number` to `control_value`.
    pub open spec fn control_change(
        self,
        controller_number: nat,
        control_value: nat,
    ) -> StructuredShortMessageView {
        StructuredShortMessageView::ControlChange {
            channel: self.channel,
            controller_number,
            control_value,
        }
    }

    /// The upper seven bits of the parameter number, on controller 101 for a
    /// registered and 99 for a non-registered number.
    pub open spec fn number_msb_message(self) -> StructuredShortMessageView {
        self.control_change(
            if self.is_registered {
                REGISTERED_PARAMETER_NUMBER_MSB as nat
            } else {
                NON_REGISTERED_PARAMETER_NUMBER_MSB as nat
            },
            high_7_bits(self.number),
        )
    }

    /// The lower seven bits of the parameter number, on controller 100 for a
    /// registered and 98 for a non-registered number.
    pub open spec fn number_lsb_message(self) -> StructuredShortMessageView {
        self.control_change(
            if self.is_registered {
                REGISTERED_PARAMETER_NUMBER_LSB as nat
            } else {
                NON_REGISTERED_PARAMETER_NUMBER_LSB as nat
            },
            low_7_bits(self.number),
        )
    }

    /// The lower seven bits of the value, on controller 38. Only a message
    /// with a 14-bit value sends it.
    pub open spec fn value_lsb_message(self) -> StructuredShortMessageView {
        self.control_change(DATA_ENTRY_MSB_LSB as nat, low_7_bits(self.value))
    }

    /// On controller 6, the upper seven bits of a 14-bit value, or a 7-bit
    /// value as it is.
    pub open spec fn value_msb_message(self) -> StructuredShortMessageView {
        self.control_change(
            DATA_ENTRY_MSB as nat,
            if self.is_14_bit {
                high_7_bits(self.value)
            } else {
                self.value
            },
        )
    }

    /// The control-change messages that carry this message, in the order in
    /// which they are sent: the two halves of the number, most significant
    /// first; then, for a 14-bit value only, its least significant half; then
    /// the value's most significant half. That makes four messages for a
    /// 14-bit value and three for a 7-bit value.
    pub open spec fn short_messages(self) -> Seq<StructuredShortMessageView> {
        if self.is_14_bit {
            seq![
                self.number_msb_message(),
                self.number_lsb_message(),
                self.value_lsb_message(),
                self.value_msb_message(),
            ]
        } else {
            seq![self.number_msb_message(), self.number_lsb_message(), self.value_msb_message()]
        }
    }

    /// What stands in slot `i` of the four slots that
    /// [`ParameterNumberMessage::to_short_messages`] fills: the messages of
    /// [`Self::short_messages`] from the first slot on, and nothing after
    /// them.
    pub open spec fn short_message_slot(self, i: int) -> Option<StructuredShortMessageView> {
        if 0 <= i < self.short_messages().len() {
            Some(self.short_messages()[i])
        } else {
            None
        }
    }
}

/// A parameter-number message, registered (RPN) or non-registered (NRPN): it
/// sets a parameter, named by a 14-bit number, to a value of 7 or 14 bits.
#[derive(Clone, Copy, PartialEq, Eq, Hash, Debug)]
pub struct ParameterNumberMessage {
    channel: Channel,
    number: U14,
    value: U14,
    is_registered: bool,
    is_14_bit: bool,
}

impl View for ParameterNumberMessage {
    type V = ParameterNumberMessageView;

    closed spec fn view(&self) -> ParameterNumberMessageView {
        ParameterNumberMessageView {
            channel: self.channel@,
            number: self.number@,
            value: self.value@,
            is_registered: self.is_registered,
            is_14_bit: self.is_14_bit,
        }
    }
}

impl ParameterNumberMessage {
    /// Every message is valid: in particular a 7-bit value is at most 127.
    #[verifier::type_invariant]
    pub open spec fn is_valid(self) -> bool {
        self@.is_valid()
    }

    /// A non-registered parameter-number message with a 7-bit value.
    pub fn non_registered_7_bit(channel: Channel, number: U14, value: U7) -> (r:
        ParameterNumberMessage)
        ensures
            r@ == (ParameterNumberMessageView {
                channel: channel@,
                number: number@,
                value: value@,
                is_registered: false,
                is_14_bit: false,
            }),
    {
        Self::seven_bit(channel, number, value, false)
    }

    /// A non-registered parameter-number message with a 14-bit value.
    pub fn non_registered_14_bit(channel: Channel, number: U14, value: U14) -> (r:
        ParameterNumberMessage)
        ensures
            r@ == (ParameterNumberMessageView {
                channel: channel@,
                number: number@,
                value: value@,
                is_registered: false,
                is_14_bit: true,
            }),
    {
        Self::fourteen_bit(channel, number, value, false)
    }

    /// A registered parameter-number message with a 7-bit value.
    pub fn registered_7_bit(channel: Channel, number: U14, value: U7) -> (r:
        ParameterNumberMessage)
        ensures
            r@ == (ParameterNumberMessageView {
                channel: channel@,
                number: number@,
                value: value@,
                is_registered: true,
                is_14_bit: false,
            }),
    {
        Self::seven_bit(channel, number, value, true)
    }

    /// A registered parameter-number message with a 14-bit value.
    pub fn registered_14_bit(channel: Channel, number: U14, value: U14) -> (r:
        ParameterNumberMessage)
        ensures
            r@ == (ParameterNumberMessageView {
                channel: channel@,
                number: number@,
                value: value@,
                is_registered: true,
                is_14_bit: true,
            }),
    {
        Self::fourteen_bit(channel, number, value, true)
    }

    /// A message with a 7-bit value.
    fn seven_bit(channel: Channel, number: U14, value: U7, is_registered: bool) -> (r:
        ParameterNumberMessage)
        ensures
            r@ == (ParameterNumberMessageView {
                channel: channel@,
                number: number@,
                value: value@,
                is_registered,
                is_14_bit: false,
            }),
    {
        proof {
            use_type_invariant(channel);
            use_type_invariant(number);
        }
        ParameterNumberMessage {
            channel,
            number,
            value: U14::new(value.get() as u16),
            is_registered,
            is_14_bit: false,
        }
    }

    /// A message with a 14-bit value.
    fn fourteen_bit(channel: Channel, number: U14, value: U14, is_registered: bool) -> (r:
        ParameterNumberMessage)
        ensures
            r@ == (ParameterNumberMessageView {
                channel: channel@,
                number: number@,
                value: value@,
                is_registered,
                is_14_bit: true,
            }),
    {
        proof {
            use_type_invariant(channel);
            use_type_invariant(number);
            use_type_invariant(value);
        }
        ParameterNumberMessage { channel, number, value, is_registered, is_14_bit: true }
    }

    /// The channel of this message.
    pub fn channel(&self) -> (r: Channel)
        ensures
            r@ == self@.channel,
    {
        self.channel
    }

    /// The number of the parameter.
    pub fn number(&self) -> (r: U14)
        ensures
            r@ == self@.number,
    {
        self.number
    }

    /// The value of the parameter. Where the message has a 7-bit value, it is
    /// at most 127.
    pub fn value(&self) -> (r: U14)
        ensures
            r@ == self@.value,
            !self@.is_14_bit ==> r@ <= 127,
    {
        proof {
            use_type_invariant(self);
        }
        self.value
    }

    /// Whether the value has 14 bits rather than seven.
    pub fn is_14_bit(&self) -> (r: bool)
        ensures
            r == self@.is_14_bit,
    {
        self.is_14_bit
    }

    /// Whether the parameter number is a registered one.
    pub fn is_registered(&self) -> (r: bool)
        ensures
            r == self@.is_registered,
    {
        self.is_registered
    }

    /// The control-change messages that carry this message, in the order in
    /// which they are to be sent, in four slots. A 14-bit value fills all
    /// four; a 7-bit value fills the first three and leaves the last empty.
    pub fn to_short_messages<T: ShortMessageFactory>(&self) -> (messages: [Option<T>; 4])
        ensures
            forall|i: int|
                0 <= i < 4 ==> structured_of(#[trigger] messages[i]) == self@.short_message_slot(
                    i,
                ),
    {
        proof {
            use_type_invariant(self);
        }
        let mut messages: [Option<T>; 4] = [None, None, None, None];
        let mut i: usize = 0;
        // Number MSB
        messages[i] = Some(
            T::control_change(
                self.channel,
                ControllerNumber::new(
                    if self.is_registered {
                        REGISTERED_PARAMETER_NUMBER_MSB
                    } else {
                        NON_REGISTERED_PARAMETER_NUMBER_MSB
                    },
                ),
                extract_high_7_bit_value_from_14_bit_value(self.number),
            ),
        );
        i += 1;
        // Number LSB
        messages[i] = Some(
            T::control_change(
                self.channel,
                ControllerNumber::new(
                    if self.is_registered {
                        REGISTERED_PARAMETER_NUMBER_LSB
                    } else {
                        NON_REGISTERED_PARAMETER_NUMBER_LSB
                    },
                ),
                extract_low_7_bit_value_from_14_bit_value(self.number),
            ),
        );
        i += 1;
        // Value LSB
        if self.is_14_bit {
            messages[i] = Some(
                T::control_change(
                    self.channel,
                    ControllerNumber::new(DATA_ENTRY_MSB_LSB),
                    extract_low_7_bit_value_from_14_bit_value(self.value),
                ),
            );
            i += 1;
        }
        // Value MSB
        messages[i] = Some(
            T::control_change(
                self.channel,
                ControllerNumber::new(DATA_ENTRY_MSB),
                if self.is_14_bit {
                    extract_high_7_bit_value_from_14_bit_value(self.value)
                } else {
                    U7::new(self.value.get() as u8)
                },
            ),
        );
        messages
    }
}

impl<T: ShortMessageFactory> From<ParameterNumberMessage> for [Option<T>; 4] {
    /// The same four slots as [`ParameterNumberMessage::to_short_messages`].
    fn from(msg: ParameterNumberMessage) -> (messages: Self)
        ensures
            forall|i: int|
                0 <= i < 4 ==> structured_of(#[trigger] messages[i]) == msg@.short_message_slot(i),
    {
        msg.to_short_messages()
    }
}

impl<T: ShortMessageFactory> vstd::std_specs::convert::FromSpecImpl<ParameterNumberMessage> for [Option<T>; 4] {
    /// The slots hold messages of any type that can build control changes, so
    /// no spec function says which array comes out: the `ensures` of `from`
    /// says what each slot holds.
    open spec fn obeys_from_spec() -> bool {
        false
    }

    open spec fn from_spec(msg: ParameterNumberMessage) -> Self {
        arbitrary()
    }
}

} // verus!
