//! The small bounded numbers that MIDI messages are made of.
//!
//! Each type wraps a primitive integer and carries its range as a type
//! invariant, so a value that exists in executable code is always in range.
//! The view of each is the number itself.
use vstd::prelude::*;

verus! {

/// One of the 16 MIDI channels, numbered 0 to 15.
#[derive(Clone, Copy, PartialEq, Eq, Debug, Hash)]
pub struct Channel {
    value: u8,
}

impl View for Channel {
    type V = nat;

    closed spec fn view(&self) -> nat {
        self.value as nat
    }
}

impl Channel {
    /// How many channels there are.
    pub const COUNT: u8 = 16;

    /// A channel number is below 16.
    #[verifier::type_invariant]
    pub open spec fn in_range(self) -> bool {
        self@ < 16
    }

    /// The channel with the given number, which must be below 16.
    pub fn new(value: u8) -> (r: Channel)
        requires
            value < 16,
        ensures
            r@ == value,
    {
        Channel { value }
    }

    /// The channel with the given number, or `None` if the number is not below 16.
    pub fn try_new(value: u8) -> (r: Option<Channel>)
        ensures
            option_view(r) == (if value < 16 {
                Some(value as nat)
            } else {
                None
            }),
    {
        if value < 16 {
            Some(Channel { value })
        } else {
            None
        }
    }

    /// The channel's number.
    pub fn get(self) -> (r: u8)
        ensures
            r == self@,
            r < 16,
    {
        proof {
            use_type_invariant(self);
        }
        self.value
    }
}

/// A 7-bit value, 0 to 127: what one MIDI data byte can carry.
#[derive(Clone, Copy, PartialEq, Eq, Debug, Hash)]
pub struct U7 {
    value: u8,
}

impl View for U7 {
    type V = nat;

    closed spec fn view(&self) -> nat {
        self.value as nat
    }
}

impl U7 {
    /// The largest 7-bit value.
    pub const MAX: u8 = 127;

    /// A 7-bit value is at most 127.
    #[verifier::type_invariant]
    pub open spec fn in_range(self) -> bool {
        self@ <= 127
    }

    /// Wraps `value`, which must be at most 127.
    pub fn new(value: u8) -> (r: U7)
        requires
            value <= 127,
        ensures
            r@ == value,
    {
        U7 { value }
    }

    /// Wraps `value`, or gives `None` if it is above 127.
    pub fn try_new(value: u8) -> (r: Option<U7>)
        ensures
            option_view(r) == (if value <= 127 {
                Some(value as nat)
            } else {
                None
            }),
    {
        if value <= 127 {
            Some(U7 { value })
        } else {
            None
        }
    }

    /// The wrapped number.
    pub fn get(self) -> (r: u8)
        ensures
            r == self@,
            r <= 127,
    {
        proof {
            use_type_invariant(self);
        }
        self.value
    }
}

/// A 14-bit value, 0 to 16383: two 7-bit halves put together.
#[derive(Clone, Copy, PartialEq, Eq, Debug, Hash)]
pub struct U14 {
    value: u16,
}

impl View for U14 {
    type V = nat;

    closed spec fn view(&self) -> nat {
        self.value as nat
    }
}

impl U14 {
    /// The largest 14-bit value.
    pub const MAX: u16 = 16383;

    /// A 14-bit value is at most 16383.
    #[verifier::type_invariant]
    pub open spec fn in_range(self) -> bool {
        self@ <= 16383
    }

    /// Wraps `value`, which must be at most 16383.
    pub fn new(value: u16) -> (r: U14)
        requires
            value <= 16383,
        ensures
            r@ == value,
    {
        U14 { value }
    }

    /// Wraps `value`, or gives `None` if it is above 16383.
    pub fn try_new(value: u16) -> (r: Option<U14>)
        ensures
            option_view(r) == (if value <= 16383 {
                Some(value as nat)
            } else {
                None
            }),
    {
        if value <= 16383 {
            Some(U14 { value })
        } else {
            None
        }
    }

    /// The wrapped number.
    pub fn get(self) -> (r: u16)
        ensures
            r == self@,
            r <= 16383,
    {
        proof {
            use_type_invariant(self);
        }
        self.value
    }
}

/// The number of a controller, 0 to 127: it says what the value of a
/// control-change message means.
#[derive(Clone, Copy, PartialEq, Eq, Debug, Hash)]
pub struct ControllerNumber {
    value: u8,
}

impl View for ControllerNumber {
    type V = nat;

    closed spec fn view(&self) -> nat {
        self.value as nat
    }
}

impl ControllerNumber {
    /// The largest controller number.
    pub const MAX: u8 = 127;

    /// A controller number is at most 127.
    #[verifier::type_invariant]
    pub open spec fn in_range(self) -> bool {
        self@ <= 127
    }

    /// The controller with the given number, which must be at most 127.
    pub fn new(value: u8) -> (r: ControllerNumber)
        requires
            value <= 127,
        ensures
            r@ == value,
    {
        ControllerNumber { value }
    }

    /// The controller with the given number, or `None` if the number is above 127.
    pub fn try_new(value: u8) -> (r: Option<ControllerNumber>)
        ensures
            option_view(r) == (if value <= 127 {
                Some(value as nat)
            } else {
                None
            }),
    {
        if value <= 127 {
            Some(ControllerNumber { value })
        } else {
            None
        }
    }

    /// The controller's number.
    pub fn get(self) -> (r: u8)
        ensures
            r == self@,
            r <= 127,
    {
        proof {
            use_type_invariant(self);
        }
        self.value
    }

    /// Whether this controller carries the most significant half of a 14-bit
    /// value: controllers 0 to 31 do.
    pub fn can_act_as_14_bit_msb(self) -> (r: bool)
        ensures
            r == (self@ <= 31),
    {
        self.value <= 31
    }

    /// Whether this controller carries the least significant half of a 14-bit
    /// value: controllers 32 to 63 do.
    pub fn can_act_as_14_bit_lsb(self) -> (r: bool)
        ensures
            r == (32 <= self@ <= 63),
    {
        32 <= self.value && self.value <= 63
    }

    /// The controller that carries the least significant half belonging to
    /// this one, which is 32 higher; `None` unless this controller is one of
    /// 0 to 31.
    pub fn corresponding_14_bit_lsb(self) -> (r: Option<ControllerNumber>)
        ensures
            option_view(r) == (if self@ <= 31 {
                Some(self@ + 32)
            } else {
                None
            }),
    {
        if self.value <= 31 {
            Some(ControllerNumber { value: self.value + 32 })
        } else {
            None
        }
    }
}

/// The number of a key, 0 to 127.
#[derive(Clone, Copy, PartialEq, Eq, Debug, Hash)]
pub struct KeyNumber {
    value: u8,
}

impl View for KeyNumber {
    type V = nat;

    closed spec fn view(&self) -> nat {
        self.value as nat
    }
}

impl KeyNumber {
    /// The largest key number.
    pub const MAX: u8 = 127;

    /// A key number is at most 127.
    #[verifier::type_invariant]
    pub open spec fn in_range(self) -> bool {
        self@ <= 127
    }

    /// The key with the given number, which must be at most 127.
    pub fn new(value: u8) -> (r: KeyNumber)
        requires
            value <= 127,
        ensures
            r@ == value,
    {
        KeyNumber { value }
    }

    /// The key with the given number, or `None` if the number is above 127.
    pub fn try_new(value: u8) -> (r: Option<KeyNumber>)
        ensures
            option_view(r) == (if value <= 127 {
                Some(value as nat)
            } else {
                None
            }),
    {
        if value <= 127 {
            Some(KeyNumber { value })
        } else {
            None
        }
    }

    /// The key's number.
    pub fn get(self) -> (r: u8)
        ensures
            r == self@,
            r <= 127,
    {
        proof {
            use_type_invariant(self);
        }
        self.value
    }
}

/// The view of an optional value: the view of what it holds, if anything.
pub open spec fn option_view<T: View>(o: Option<T>) -> Option<T::V> {
    match o {
        Some(t) => Some(t@),
        None => None,
    }
}

} // verus!
