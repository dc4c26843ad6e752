//! The controller numbers that carry a parameter-number message.
use vstd::prelude::*;

verus! {

/// Data entry, most significant half: the upper seven bits of the value, or
/// the whole value where it has seven bits only.
pub const DATA_ENTRY_MSB: u8 = 6;

/// Data entry, least significant half: the lower seven bits of the value.
pub const DATA_ENTRY_MSB_LSB: u8 = 38;

/// The lower seven bits of a non-registered parameter number.
pub const NON_REGISTERED_PARAMETER_NUMBER_LSB: u8 = 98;

/// The upper seven bits of a non-registered parameter number.
pub const NON_REGISTERED_PARAMETER_NUMBER_MSB: u8 = 99;

/// The lower seven bits of a registered parameter number.
pub const REGISTERED_PARAMETER_NUMBER_LSB: u8 = 100;

/// The upper seven bits of a registered parameter number.
pub const REGISTERED_PARAMETER_NUMBER_MSB: u8 = 101;

} // verus!
