//! Scanners that put wide MIDI values together again.
//!
//! A MIDI control-change message carries seven bits. Two conventions send
//! more by spreading a value over several control-change messages in a row:
//! 14-bit control changes (two messages) and parameter-number messages,
//! registered or non-registered (three or four messages). This crate holds a
//! scanner for each, which watches a stream of short messages and hands out a
//! wide message whenever one is complete, and the encoder that turns a
//! parameter-number message back into its control-change messages.
//!
//! Every function is verified with Verus against a mathematical model of the
//! scanners, and the modules state and prove what holds of that model: that
//! the 16 channels do not disturb one another, that the scanner puts together
//! again what the encoder sends, and what a reset forgets.
pub mod bit_util;
pub mod controller_numbers;
pub mod midi_14_bit_control_change_message;
pub mod midi_14_bit_control_change_message_parser;
pub mod numbers;
pub mod parameter_number_message;
pub mod parameter_number_message_scanner;
pub mod raw_short_message;
pub mod short_message;
pub mod structured_short_message;

pub use bit_util::{
    build_14_bit_value_from_two_7_bit_values, extract_high_7_bit_value_from_14_bit_value,
    extract_low_7_bit_value_from_14_bit_value,
};
pub use midi_14_bit_control_change_message::Midi14BitControlChangeMessage;
pub use midi_14_bit_control_change_message_parser::Midi14BitControlChangeMessageParser;
pub use numbers::{Channel, ControllerNumber, KeyNumber, U14, U7};
pub use parameter_number_message::ParameterNumberMessage;
pub use parameter_number_message_scanner::ParameterNumberMessageScanner;
pub use raw_short_message::RawShortMessage;
pub use short_message::{ShortMessage, ShortMessageFactory};
pub use structured_short_message::StructuredShortMessage;
