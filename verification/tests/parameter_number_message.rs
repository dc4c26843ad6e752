use midi_reassembly::{
    Channel, ControllerNumber, ParameterNumberMessage, ParameterNumberMessageScanner,
    RawShortMessage, ShortMessage, ShortMessageFactory, StructuredShortMessage, U14, U7,
};

fn ch(value: u8) -> Channel {
    Channel::try_new(value).unwrap()
}

fn cn(value: u8) -> ControllerNumber {
    ControllerNumber::try_new(value).unwrap()
}

fn u7(value: u8) -> U7 {
    U7::try_new(value).unwrap()
}

fn u14(value: u16) -> U14 {
    U14::try_new(value).unwrap()
}

#[test]
fn parameter_number_messages_14_bit() {
    // Given
    let msg = ParameterNumberMessage::registered_14_bit(ch(0), u14(420), u14(15000));
    // When
    // Then
    assert_eq!(msg.channel(), ch(0));
    assert_eq!(msg.number(), u14(420));
    assert_eq!(msg.value(), u14(15000));
    assert!(msg.is_14_bit());
    assert!(msg.is_registered());
    let short_msgs: [Option<RawShortMessage>; 4] = msg.to_short_messages();
    assert_eq!(
        short_msgs,
        [
            Some(RawShortMessage::control_change(ch(0), cn(101), u7(3))),
            Some(RawShortMessage::control_change(ch(0), cn(100), u7(36))),
            Some(RawShortMessage::control_change(ch(0), cn(38), u7(24))),
            Some(RawShortMessage::control_change(ch(0), cn(6), u7(117))),
        ]
    );
}

#[test]
#[should_panic]
fn parameter_number_messages_7_bit_panic() {
    ParameterNumberMessage::non_registered_7_bit(ch(0), u14(420), u7(255));
}

#[test]
fn parameter_number_messages_7_bit() {
    // Given
    let msg = ParameterNumberMessage::non_registered_7_bit(ch(2), u14(421), u7(126));
    // When
    // Then
    assert_eq!(msg.channel(), ch(2));
    assert_eq!(msg.number(), u14(421));
    assert_eq!(msg.value(), u14(126));
    assert!(!msg.is_14_bit());
    assert!(!msg.is_registered());
    let short_msgs: [Option<RawShortMessage>; 4] = msg.to_short_messages();
    assert_eq!(
        short_msgs,
        [
            Some(RawShortMessage::control_change(ch(2), cn(99), u7(3))),
            Some(RawShortMessage::control_change(ch(2), cn(98), u7(37))),
            Some(RawShortMessage::control_change(ch(2), cn(6), u7(126))),
            None,
        ]
    );
}

#[test]
fn parameter_number_messages_non_registered_14_bit() {
    let msg = ParameterNumberMessage::non_registered_14_bit(ch(15), u14(16383), u14(16383));
    assert_eq!(msg.channel(), ch(15));
    assert_eq!(msg.number(), u14(16383));
    assert_eq!(msg.value(), u14(16383));
    assert!(msg.is_14_bit());
    assert!(!msg.is_registered());
    let short_msgs: [Option<RawShortMessage>; 4] = msg.to_short_messages();
    assert_eq!(
        short_msgs,
        [
            Some(RawShortMessage::control_change(ch(15), cn(99), u7(127))),
            Some(RawShortMessage::control_change(ch(15), cn(98), u7(127))),
            Some(RawShortMessage::control_change(ch(15), cn(38), u7(127))),
            Some(RawShortMessage::control_change(ch(15), cn(6), u7(127))),
        ]
    );
}

#[test]
fn parameter_number_messages_registered_7_bit() {
    let msg = ParameterNumberMessage::registered_7_bit(ch(9), u14(0), u7(127));
    assert_eq!(msg.channel(), ch(9));
    assert_eq!(msg.number(), u14(0));
    assert_eq!(msg.value(), u14(127));
    assert!(!msg.is_14_bit());
    assert!(msg.is_registered());
    let short_msgs: [Option<RawShortMessage>; 4] = msg.to_short_messages();
    assert_eq!(
        short_msgs,
        [
            Some(RawShortMessage::control_change(ch(9), cn(101), u7(0))),
            Some(RawShortMessage::control_change(ch(9), cn(100), u7(0))),
            Some(RawShortMessage::control_change(ch(9), cn(6), u7(127))),
            None,
        ]
    );
}

#[test]
fn a_14_bit_message_with_a_small_value_still_sends_four_messages() {
    let msg = ParameterNumberMessage::registered_14_bit(ch(1), u14(128), u14(5));
    let short_msgs: [Option<RawShortMessage>; 4] = msg.to_short_messages();
    assert_eq!(
        short_msgs,
        [
            Some(RawShortMessage::control_change(ch(1), cn(101), u7(1))),
            Some(RawShortMessage::control_change(ch(1), cn(100), u7(0))),
            Some(RawShortMessage::control_change(ch(1), cn(38), u7(5))),
            Some(RawShortMessage::control_change(ch(1), cn(6), u7(0))),
        ]
    );
}

#[test]
fn short_messages_can_be_built_as_structured_messages() {
    let msg = ParameterNumberMessage::registered_14_bit(ch(0), u14(420), u14(15000));
    let short_msgs: [Option<StructuredShortMessage>; 4] = msg.to_short_messages();
    assert_eq!(
        short_msgs,
        [
            Some(StructuredShortMessage::ControlChange {
                channel: ch(0),
                controller_number: cn(101),
                control_value: u7(3),
            }),
            Some(StructuredShortMessage::ControlChange {
                channel: ch(0),
                controller_number: cn(100),
                control_value: u7(36),
            }),
            Some(StructuredShortMessage::ControlChange {
                channel: ch(0),
                controller_number: cn(38),
                control_value: u7(24),
            }),
            Some(StructuredShortMessage::ControlChange {
                channel: ch(0),
                controller_number: cn(6),
                control_value: u7(117),
            }),
        ]
    );
}

#[test]
fn conversion_into_slots_gives_the_short_messages() {
    let msg = ParameterNumberMessage::non_registered_7_bit(ch(2), u14(421), u7(126));
    let converted: [Option<RawShortMessage>; 4] = msg.into();
    let expected: [Option<RawShortMessage>; 4] = msg.to_short_messages();
    assert_eq!(converted, expected);
    assert_eq!(converted[2], Some(RawShortMessage::control_change(ch(2), cn(6), u7(126))));
    assert_eq!(converted[3], None);
}

fn round_trip(msg: ParameterNumberMessage) {
    let short_msgs: [Option<RawShortMessage>; 4] = msg.to_short_messages();
    let mut scanner = ParameterNumberMessageScanner::new();
    let sent: Vec<RawShortMessage> = short_msgs.iter().flatten().copied().collect();
    assert_eq!(sent.len(), if msg.is_14_bit() { 4 } else { 3 });
    for (i, short_msg) in sent.iter().enumerate() {
        assert_eq!(short_msg.channel(), Some(msg.channel()));
        let result = scanner.feed(short_msg);
        if i + 1 < sent.len() {
            assert_eq!(result, None);
        } else {
            assert_eq!(result, Some(msg));
        }
    }
}

#[test]
fn scanner_gives_back_what_the_encoder_sends() {
    round_trip(ParameterNumberMessage::registered_14_bit(ch(0), u14(420), u14(15000)));
    round_trip(ParameterNumberMessage::non_registered_7_bit(ch(2), u14(421), u7(126)));
    round_trip(ParameterNumberMessage::registered_7_bit(ch(15), u14(16383), u7(0)));
    round_trip(ParameterNumberMessage::registered_7_bit(ch(7), u14(0), u7(127)));
    round_trip(ParameterNumberMessage::non_registered_14_bit(ch(15), u14(16383), u14(16383)));
    round_trip(ParameterNumberMessage::non_registered_14_bit(ch(0), u14(0), u14(0)));
    round_trip(ParameterNumberMessage::registered_14_bit(ch(3), u14(127), u14(127)));
    round_trip(ParameterNumberMessage::registered_14_bit(ch(3), u14(128), u14(128)));
}

#[test]
fn scanner_gives_back_every_value_of_one_parameter() {
    let mut value: u16 = 0;
    while value <= 16383 {
        round_trip(ParameterNumberMessage::non_registered_14_bit(ch(4), u14(value), u14(16383 - value)));
        value += 1;
    }
    for value in 0..=127u8 {
        round_trip(ParameterNumberMessage::registered_7_bit(ch(4), u14(1000), u7(value)));
    }
}
