use midi_reassembly::{
    Channel, ControllerNumber, KeyNumber, Midi14BitControlChangeMessageParser, RawShortMessage,
    ShortMessageFactory, U14, U7,
};

fn ch(value: u8) -> Channel {
    Channel::try_new(value).unwrap()
}

fn cn(value: u8) -> ControllerNumber {
    ControllerNumber::try_new(value).unwrap()
}

fn key_number(value: u8) -> KeyNumber {
    KeyNumber::try_new(value).unwrap()
}

fn u7(value: u8) -> U7 {
    U7::try_new(value).unwrap()
}

fn u14(value: u16) -> U14 {
    U14::try_new(value).unwrap()
}

#[test]
fn should_ignore_non_contributing_midi_messages() {
    // Given
    let mut parser = Midi14BitControlChangeMessageParser::new();
    // When
    // Then
    assert_eq!(
        parser.feed(&RawShortMessage::note_on(ch(0), key_number(100), u7(100))),
        None
    );
    assert_eq!(
        parser.feed(&RawShortMessage::note_on(ch(0), key_number(100), u7(120))),
        None
    );
    assert_eq!(
        parser.feed(&RawShortMessage::control_change(ch(0), cn(80), u7(1))),
        None
    );
}

#[test]
fn should_return_14_bit_result_message_on_second_lsb_midi_message() {
    // Given
    let mut parser = Midi14BitControlChangeMessageParser::new();
    // When
    let result_1 = parser.feed(&RawShortMessage::control_change(ch(5), cn(2), u7(8)));
    let result_2 = parser.feed(&RawShortMessage::control_change(ch(5), cn(34), u7(33)));
    // Then
    assert_eq!(result_1, None);
    let result_2 = result_2.unwrap();
    assert_eq!(result_2.get_channel(), ch(5));
    assert_eq!(result_2.get_msb_controller_number(), cn(2));
    assert_eq!(result_2.get_lsb_controller_number(), cn(34));
    assert_eq!(result_2.get_value(), u14(1057));
}

#[test]
fn midi_14_bit_control_change_message_parser_should_process_different_channels_independently() {
    // Given
    let mut parser = Midi14BitControlChangeMessageParser::new();
    // When
    let result_1 = parser.feed(&RawShortMessage::control_change(ch(5), cn(2), u7(8)));
    let result_2 = parser.feed(&RawShortMessage::control_change(ch(6), cn(3), u7(8)));
    let result_3 = parser.feed(&RawShortMessage::control_change(ch(5), cn(34), u7(33)));
    let result_4 = parser.feed(&RawShortMessage::control_change(ch(6), cn(35), u7(34)));
    // Then
    assert_eq!(result_1, None);
    assert_eq!(result_2, None);
    let result_3 = result_3.unwrap();
    assert_eq!(result_3.get_channel(), ch(5));
    assert_eq!(result_3.get_msb_controller_number(), cn(2));
    assert_eq!(result_3.get_lsb_controller_number(), cn(34));
    assert_eq!(result_3.get_value(), u14(1057));
    let result_4 = result_4.unwrap();
    assert_eq!(result_4.get_channel(), ch(6));
    assert_eq!(result_4.get_msb_controller_number(), cn(3));
    assert_eq!(result_4.get_lsb_controller_number(), cn(35));
    assert_eq!(result_4.get_value(), u14(1058));
}

#[test]
fn should_ignore_non_contributing_midi_messages_mixed() {
    // Given
    let mut parser = Midi14BitControlChangeMessageParser::new();
    // When
    let result_1 = parser.feed(&RawShortMessage::control_change(ch(5), cn(2), u7(8)));
    let result_2 = parser.feed(&RawShortMessage::control_change(ch(5), cn(77), u7(9)));
    let result_3 = parser.feed(&RawShortMessage::control_change(ch(5), cn(34), u7(33)));
    // Then
    assert_eq!(result_1, None);
    assert_eq!(result_2, None);
    let result_3 = result_3.unwrap();
    assert_eq!(result_3.get_channel(), ch(5));
    assert_eq!(result_3.get_msb_controller_number(), cn(2));
    assert_eq!(result_3.get_lsb_controller_number(), cn(34));
    assert_eq!(result_3.get_value(), u14(1057));
}

#[test]
fn should_only_consider_last_incoming_msb() {
    // Given
    let mut parser = Midi14BitControlChangeMessageParser::new();
    // When
    let result_1 = parser.feed(&RawShortMessage::control_change(ch(5), cn(2), u7(8)));
    let result_2 = parser.feed(&RawShortMessage::control_change(ch(5), cn(3), u7(8)));
    let result_3 = parser.feed(&RawShortMessage::control_change(ch(5), cn(34), u7(33)));
    let result_4 = parser.feed(&RawShortMessage::control_change(ch(5), cn(35), u7(34)));
    // Then
    assert_eq!(result_1, None);
    assert_eq!(result_2, None);
    assert_eq!(result_3, None);
    let result_4 = result_4.unwrap();
    assert_eq!(result_4.get_channel(), ch(5));
    assert_eq!(result_4.get_msb_controller_number(), cn(3));
    assert_eq!(result_4.get_lsb_controller_number(), cn(35));
    assert_eq!(result_4.get_value(), u14(1058));
}

#[test]
fn superseded_msb_with_its_own_lsb_completes_with_the_last_msb() {
    let mut parser = Midi14BitControlChangeMessageParser::new();
    assert_eq!(parser.feed(&RawShortMessage::control_change(ch(5), cn(2), u7(8))), None);
    assert_eq!(parser.feed(&RawShortMessage::control_change(ch(5), cn(3), u7(8))), None);
    let result = parser
        .feed(&RawShortMessage::control_change(ch(5), cn(35), u7(34)))
        .unwrap();
    assert_eq!(result.get_channel(), ch(5));
    assert_eq!(result.get_msb_controller_number(), cn(3));
    assert_eq!(result.get_lsb_controller_number(), cn(35));
    assert_eq!(result.get_value(), u14(1058));
}

#[test]
fn mismatched_lsb_leaves_the_msb_waiting() {
    let mut parser = Midi14BitControlChangeMessageParser::new();
    assert_eq!(parser.feed(&RawShortMessage::control_change(ch(1), cn(7), u7(100))), None);
    assert_eq!(parser.feed(&RawShortMessage::control_change(ch(1), cn(32), u7(1))), None);
    assert_eq!(parser.feed(&RawShortMessage::control_change(ch(1), cn(63), u7(2))), None);
    let result = parser
        .feed(&RawShortMessage::control_change(ch(1), cn(39), u7(5)))
        .unwrap();
    assert_eq!(result.get_channel(), ch(1));
    assert_eq!(result.get_msb_controller_number(), cn(7));
    assert_eq!(result.get_lsb_controller_number(), cn(39));
    assert_eq!(result.get_value(), u14(12805));
}

#[test]
fn lsb_without_msb_completes_nothing() {
    let mut parser = Midi14BitControlChangeMessageParser::new();
    assert_eq!(parser.feed(&RawShortMessage::control_change(ch(3), cn(34), u7(33))), None);
    assert_eq!(parser.feed(&RawShortMessage::control_change(ch(3), cn(32), u7(0))), None);
}

#[test]
fn completion_leaves_nothing_waiting() {
    let mut parser = Midi14BitControlChangeMessageParser::new();
    assert_eq!(parser.feed(&RawShortMessage::control_change(ch(5), cn(2), u7(8))), None);
    assert!(parser
        .feed(&RawShortMessage::control_change(ch(5), cn(34), u7(33)))
        .is_some());
    // The same least significant half once more: nothing is waiting for it.
    assert_eq!(parser.feed(&RawShortMessage::control_change(ch(5), cn(34), u7(33))), None);
    // The next most significant half starts a new message.
    assert_eq!(parser.feed(&RawShortMessage::control_change(ch(5), cn(2), u7(9))), None);
    let result = parser
        .feed(&RawShortMessage::control_change(ch(5), cn(34), u7(1)))
        .unwrap();
    assert_eq!(result.get_value(), u14(1153));
}

#[test]
fn msb_on_another_channel_is_not_completed() {
    let mut parser = Midi14BitControlChangeMessageParser::new();
    assert_eq!(parser.feed(&RawShortMessage::control_change(ch(5), cn(2), u7(8))), None);
    assert_eq!(parser.feed(&RawShortMessage::control_change(ch(6), cn(34), u7(33))), None);
    let result = parser
        .feed(&RawShortMessage::control_change(ch(5), cn(34), u7(33)))
        .unwrap();
    assert_eq!(result.get_channel(), ch(5));
    assert_eq!(result.get_value(), u14(1057));
}

#[test]
fn parser_ignores_messages_without_a_channel() {
    let mut parser = Midi14BitControlChangeMessageParser::new();
    assert_eq!(parser.feed(&RawShortMessage::control_change(ch(0), cn(2), u7(8))), None);
    let timing_clock = RawShortMessage::from_bytes(0xf8, u7(0), u7(0)).unwrap();
    assert_eq!(parser.feed(&timing_clock), None);
    let song_select = RawShortMessage::from_bytes(0xf3, u7(34), u7(33)).unwrap();
    assert_eq!(parser.feed(&song_select), None);
    let result = parser
        .feed(&RawShortMessage::control_change(ch(0), cn(34), u7(33)))
        .unwrap();
    assert_eq!(result.get_value(), u14(1057));
}

#[test]
fn parser_takes_the_largest_and_the_smallest_values() {
    let mut parser = Midi14BitControlChangeMessageParser::new();
    assert_eq!(parser.feed(&RawShortMessage::control_change(ch(15), cn(31), u7(127))), None);
    let result = parser
        .feed(&RawShortMessage::control_change(ch(15), cn(63), u7(127)))
        .unwrap();
    assert_eq!(result.get_channel(), ch(15));
    assert_eq!(result.get_msb_controller_number(), cn(31));
    assert_eq!(result.get_lsb_controller_number(), cn(63));
    assert_eq!(result.get_value(), u14(16383));
    assert_eq!(parser.feed(&RawShortMessage::control_change(ch(0), cn(0), u7(0))), None);
    let result = parser
        .feed(&RawShortMessage::control_change(ch(0), cn(32), u7(0)))
        .unwrap();
    assert_eq!(result.get_channel(), ch(0));
    assert_eq!(result.get_msb_controller_number(), cn(0));
    assert_eq!(result.get_lsb_controller_number(), cn(32));
    assert_eq!(result.get_value(), u14(0));
}

#[test]
fn parser_reset_forgets_a_waiting_msb_on_every_channel() {
    let mut parser = Midi14BitControlChangeMessageParser::new();
    for channel in 0..16 {
        assert_eq!(
            parser.feed(&RawShortMessage::control_change(ch(channel), cn(2), u7(8))),
            None
        );
    }
    parser.reset();
    for channel in 0..16 {
        assert_eq!(
            parser.feed(&RawShortMessage::control_change(ch(channel), cn(34), u7(33))),
            None
        );
    }
    // A whole sequence after the reset completes as on a new parser.
    assert_eq!(parser.feed(&RawShortMessage::control_change(ch(5), cn(2), u7(8))), None);
    let result = parser
        .feed(&RawShortMessage::control_change(ch(5), cn(34), u7(33)))
        .unwrap();
    assert_eq!(result.get_channel(), ch(5));
    assert_eq!(result.get_msb_controller_number(), cn(2));
    assert_eq!(result.get_value(), u14(1057));
}

#[test]
fn parser_interleaved_channels_complete_what_each_completes_alone() {
    let on_5 = [(2u8, 8u8), (3, 9), (35, 10), (35, 11), (4, 1), (36, 2)];
    let on_9 = [(34u8, 1u8), (2, 100), (34, 27), (2, 5), (2, 6), (34, 7)];
    // Each channel alone.
    let mut alone_5 = Vec::new();
    let mut parser = Midi14BitControlChangeMessageParser::new();
    for (controller, value) in on_5 {
        if let Some(m) = parser.feed(&RawShortMessage::control_change(ch(5), cn(controller), u7(value))) {
            alone_5.push(m);
        }
    }
    let mut alone_9 = Vec::new();
    let mut parser = Midi14BitControlChangeMessageParser::new();
    for (controller, value) in on_9 {
        if let Some(m) = parser.feed(&RawShortMessage::control_change(ch(9), cn(controller), u7(value))) {
            alone_9.push(m);
        }
    }
    assert_eq!(alone_5.len(), 2);
    assert_eq!(alone_5[0].get_value(), u14(9 * 128 + 10));
    assert_eq!(alone_5[1].get_value(), u14(128 + 2));
    assert_eq!(alone_9.len(), 2);
    assert_eq!(alone_9[0].get_value(), u14(100 * 128 + 27));
    assert_eq!(alone_9[1].get_value(), u14(6 * 128 + 7));
    // Both in turn.
    let mut mixed_5 = Vec::new();
    let mut mixed_9 = Vec::new();
    let mut parser = Midi14BitControlChangeMessageParser::new();
    for i in 0..6 {
        let (controller, value) = on_9[i];
        if let Some(m) = parser.feed(&RawShortMessage::control_change(ch(9), cn(controller), u7(value))) {
            assert_eq!(m.get_channel(), ch(9));
            mixed_9.push(m);
        }
        let (controller, value) = on_5[i];
        if let Some(m) = parser.feed(&RawShortMessage::control_change(ch(5), cn(controller), u7(value))) {
            assert_eq!(m.get_channel(), ch(5));
            mixed_5.push(m);
        }
    }
    assert_eq!(mixed_5, alone_5);
    assert_eq!(mixed_9, alone_9);
}
