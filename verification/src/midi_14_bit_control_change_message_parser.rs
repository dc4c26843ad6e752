//! Putting 14-bit control-change messages together from their two halves.
//!
//! A 14-bit value for one of the controllers 0 to 31 arrives as two
//! control-change messages on one channel: first the most significant half
//! on the controller itself, then the least significant half on the
//! controller 32 above it. The parser keeps, for each channel, the most
//! significant half seen last, and completes a message when the matching
//! least significant half follows.
use vstd::prelude::*;
use crate::bit_util::{build_14_bit_value_from_two_7_bit_values, join_7_bit_halves};
use crate::midi_14_bit_control_change_message::{
    Midi14BitControlChangeMessage,
    Midi14BitControlChangeMessageView,
};
use crate::numbers::{option_view, Channel, ControllerNumber, U7};
use crate::short_message::ShortMessage;
use crate::structured_short_message::{
    on_channel,
    StructuredShortMessage,
    StructuredShortMessageView,
};

verus! {

/// What the parser remembers of one channel: the controller and the value of
/// the most significant half that is waiting for its other half, if any.
pub struct ParserForOneChannelView {
    pub msb_controller_number: Option<nat>,
    pub value_msb: Option<nat>,
}

impl ParserForOneChannelView {
    /// Nothing is waiting.
    pub open spec fn empty() -> Self {
        ParserForOneChannelView { msb_controller_number: None, value_msb: None }
    }

    /// The message that `msg` completes, if it completes one: `msg` must be a
    /// control change on one of the controllers 32 to 63, a most significant
    /// half must be waiting, and its controller must be the one 32 below.
    pub open spec fn completes(self, msg: StructuredShortMessageView) -> Option<
        Midi14BitControlChangeMessageView,
    > {
        match (msg, self.msb_controller_number, self.value_msb) {
            (
                StructuredShortMessageView::ControlChange {
                    channel,
                    controller_number,
                    control_value,
                },
                Some(msb_controller_number),
                Some(value_msb),
            ) => if 32 <= controller_number <= 63 && controller_number == msb_controller_number
                + 32 {
                Some(
                    Midi14BitControlChangeMessageView {
                        channel,
                        msb_controller_number,
                        value: join_7_bit_halves(value_msb, control_value),
                    },
                )
            } else {
                None
            },
            _ => None,
        }
    }

    /// What is remembered after `msg`. A control change on one of the
    /// controllers 0 to 31 is a most significant half and replaces whatever
    /// was waiting. A message that completes one leaves nothing waiting.
    /// Every other message changes nothing.
    pub open spec fn feed(self, msg: StructuredShortMessageView) -> Self {
        match msg {
            StructuredShortMessageView::ControlChange { controller_number, control_value, .. } => {
                if controller_number <= 31 {
                    ParserForOneChannelView {
                        msb_controller_number: Some(controller_number),
                        value_msb: Some(control_value),
                    }
                } else if self.completes(msg) is Some {
                    Self::empty()
                } else {
                    self
                }
            },
            _ => self,
        }
    }
}

/// What the parser remembers: one [`ParserForOneChannelView`] for each of the
/// 16 channels.
pub struct Midi14BitControlChangeMessageParserView {
    pub channels: Seq<ParserForOneChannelView>,
}

impl Midi14BitControlChangeMessageParserView {
    /// Nothing is waiting on any channel.
    pub open spec fn fresh() -> Self {
        Midi14BitControlChangeMessageParserView {
            channels: Seq::new(16, |i: int| ParserForOneChannelView::empty()),
        }
    }

    /// There are 16 channels.
    pub open spec fn wf(self) -> bool {
        self.channels.len() == 16
    }

    /// The message that `msg` completes, if it completes one. Only what is
    /// remembered of the channel of `msg` counts; a message without a channel
    /// completes nothing.
    pub open spec fn completes(self, msg: StructuredShortMessageView) -> Option<
        Midi14BitControlChangeMessageView,
    > {
        match msg.channel() {
            Some(channel) => self.channels[channel as int].completes(msg),
            None => None,
        }
    }

    /// What is remembered after `msg`. Only the channel of `msg` can change; a
    /// message without a channel changes nothing.
    pub open spec fn feed(self, msg: StructuredShortMessageView) -> Self {
        match msg.channel() {
            Some(channel) => Midi14BitControlChangeMessageParserView {
                channels: self.channels.update(
                    channel as int,
                    self.channels[channel as int].feed(msg),
                ),
            },
            None => self,
        }
    }

    /// Forgets everything.
    pub open spec fn reset(self) -> Self {
        Self::fresh()
    }

    /// Feeds `msgs` one after the other: what is remembered at the end, and the
    /// messages completed on the way, in the order of their completion.
    pub open spec fn run(self, msgs: Seq<StructuredShortMessageView>) -> (
        Self,
        Seq<Midi14BitControlChangeMessageView>,
    )
        decreases msgs.len(),
    {
        if msgs.len() == 0 {
            (self, Seq::empty())
        } else {
            let (before, completed) = self.run(msgs.drop_last());
            (
                before.feed(msgs.last()),
                match before.completes(msgs.last()) {
                    Some(message) => completed.push(message),
                    None => completed,
                },
            )
        }
    }
}

/// What the parser keeps for one channel.
#[derive(Clone, Copy)]
struct ParserForOneChannel {
    msb_controller_number: Option<ControllerNumber>,
    value_msb: Option<U7>,
}

impl View for ParserForOneChannel {
    type V = ParserForOneChannelView;

    closed spec fn view(&self) -> ParserForOneChannelView {
        ParserForOneChannelView {
            msb_controller_number: option_view(self.msb_controller_number),
            value_msb: option_view(self.value_msb),
        }
    }
}

impl ParserForOneChannel {
    /// Nothing is waiting.
    fn new() -> (r: ParserForOneChannel)
        ensures
            r@ == ParserForOneChannelView::empty(),
    {
        ParserForOneChannel { msb_controller_number: None, value_msb: None }
    }

    /// Takes in one message of this channel and returns the message that it
    /// completes, if it completes one.
    fn feed(&mut self, msg: &impl ShortMessage) -> (result: Option<
        Midi14BitControlChangeMessage,
    >)
        ensures
            final(self)@ == old(self)@.feed(msg.structured()),
            option_view(result) == old(self)@.completes(msg.structured()),
    {
        match msg.to_structured() {
            StructuredShortMessage::ControlChange { controller_number, channel, control_value } => {
                if controller_number.can_act_as_14_bit_msb() {
                    self.process_value_msb(controller_number, control_value)
                } else if controller_number.can_act_as_14_bit_lsb() {
                    self.process_value_lsb(channel, controller_number, control_value)
                } else {
                    None
                }
            },
            _ => None,
        }
    }

    /// Forgets what is waiting.
    fn reset(&mut self)
        ensures
            final(self)@ == ParserForOneChannelView::empty(),
    {
        self.msb_controller_number = None;
        self.value_msb = None;
    }

    /// Takes in a most significant half: from now on it is the one that is
    /// waiting.
    fn process_value_msb(
        &mut self,
        msb_controller_number: ControllerNumber,
        value_msb: U7,
    ) -> (result: Option<Midi14BitControlChangeMessage>)
        ensures
            final(self)@ == (ParserForOneChannelView {
                msb_controller_number: Some(msb_controller_number@),
                value_msb: Some(value_msb@),
            }),
            result is None,
    {
        self.msb_controller_number = Some(msb_controller_number);
        self.value_msb = Some(value_msb);
        None
    }

    /// Takes in a least significant half. If it belongs to the most
    /// significant half that is waiting, the two make a message and nothing is
    /// left waiting; if not, it is passed over.
    fn process_value_lsb(
        &mut self,
        channel: Channel,
        lsb_controller_number: ControllerNumber,
        value_lsb: U7,
    ) -> (result: Option<Midi14BitControlChangeMessage>)
        ensures
            option_view(result) == old(self)@.completes(
                StructuredShortMessageView::ControlChange {
                    channel: channel@,
                    controller_number: lsb_controller_number@,
                    control_value: value_lsb@,
                },
            ),
            final(self)@ == (if result is Some {
                ParserForOneChannelView::empty()
            } else {
                old(self)@
            }),
    {
        let msb_controller_number = self.msb_controller_number?;
        let value_msb = self.value_msb?;
        let expected = msb_controller_number.corresponding_14_bit_lsb()?;
        if lsb_controller_number.get() != expected.get() {
            return None;
        }
        let value = build_14_bit_value_from_two_7_bit_values(value_msb, value_lsb);
        self.reset();
        Some(Midi14BitControlChangeMessage::new(channel, msb_controller_number, value))
    }
}

/// Scans a stream of short messages for 14-bit control-change messages.
///
/// Each of the 16 channels is scanned on its own: what arrives on one channel
/// never changes what is waiting on another.
pub struct Midi14BitControlChangeMessageParser {
    parser_by_channel: [ParserForOneChannel; 16],
}

impl View for Midi14BitControlChangeMessageParser {
    type V = Midi14BitControlChangeMessageParserView;

    closed spec fn view(&self) -> Midi14BitControlChangeMessageParserView {
        Midi14BitControlChangeMessageParserView {
            channels: Seq::new(16, |i: int| self.parser_by_channel[i]@),
        }
    }
}

impl Midi14BitControlChangeMessageParser {
    /// A parser with nothing waiting on any channel.
    pub fn new() -> (r: Midi14BitControlChangeMessageParser)
        ensures
            r@ == Midi14BitControlChangeMessageParserView::fresh(),
    {
        let r = Midi14BitControlChangeMessageParser {
            parser_by_channel: [ParserForOneChannel::new();16],
        };
        assert(r@.channels =~= Midi14BitControlChangeMessageParserView::fresh().channels);
        r
    }

    /// Feeds the parser one message and returns the 14-bit message that it
    /// completes, if it completes one.
    pub fn feed(&mut self, msg: &impl ShortMessage) -> (result: Option<
        Midi14BitControlChangeMessage,
    >)
        ensures
            final(self)@ == old(self)@.feed(msg.structured()),
            option_view(result) == old(self)@.completes(msg.structured()),
    {
        let channel = msg.channel()?;
        let i: usize = channel.get() as usize;
        let result = self.parser_by_channel[i].feed(msg);
        assert(self@.channels =~= old(self)@.feed(msg.structured()).channels);
        result
    }

    /// Forgets what is waiting, on every channel.
    pub fn reset(&mut self)
        ensures
            final(self)@ == old(self)@.reset(),
    {
        for i in 0..16
            invariant
                forall|j: int| 0 <= j < i ==> (#[trigger] self.parser_by_channel[j])@
                    == ParserForOneChannelView::empty(),
        {
            self.parser_by_channel[i].reset();
        }
        assert(self@.channels =~= Midi14BitControlChangeMessageParserView::fresh().channels);
    }

    /// A parser always has its 16 channels.
    pub proof fn lemma_view_wf(&self)
        ensures
            self@.wf(),
    {
    }
}

/// The messages of `completed` that are for `channel`, in their order.
pub open spec fn completed_on_channel(
    completed: Seq<Midi14BitControlChangeMessageView>,
    channel: nat,
) -> Seq<Midi14BitControlChangeMessageView> {
    completed.filter(|message: Midi14BitControlChangeMessageView| message.channel == channel)
}

/// The channels do not disturb one another. Take any stream of messages and
/// any channel. Feeding the parser only the messages of that channel
/// completes the same messages, in the same order, as the whole stream
/// completes for that channel, and leaves the same waiting on that channel.
///
/// So a stream that interleaves two channels completes, for each of them, what
/// that channel's messages alone would complete.
pub proof fn lemma_channels_are_independent(
    parser: Midi14BitControlChangeMessageParserView,
    msgs: Seq<StructuredShortMessageView>,
    channel: nat,
)
    requires
        parser.wf(),
        channel < 16,
        forall|i: int| 0 <= i < msgs.len() ==> (#[trigger] msgs[i]).channel_in_range(),
    ensures
        parser.run(msgs).0.wf(),
        parser.run(on_channel(msgs, channel)).0.wf(),
        parser.run(on_channel(msgs, channel)).0.channels[channel as int] == parser.run(
            msgs,
        ).0.channels[channel as int],
        parser.run(on_channel(msgs, channel)).1 == completed_on_channel(
            parser.run(msgs).1,
            channel,
        ),
    decreases msgs.len(),
{
    reveal(Seq::filter);
    if msgs.len() > 0 {
        let earlier = msgs.drop_last();
        let last = msgs.last();
        lemma_channels_are_independent(parser, earlier, channel);
        assert(last.channel_in_range());
        let (before, completed) = parser.run(earlier);
        if let Some(message) = before.completes(last) {
            assert(completed.push(message).drop_last() =~= completed);
        }
        if last.channel() == Some(channel) {
            let alone = on_channel(earlier, channel);
            assert(on_channel(msgs, channel) == alone.push(last));
            assert(alone.push(last).drop_last() =~= alone);
        }
    }
}

/// Nothing is completed out of thin air: every message that a stream
/// completes is for the channel of one of the stream's messages. Together
/// with [`lemma_channels_are_independent`] this says that what a stream
/// completes is what its channels complete alone, neither more nor less.
pub proof fn lemma_completed_messages_are_on_fed_channels(
    parser: Midi14BitControlChangeMessageParserView,
    msgs: Seq<StructuredShortMessageView>,
    k: int,
)
    requires
        0 <= k < parser.run(msgs).1.len(),
    ensures
        exists|i: int|
            0 <= i < msgs.len() && (#[trigger] msgs[i]).channel() == Some(
                parser.run(msgs).1[k].channel,
            ),
    decreases msgs.len(),
{
    if msgs.len() > 0 {
        let earlier = msgs.drop_last();
        let last = msgs.last();
        let (before, completed) = parser.run(earlier);
        if k < completed.len() {
            lemma_completed_messages_are_on_fed_channels(parser, earlier, k);
            let i = choose|i: int|
                0 <= i < earlier.len() && (#[trigger] earlier[i]).channel() == Some(
                    completed[k].channel,
                );
            assert(msgs[i] == earlier[i]);
        } else {
            assert(msgs[msgs.len() - 1] == last);
        }
    }
}

/// Two channels in one stream. Where every message of `msgs` is on one of two
/// different channels, the stream completes for each of the two what that
/// channel's messages complete alone, in the same order, and it completes
/// nothing else.
pub proof fn lemma_interleaved_channels(
    parser: Midi14BitControlChangeMessageParserView,
    msgs: Seq<StructuredShortMessageView>,
    first: nat,
    second: nat,
)
    requires
        parser.wf(),
        first < 16,
        second < 16,
        first != second,
        forall|i: int|
            0 <= i < msgs.len() ==> ((#[trigger] msgs[i]).channel() == Some(first)
                || msgs[i].channel() == Some(second)),
    ensures
        completed_on_channel(parser.run(msgs).1, first) == parser.run(on_channel(msgs, first)).1,
        completed_on_channel(parser.run(msgs).1, second) == parser.run(
            on_channel(msgs, second),
        ).1,
        forall|k: int|
            0 <= k < parser.run(msgs).1.len() ==> ((#[trigger] parser.run(msgs).1[k]).channel
                == first || parser.run(msgs).1[k].channel == second),
{
    lemma_channels_are_independent(parser, msgs, first);
    lemma_channels_are_independent(parser, msgs, second);
    assert forall|k: int| 0 <= k < parser.run(msgs).1.len() implies ((#[trigger] parser.run(
        msgs,
    ).1[k]).channel == first || parser.run(msgs).1[k].channel == second) by {
        lemma_completed_messages_are_on_fed_channels(parser, msgs, k);
    }
}

/// A least significant half on the wrong controller is passed over. After a
/// most significant half on controller `msb_controller_number`, a least
/// significant half on any controller but the one 32 above it completes
/// nothing and leaves the most significant half waiting, so that the right
/// least significant half still completes the message.
pub proof fn lemma_mismatched_lsb_is_passed_over(
    parser: Midi14BitControlChangeMessageParserView,
    channel: nat,
    msb_controller_number: nat,
    value_msb: nat,
    other_controller_number: nat,
    other_value: nat,
    value_lsb: nat,
)
    requires
        parser.wf(),
        channel < 16,
        msb_controller_number <= 31,
        32 <= other_controller_number <= 63,
        other_controller_number != msb_controller_number + 32,
    ensures
        ({
            let msb = StructuredShortMessageView::ControlChange {
                channel,
                controller_number: msb_controller_number,
                control_value: value_msb,
            };
            let mismatched = StructuredShortMessageView::ControlChange {
                channel,
                controller_number: other_controller_number,
                control_value: other_value,
            };
            let lsb = StructuredShortMessageView::ControlChange {
                channel,
                controller_number: msb_controller_number + 32,
                control_value: value_lsb,
            };
            let waiting = parser.feed(msb);
            &&& parser.completes(msb) is None
            &&& waiting.completes(mismatched) is None
            &&& waiting.feed(mismatched) == waiting
            &&& waiting.feed(mismatched).completes(lsb) == Some(
                Midi14BitControlChangeMessageView {
                    channel,
                    msb_controller_number,
                    value: value_msb * 128 + value_lsb,
                },
            )
        }),
{
    let msb = StructuredShortMessageView::ControlChange {
        channel,
        controller_number: msb_controller_number,
        control_value: value_msb,
    };
    let mismatched = StructuredShortMessageView::ControlChange {
        channel,
        controller_number: other_controller_number,
        control_value: other_value,
    };
    let waiting = parser.feed(msb);
    assert(waiting.feed(mismatched).channels =~= waiting.channels);
}

/// Only the most significant half that came last counts. After two of them
/// on one channel, the least significant half that belongs to the second
/// completes a message with the second one's controller and value, and the
/// one that belongs to the first, if that is another controller, completes
/// nothing.
pub proof fn lemma_last_msb_wins(
    parser: Midi14BitControlChangeMessageParserView,
    channel: nat,
    first_controller_number: nat,
    first_value: nat,
    second_controller_number: nat,
    second_value: nat,
    value_lsb: nat,
)
    requires
        parser.wf(),
        channel < 16,
        first_controller_number <= 31,
        second_controller_number <= 31,
    ensures
        ({
            let first = StructuredShortMessageView::ControlChange {
                channel,
                controller_number: first_controller_number,
                control_value: first_value,
            };
            let second = StructuredShortMessageView::ControlChange {
                channel,
                controller_number: second_controller_number,
                control_value: second_value,
            };
            let lsb_of_first = StructuredShortMessageView::ControlChange {
                channel,
                controller_number: first_controller_number + 32,
                control_value: value_lsb,
            };
            let lsb_of_second = StructuredShortMessageView::ControlChange {
                channel,
                controller_number: second_controller_number + 32,
                control_value: value_lsb,
            };
            let waiting = parser.feed(first).feed(second);
            &&& waiting.completes(lsb_of_second) == Some(
                Midi14BitControlChangeMessageView {
                    channel,
                    msb_controller_number: second_controller_number,
                    value: second_value * 128 + value_lsb,
                },
            )
            &&& first_controller_number != second_controller_number ==> waiting.completes(
                lsb_of_first,
            ) is None
        }),
{
}

/// A completed message leaves nothing waiting on its channel, so the next
/// most significant half starts anew: right after a completion no least
/// significant half completes anything.
pub proof fn lemma_completion_clears_the_channel(
    parser: Midi14BitControlChangeMessageParserView,
    msg: StructuredShortMessageView,
    next: StructuredShortMessageView,
)
    requires
        parser.wf(),
        msg.channel_in_range(),
        parser.completes(msg) is Some,
        next.channel() == msg.channel(),
    ensures
        parser.feed(msg).channels[msg.channel().unwrap() as int]
            == ParserForOneChannelView::empty(),
        parser.feed(msg).completes(next) is None,
{
}

/// A reset forgets every half sequence. Whatever was waiting before, after a
/// reset no single message completes anything, and a most significant half
/// followed by its least significant half completes their message.
pub proof fn lemma_reset_starts_anew(
    parser: Midi14BitControlChangeMessageParserView,
    msg: StructuredShortMessageView,
    channel: nat,
    msb_controller_number: nat,
    value_msb: nat,
    value_lsb: nat,
)
    requires
        msg.channel_in_range(),
        channel < 16,
        msb_controller_number <= 31,
    ensures
        parser.reset() == Midi14BitControlChangeMessageParserView::fresh(),
        parser.reset().completes(msg) is None,
        ({
            let msb = StructuredShortMessageView::ControlChange {
                channel,
                controller_number: msb_controller_number,
                control_value: value_msb,
            };
            let lsb = StructuredShortMessageView::ControlChange {
                channel,
                controller_number: msb_controller_number + 32,
                control_value: value_lsb,
            };
            parser.reset().feed(msb).completes(lsb) == Some(
                Midi14BitControlChangeMessageView {
                    channel,
                    msb_controller_number,
                    value: value_msb * 128 + value_lsb,
                },
            )
        }),
{
}

} // verus!
