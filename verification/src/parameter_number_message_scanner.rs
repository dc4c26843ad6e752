//! Putting parameter-number messages together from the control-change
//! messages that carry them.
//!
//! A parameter-number message arrives as three or four control-change
//! messages on one channel: the two halves of the parameter number, then the
//! least significant half of the value where the value has 14 bits, then the
//! most significant half of the value, which completes the message. The
//! scanner keeps, for each channel, the halves seen so far.
use vstd::prelude::*;
use crate::bit_util::{
    build_14_bit_value_from_two_7_bit_values,
    join_7_bit_halves,
    lemma_join_of_halves,
};
use crate::controller_numbers::{
    DATA_ENTRY_MSB,
    DATA_ENTRY_MSB_LSB,
    NON_REGISTERED_PARAMETER_NUMBER_LSB,
    NON_REGISTERED_PARAMETER_NUMBER_MSB,
    REGISTERED_PARAMETER_NUMBER_LSB,
    REGISTERED_PARAMETER_NUMBER_MSB,
};
use crate::numbers::{option_view, Channel, U7};
use crate::parameter_number_message::{ParameterNumberMessage, ParameterNumberMessageView};
use crate::short_message::ShortMessage;
use crate::structured_short_message::{
    on_channel,
    StructuredShortMessage,
    StructuredShortMessageView,
};

verus! {

/// What the scanner remembers of one channel: the halves of the parameter
/// number seen last, whether they came on the registered or the
/// non-registered controllers, and the least significant half of the value if
/// one came after them.
pub struct ScannerForOneChannelView {
    pub number_msb: Option<nat>,
    pub number_lsb: Option<nat>,
    pub is_registered: bool,
    pub value_lsb: Option<nat>,
}

impl ScannerForOneChannelView {
    /// Nothing has been seen.
    pub open spec fn empty() -> Self {
        ScannerForOneChannelView {
            number_msb: None,
            number_lsb: None,
            is_registered: false,
            value_lsb: None,
        }
    }

    /// What is remembered after the least significant half of a parameter
    /// number: that half and its kind, and no half of a value any more.
    pub open spec fn process_number_lsb(self, number_lsb: nat, is_registered: bool) -> Self {
        ScannerForOneChannelView {
            number_lsb: Some(number_lsb),
            is_registered,
            value_lsb: None,
            ..self
        }
    }

    /// What is remembered after the most significant half of a parameter
    /// number: that half and its kind, and no half of a value any more.
    pub open spec fn process_number_msb(self, number_msb: nat, is_registered: bool) -> Self {
        ScannerForOneChannelView {
            number_msb: Some(number_msb),
            is_registered,
            value_lsb: None,
            ..self
        }
    }

    /// What is remembered after the least significant half of a value.
    pub open spec fn process_value_lsb(self, value_lsb: nat) -> Self {
        ScannerForOneChannelView { value_lsb: Some(value_lsb), ..self }
    }

    /// The message that the most significant half of a value completes on
    /// `channel`. Both halves of the number must have been seen. Where the
    /// least significant half of the value has been seen too, the value has 14
    /// bits; else it has seven and is `value_msb` itself.
    pub open spec fn process_value_msb(self, channel: nat, value_msb: nat) -> Option<
        ParameterNumberMessageView,
    > {
        match (self.number_msb, self.number_lsb) {
            (Some(number_msb), Some(number_lsb)) => Some(
                ParameterNumberMessageView {
                    channel,
                    number: join_7_bit_halves(number_msb, number_lsb),
                    value: match self.value_lsb {
                        Some(value_lsb) => join_7_bit_halves(value_msb, value_lsb),
                        None => value_msb,
                    },
                    is_registered: self.is_registered,
                    is_14_bit: self.value_lsb is Some,
                },
            ),
            _ => None,
        }
    }

    /// The message that `msg` completes, if it completes one: only a control
    /// change on controller 6 can.
    pub open spec fn completes(self, msg: StructuredShortMessageView) -> Option<
        ParameterNumberMessageView,
    > {
        match msg {
            StructuredShortMessageView::ControlChange {
                channel,
                controller_number,
                control_value,
            } => if controller_number == DATA_ENTRY_MSB {
                self.process_value_msb(channel, control_value)
            } else {
                None
            },
            _ => None,
        }
    }

    /// What is remembered after `msg`. Control changes on the controllers 98
    /// to 101 and 38 are taken in; a completed message leaves everything as
    /// it was, so that one more value for the same parameter can follow;
    /// every other message changes nothing.
    pub open spec fn feed(self, msg: StructuredShortMessageView) -> Self {
        match msg {
            StructuredShortMessageView::ControlChange { controller_number, control_value, .. } => {
                if controller_number == NON_REGISTERED_PARAMETER_NUMBER_LSB {
                    self.process_number_lsb(control_value, false)
                } else if controller_number == NON_REGISTERED_PARAMETER_NUMBER_MSB {
                    self.process_number_msb(control_value, false)
                } else if controller_number == REGISTERED_PARAMETER_NUMBER_LSB {
                    self.process_number_lsb(control_value, true)
                } else if controller_number == REGISTERED_PARAMETER_NUMBER_MSB {
                    self.process_number_msb(control_value, true)
                } else if controller_number == DATA_ENTRY_MSB_LSB {
                    self.process_value_lsb(control_value)
                } else {
                    self
                }
            },
            _ => self,
        }
    }
}

/// What the scanner remembers: one [`ScannerForOneChannelView`] for each of
/// the 16 channels.
pub struct ParameterNumberMessageScannerView {
    pub channels: Seq<ScannerForOneChannelView>,
}

impl ParameterNumberMessageScannerView {
    /// Nothing has been seen on any channel.
    pub open spec fn fresh() -> Self {
        ParameterNumberMessageScannerView {
            channels: Seq::new(16, |i: int| ScannerForOneChannelView::empty()),
        }
    }

    /// There are 16 channels.
    pub open spec fn wf(self) -> bool {
        self.channels.len() == 16
    }

    /// The message that `msg` completes, if it completes one. Only what is
    /// remembered of the channel of `msg` counts; a message without a channel
    /// completes nothing.
    pub open spec fn completes(self, msg: StructuredShortMessageView) -> Option<
        ParameterNumberMessageView,
    > {
        match msg.channel() {
            Some(channel) => self.channels[channel as int].completes(msg),
            None => None,
        }
    }

    /// What is remembered after `msg`. Only the channel of `msg` can change; a
    /// message without a channel changes nothing.
    pub open spec fn feed(self, msg: StructuredShortMessageView) -> Self {
        match msg.channel() {
            Some(channel) => ParameterNumberMessageScannerView {
                channels: self.channels.update(
                    channel as int,
                    self.channels[channel as int].feed(msg),
                ),
            },
            None => self,
        }
    }

    /// Forgets everything.
    pub open spec fn reset(self) -> Self {
        Self::fresh()
    }

    /// Feeds `msgs` one after the other: what is remembered at the end, and the
    /// messages completed on the way, in the order of their completion.
    pub open spec fn run(self, msgs: Seq<StructuredShortMessageView>) -> (
        Self,
        Seq<ParameterNumberMessageView>,
    )
        decreases msgs.len(),
    {
        if msgs.len() == 0 {
            (self, Seq::empty())
        } else {
            let (before, completed) = self.run(msgs.drop_last());
            (
                before.feed(msgs.last()),
                match before.completes(msgs.last()) {
                    Some(message) => completed.push(message),
                    None => completed,
                },
            )
        }
    }
}

/// What the scanner keeps for one channel.
#[derive(Clone, Copy, PartialEq, Eq, Debug)]
struct ScannerForOneChannel {
    number_msb: Option<U7>,
    number_lsb: Option<U7>,
    is_registered: bool,
    value_lsb: Option<U7>,
}

impl View for ScannerForOneChannel {
    type V = ScannerForOneChannelView;

    closed spec fn view(&self) -> ScannerForOneChannelView {
        ScannerForOneChannelView {
            number_msb: option_view(self.number_msb),
            number_lsb: option_view(self.number_lsb),
            is_registered: self.is_registered,
            value_lsb: option_view(self.value_lsb),
        }
    }
}

impl ScannerForOneChannel {
    /// Nothing has been seen.
    fn new() -> (r: ScannerForOneChannel)
        ensures
            r@ == ScannerForOneChannelView::empty(),
    {
        ScannerForOneChannel {
            number_msb: None,
            number_lsb: None,
            is_registered: false,
            value_lsb: None,
        }
    }

    /// Takes in one message of this channel and returns the message that it
    /// completes, if it completes one.
    fn feed(&mut self, msg: &impl ShortMessage) -> (result: Option<ParameterNumberMessage>)
        ensures
            final(self)@ == old(self)@.feed(msg.structured()),
            option_view(result) == old(self)@.completes(msg.structured()),
    {
        match msg.to_structured() {
            StructuredShortMessage::ControlChange { channel, controller_number, control_value } => {
                let controller_number: u8 = controller_number.get();
                if controller_number == NON_REGISTERED_PARAMETER_NUMBER_LSB {
                    self.process_number_lsb(control_value, false)
                } else if controller_number == NON_REGISTERED_PARAMETER_NUMBER_MSB {
                    self.process_number_msb(control_value, false)
                } else if controller_number == REGISTERED_PARAMETER_NUMBER_LSB {
                    self.process_number_lsb(control_value, true)
                } else if controller_number == REGISTERED_PARAMETER_NUMBER_MSB {
                    self.process_number_msb(control_value, true)
                } else if controller_number == DATA_ENTRY_MSB_LSB {
                    self.process_value_lsb(control_value)
                } else if controller_number == DATA_ENTRY_MSB {
                    self.process_value_msb(channel, control_value)
                } else {
                    None
                }
            },
            _ => None,
        }
    }

    /// Forgets what has been seen.
    fn reset(&mut self)
        ensures
            final(self)@ == ScannerForOneChannelView::empty(),
    {
        self.number_msb = None;
        self.number_lsb = None;
        self.is_registered = false;
        self.reset_value();
    }

    /// Takes in the least significant half of a parameter number.
    fn process_number_lsb(&mut self, number_lsb: U7, is_registered: bool) -> (result: Option<
        ParameterNumberMessage,
    >)
        ensures
            final(self)@ == old(self)@.process_number_lsb(number_lsb@, is_registered),
            result is None,
    {
        self.reset_value();
        self.number_lsb = Some(number_lsb);
        self.is_registered = is_registered;
        None
    }

    /// Takes in the most significant half of a parameter number.
    fn process_number_msb(&mut self, number_msb: U7, is_registered: bool) -> (result: Option<
        ParameterNumberMessage,
    >)
        ensures
            final(self)@ == old(self)@.process_number_msb(number_msb@, is_registered),
            result is None,
    {
        self.reset_value();
        self.number_msb = Some(number_msb);
        self.is_registered = is_registered;
        None
    }

    /// Takes in the least significant half of a value.
    fn process_value_lsb(&mut self, value_lsb: U7) -> (result: Option<ParameterNumberMessage>)
        ensures
            final(self)@ == old(self)@.process_value_lsb(value_lsb@),
            result is None,
    {
        self.value_lsb = Some(value_lsb);
        None
    }

    /// Takes in the most significant half of a value, which completes a
    /// message if both halves of the number have been seen. What has been seen
    /// stays as it is.
    fn process_value_msb(&mut self, channel: Channel, value_msb: U7) -> (result: Option<
        ParameterNumberMessage,
    >)
        ensures
            final(self)@ == old(self)@,
            option_view(result) == old(self)@.process_value_msb(channel@, value_msb@),
    {
        let number_lsb = self.number_lsb?;
        let number_msb = self.number_msb?;
        let number = build_14_bit_value_from_two_7_bit_values(number_msb, number_lsb);
        let msg = if self.is_registered {
            match self.value_lsb {
                Some(value_lsb) => ParameterNumberMessage::registered_14_bit(
                    channel,
                    number,
                    build_14_bit_value_from_two_7_bit_values(value_msb, value_lsb),
                ),
                None => ParameterNumberMessage::registered_7_bit(channel, number, value_msb),
            }
        } else {
            match self.value_lsb {
                Some(value_lsb) => ParameterNumberMessage::non_registered_14_bit(
                    channel,
                    number,
                    build_14_bit_value_from_two_7_bit_values(value_msb, value_lsb),
                ),
                None => ParameterNumberMessage::non_registered_7_bit(channel, number, value_msb),
            }
        };
        Some(msg)
    }

    /// Forgets the least significant half of a value.
    fn reset_value(&mut self)
        ensures
            final(self)@ == (ScannerForOneChannelView { value_lsb: None, ..old(self)@ }),
    {
        self.value_lsb = None;
    }
}

/// Scans a stream of short messages for parameter-number messages.
///
/// Each of the 16 channels is scanned on its own: what arrives on one channel
/// never changes what is remembered of another.
#[derive(Clone, Copy, PartialEq, Eq, Debug)]
pub struct ParameterNumberMessageScanner {
    scanner_by_channel: [ScannerForOneChannel; 16],
}

impl View for ParameterNumberMessageScanner {
    type V = ParameterNumberMessageScannerView;

    closed spec fn view(&self) -> ParameterNumberMessageScannerView {
        ParameterNumberMessageScannerView {
            channels: Seq::new(16, |i: int| self.scanner_by_channel[i]@),
        }
    }
}

impl ParameterNumberMessageScanner {
    /// A scanner that has seen nothing on any channel.
    pub fn new() -> (r: ParameterNumberMessageScanner)
        ensures
            r@ == ParameterNumberMessageScannerView::fresh(),
    {
        let r = ParameterNumberMessageScanner {
            scanner_by_channel: [ScannerForOneChannel::new();16],
        };
        assert(r@.channels =~= ParameterNumberMessageScannerView::fresh().channels);
        r
    }

    /// Feeds the scanner one message and returns the parameter-number message
    /// that it completes, if it completes one.
    pub fn feed(&mut self, msg: &impl ShortMessage) -> (result: Option<ParameterNumberMessage>)
        ensures
            final(self)@ == old(self)@.feed(msg.structured()),
            option_view(result) == old(self)@.completes(msg.structured()),
    {
        let channel = msg.channel()?;
        let i: usize = channel.get() as usize;
        let result = self.scanner_by_channel[i].feed(msg);
        assert(self@.channels =~= old(self)@.feed(msg.structured()).channels);
        result
    }

    /// Forgets what has been seen, on every channel.
    pub fn reset(&mut self)
        ensures
            final(self)@ == old(self)@.reset(),
    {
        for i in 0..16
            invariant
                forall|j: int| 0 <= j < i ==> (#[trigger] self.scanner_by_channel[j])@
                    == ScannerForOneChannelView::empty(),
        {
            self.scanner_by_channel[i].reset();
        }
        assert(self@.channels =~= ParameterNumberMessageScannerView::fresh().channels);
    }

    /// A scanner always has its 16 channels.
    pub proof fn lemma_view_wf(&self)
        ensures
            self@.wf(),
    {
    }
}

impl Default for ParameterNumberMessageScanner {
    /// A scanner that has seen nothing on any channel.
    fn default() -> (r: ParameterNumberMessageScanner)
        ensures
            r@ == ParameterNumberMessageScannerView::fresh(),
    {
        ParameterNumberMessageScanner::new()
    }
}

/// The messages of `completed` that are for `channel`, in their order.
pub open spec fn completed_on_channel(
    completed: Seq<ParameterNumberMessageView>,
    channel: nat,
) -> Seq<ParameterNumberMessageView> {
    completed.filter(|message: ParameterNumberMessageView| message.channel == channel)
}

/// The channels do not disturb one another. Take any stream of messages and
/// any channel. Feeding the scanner only the messages of that channel
/// completes the same messages, in the same order, as the whole stream
/// completes for that channel, and leaves the same remembered of that channel.
///
/// So a stream that interleaves two channels completes, for each of them, what
/// that channel's messages alone would complete.
pub proof fn lemma_channels_are_independent(
    scanner: ParameterNumberMessageScannerView,
    msgs: Seq<StructuredShortMessageView>,
    channel: nat,
)
    requires
        scanner.wf(),
        channel < 16,
        forall|i: int| 0 <= i < msgs.len() ==> (#[trigger] msgs[i]).channel_in_range(),
    ensures
        scanner.run(msgs).0.wf(),
        scanner.run(on_channel(msgs, channel)).0.wf(),
        scanner.run(on_channel(msgs, channel)).0.channels[channel as int] == scanner.run(
            msgs,
        ).0.channels[channel as int],
        scanner.run(on_channel(msgs, channel)).1 == completed_on_channel(
            scanner.run(msgs).1,
            channel,
        ),
    decreases msgs.len(),
{
    reveal(Seq::filter);
    if msgs.len() > 0 {
        let earlier = msgs.drop_last();
        let last = msgs.last();
        lemma_channels_are_independent(scanner, earlier, channel);
        assert(last.channel_in_range());
        let (before, completed) = scanner.run(earlier);
        if let Some(message) = before.completes(last) {
            assert(completed.push(message).drop_last() =~= completed);
        }
        if last.channel() == Some(channel) {
            let alone = on_channel(earlier, channel);
            assert(on_channel(msgs, channel) == alone.push(last));
            assert(alone.push(last).drop_last() =~= alone);
        }
    }
}

/// Nothing is completed out of thin air: every message that a stream
/// completes is for the channel of one of the stream's messages. Together
/// with [`lemma_channels_are_independent`] this says that what a stream
/// completes is what its channels complete alone, neither more nor less.
pub proof fn lemma_completed_messages_are_on_fed_channels(
    scanner: ParameterNumberMessageScannerView,
    msgs: Seq<StructuredShortMessageView>,
    k: int,
)
    requires
        0 <= k < scanner.run(msgs).1.len(),
    ensures
        exists|i: int|
            0 <= i < msgs.len() && (#[trigger] msgs[i]).channel() == Some(
                scanner.run(msgs).1[k].channel,
            ),
    decreases msgs.len(),
{
    if msgs.len() > 0 {
        let earlier = msgs.drop_last();
        let last = msgs.last();
        let (before, completed) = scanner.run(earlier);
        if k < completed.len() {
            lemma_completed_messages_are_on_fed_channels(scanner, earlier, k);
            let i = choose|i: int|
                0 <= i < earlier.len() && (#[trigger] earlier[i]).channel() == Some(
                    completed[k].channel,
                );
            assert(msgs[i] == earlier[i]);
        } else {
            assert(msgs[msgs.len() - 1] == last);
        }
    }
}

/// Two channels in one stream. Where every message of `msgs` is on one of two
/// different channels, the stream completes for each of the two what that
/// channel's messages complete alone, in the same order, and it completes
/// nothing else.
pub proof fn lemma_interleaved_channels(
    scanner: ParameterNumberMessageScannerView,
    msgs: Seq<StructuredShortMessageView>,
    first: nat,
    second: nat,
)
    requires
        scanner.wf(),
        first < 16,
        second < 16,
        first != second,
        forall|i: int|
            0 <= i < msgs.len() ==> ((#[trigger] msgs[i]).channel() == Some(first)
                || msgs[i].channel() == Some(second)),
    ensures
        completed_on_channel(scanner.run(msgs).1, first) == scanner.run(on_channel(msgs, first)).1,
        completed_on_channel(scanner.run(msgs).1, second) == scanner.run(
            on_channel(msgs, second),
        ).1,
        forall|k: int|
            0 <= k < scanner.run(msgs).1.len() ==> ((#[trigger] scanner.run(msgs).1[k]).channel
                == first || scanner.run(msgs).1[k].channel == second),
{
    lemma_channels_are_independent(scanner, msgs, first);
    lemma_channels_are_independent(scanner, msgs, second);
    assert forall|k: int| 0 <= k < scanner.run(msgs).1.len() implies ((#[trigger] scanner.run(
        msgs,
    ).1[k]).channel == first || scanner.run(msgs).1[k].channel == second) by {
        lemma_completed_messages_are_on_fed_channels(scanner, msgs, k);
    }
}

/// Feeding one more message after `msgs` is one more step after running
/// `msgs`.
pub proof fn lemma_run_push(
    scanner: ParameterNumberMessageScannerView,
    msgs: Seq<StructuredShortMessageView>,
    msg: StructuredShortMessageView,
)
    ensures
        scanner.run(msgs.push(msg)).0 == scanner.run(msgs).0.feed(msg),
        scanner.run(msgs.push(msg)).1 == (match scanner.run(msgs).0.completes(msg) {
            Some(message) => scanner.run(msgs).1.push(message),
            None => scanner.run(msgs).1,
        }),
{
    assert(msgs.push(msg).drop_last() =~= msgs);
}

/// What the encoder sends, the scanner puts together again. Whatever the
/// scanner remembers, feeding it the control-change messages of a valid
/// parameter-number message, in their order, completes exactly that message,
/// and completes it with the last of them.
pub proof fn lemma_short_messages_complete_the_message(
    scanner: ParameterNumberMessageScannerView,
    msg: ParameterNumberMessageView,
)
    requires
        scanner.wf(),
        msg.is_valid(),
    ensures
        scanner.run(msg.short_messages().drop_last()).1 == Seq::<
            ParameterNumberMessageView,
        >::empty(),
        scanner.run(msg.short_messages()).1 == seq![msg],
{
    lemma_join_of_halves(msg.number);
    lemma_join_of_halves(msg.value);
    let none = Seq::<StructuredShortMessageView>::empty();
    let one = none.push(msg.number_msb_message());
    let two = one.push(msg.number_lsb_message());
    lemma_run_push(scanner, none, msg.number_msb_message());
    lemma_run_push(scanner, one, msg.number_lsb_message());
    if msg.is_14_bit {
        let three = two.push(msg.value_lsb_message());
        let four = three.push(msg.value_msb_message());
        lemma_run_push(scanner, two, msg.value_lsb_message());
        lemma_run_push(scanner, three, msg.value_msb_message());
        assert(msg.short_messages() =~= four);
        assert(msg.short_messages().drop_last() =~= three);
        assert(scanner.run(four).1 =~= seq![msg]);
    } else {
        let three = two.push(msg.value_msb_message());
        lemma_run_push(scanner, two, msg.value_msb_message());
        assert(msg.short_messages() =~= three);
        assert(msg.short_messages().drop_last() =~= two);
        assert(scanner.run(three).1 =~= seq![msg]);
    }
}

/// The round trip: a scanner that has seen nothing, fed the control-change
/// messages of a valid parameter-number message, completes exactly that
/// message.
pub proof fn lemma_round_trip(msg: ParameterNumberMessageView)
    requires
        msg.is_valid(),
    ensures
        ParameterNumberMessageScannerView::fresh().run(msg.short_messages()).1 == seq![msg],
{
    lemma_short_messages_complete_the_message(ParameterNumberMessageScannerView::fresh(), msg);
}

/// A completed message leaves everything as it was: the parameter number
/// stays, and so does the least significant half of the value if there was
/// one. One more value on controller 6 then completes one more message for
/// the same parameter.
pub proof fn lemma_completion_keeps_the_number(
    scanner: ParameterNumberMessageScannerView,
    msg: StructuredShortMessageView,
)
    requires
        scanner.wf(),
        msg.channel_in_range(),
        scanner.completes(msg) is Some,
    ensures
        scanner.feed(msg) == scanner,
{
    assert(scanner.feed(msg).channels =~= scanner.channels);
}

/// A reset forgets every half sequence. Whatever was remembered before, after
/// a reset no single message completes anything, and the control-change
/// messages of a valid parameter-number message complete exactly that
/// message.
pub proof fn lemma_reset_starts_anew(
    scanner: ParameterNumberMessageScannerView,
    single: StructuredShortMessageView,
    msg: ParameterNumberMessageView,
)
    requires
        single.channel_in_range(),
        msg.is_valid(),
    ensures
        scanner.reset() == ParameterNumberMessageScannerView::fresh(),
        scanner.reset().completes(single) is None,
        scanner.reset().run(msg.short_messages()).1 == seq![msg],
{
    lemma_round_trip(msg);
}

} // verus!
