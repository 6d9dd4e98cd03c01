//! The duplex bridge: an input-side proxy and an output-side callback joined by
//! a rate-converting hand-off channel, with two mailboxes for control.
//!
//! The output side tells the input side its sample rate through one mailbox;
//! the input side answers with the consumer end of a freshly built hand-off
//! channel through the other. The hand-off channel and the sample storage are
//! generic here: this module holds the decisions and the ownership transfers,
//! not the audio samples themselves.
use crate::config::{StreamConfig, MAX_CHANNELS};
use crate::mailbox::{mailbox, MailboxReceiver, MailboxSender};
use crate::stream::{AudioInputDevice, AudioOutputDevice, AudioStreamHandle};
use vstd::prelude::*;

verus! {

/// Frames per chunk when captured audio is copied into interleaved form.
pub const CHUNK_FRAMES: usize = 32;

/// Scratch length, in samples, that one interleaved chunk may need.
pub const CHUNK_SAMPLES: usize = CHUNK_FRAMES * MAX_CHANNELS;

/// What the input side does after polling for a new target sample rate.
#[derive(Clone, Copy, Debug, PartialEq, Eq, Structural)]
pub enum RateChange {
    /// No new target rate arrived: keep the current hand-off channel.
    Unchanged,
    /// A target rate arrived but the input stream has no channels: skip this cycle.
    NoInputChannels,
    /// A target rate arrived but it, or the input rate, is zero: skip this cycle.
    ZeroSampleRate,
    /// Build a hand-off channel with these parameters and install it.
    Rebuild { num_channels: usize, input_samplerate: u32, output_samplerate: u32 },
}

/// The decision that a polled target rate leads to.
pub open spec fn rate_change_spec(target: Option<u32>, num_channels: usize, input_samplerate: u32) -> RateChange {
    match target {
        None => RateChange::Unchanged,
        Some(output_samplerate) => if num_channels == 0 {
            RateChange::NoInputChannels
        } else if input_samplerate == 0 || output_samplerate == 0 {
            RateChange::ZeroSampleRate
        } else {
            RateChange::Rebuild { num_channels, input_samplerate, output_samplerate }
        },
    }
}

/// Decides what a polled target rate leads to on the input side.
pub fn plan_rate_change(target: Option<u32>, num_channels: usize, input_samplerate: u32) -> (r: RateChange)
    ensures
        r == rate_change_spec(target, num_channels, input_samplerate),
{
    match target {
        None => RateChange::Unchanged,
        Some(output_samplerate) => {
            if num_channels == 0 {
                RateChange::NoInputChannels
            } else if input_samplerate == 0 || output_samplerate == 0 {
                RateChange::ZeroSampleRate
            } else {
                RateChange::Rebuild { num_channels, input_samplerate, output_samplerate }
            }
        },
    }
}

/// Output rates of the hand-off channels that the input side decides to
/// build over a run of cycles that polled `targets`, in order.
pub open spec fn rebuilt_rates(targets: Seq<Option<u32>>, num_channels: usize, input_samplerate: u32) -> Seq<u32>
    decreases targets.len(),
{
    if targets.len() == 0 {
        Seq::empty()
    } else {
        let earlier = rebuilt_rates(targets.drop_last(), num_channels, input_samplerate);
        match rate_change_spec(targets.last(), num_channels, input_samplerate) {
            RateChange::Rebuild { output_samplerate, .. } => earlier.push(output_samplerate),
            _ => earlier,
        }
    }
}

/// The target rates that arrived over a run of polls, in order.
pub open spec fn delivered_rates(targets: Seq<Option<u32>>) -> Seq<u32>
    decreases targets.len(),
{
    if targets.len() == 0 {
        Seq::empty()
    } else {
        let earlier = delivered_rates(targets.drop_last());
        match targets.last() {
            Some(rate) => earlier.push(rate),
            None => earlier,
        }
    }
}

/// With input channels present and positive sample rates, the input side
/// builds exactly one hand-off channel per target rate that arrives, for that
/// rate and in arrival order; without channels it builds none.
pub proof fn lemma_one_channel_per_target(targets: Seq<Option<u32>>, num_channels: usize, input_samplerate: u32)
    ensures
        num_channels > 0 && input_samplerate > 0 && (forall|i: int|
            0 <= i < targets.len() && #[trigger] targets[i] is Some ==> targets[i]->0 > 0)
            ==> rebuilt_rates(targets, num_channels, input_samplerate) == delivered_rates(targets),
        num_channels == 0 ==> rebuilt_rates(targets, num_channels, input_samplerate).len() == 0,
    decreases targets.len(),
{
    if targets.len() > 0 {
        let earlier = targets.drop_last();
        lemma_one_channel_per_target(earlier, num_channels, input_samplerate);
        if forall|i: int| 0 <= i < targets.len() && #[trigger] targets[i] is Some ==> targets[i]->0 > 0 {
            assert forall|i: int| 0 <= i < earlier.len() && #[trigger] earlier[i] is Some implies earlier[i]->0 > 0 by {
                assert(earlier[i] == targets[i]);
            }
            assert(targets.last() == targets[targets.len() - 1]);
        }
    }
}

/// Length, in frames, of the chunk that starts at frame `start` of a capture
/// of `num_frames` frames.
pub open spec fn chunk_len_spec(num_frames: nat, start: nat) -> nat {
    if num_frames - start < CHUNK_FRAMES {
        (num_frames - start) as nat
    } else {
        CHUNK_FRAMES as nat
    }
}

/// Frames in the chunk that starts at `start`: at most `CHUNK_FRAMES`, never
/// past the end of the capture.
pub fn chunk_len(num_frames: usize, start: usize) -> (r: usize)
    requires
        start < num_frames,
    ensures
        r == chunk_len_spec(num_frames as nat, start as nat),
        0 < r <= CHUNK_FRAMES,
        start + r <= num_frames,
{
    if num_frames - start < CHUNK_FRAMES {
        num_frames - start
    } else {
        CHUNK_FRAMES
    }
}

/// Samples that a chunk of `frames` frames of `num_channels` channels takes
/// once interleaved; it always fits the chunk scratch.
pub fn chunk_samples(frames: usize, num_channels: usize) -> (r: usize)
    requires
        frames <= CHUNK_FRAMES,
        num_channels <= MAX_CHANNELS,
    ensures
        r == frames * num_channels,
        r <= CHUNK_SAMPLES,
{
    proof {
        assert(frames * num_channels <= CHUNK_FRAMES * MAX_CHANNELS) by (nonlinear_arith)
            requires
                frames <= CHUNK_FRAMES,
                num_channels <= MAX_CHANNELS,
        ;
    }
    frames * num_channels
}

/// Input-side proxy: receives target sample rates, owns the producer end of
/// the current hand-off channel and publishes the matching consumer end.
#[verifier::reject_recursive_types(Producer)]
#[verifier::reject_recursive_types(Consumer)]
pub struct InputProxy<Producer, Consumer> {
    producer: Option<Producer>,
    receive_output_samplerate: MailboxReceiver<u32>,
    send_consumer: MailboxSender<Consumer>,
}

impl<Producer, Consumer> InputProxy<Producer, Consumer> {
    /// The producer end of the hand-off channel currently in use, if any.
    pub closed spec fn producer_spec(&self) -> Option<Producer> {
        self.producer
    }

    /// Target sample rates taken from the output side so far, oldest first.
    pub closed spec fn rates_received(&self) -> Seq<u32> {
        self.receive_output_samplerate.received()
    }

    /// Consumer ends handed to the output side so far, oldest first.
    pub closed spec fn consumers_sent(&self) -> Seq<Consumer> {
        self.send_consumer.sent()
    }

    /// Creates a proxy with no hand-off channel yet, together with the
    /// output side's ends of the two mailboxes: the sender of target sample
    /// rates and the receiver of consumer ends.
    pub fn new() -> (r: (Self, MailboxSender<u32>, MailboxReceiver<Consumer>))
        ensures
            r.0.producer_spec() is None,
            r.0.rates_received() == Seq::<u32>::empty(),
            r.0.consumers_sent() == Seq::<Consumer>::empty(),
            r.1.sent() == Seq::<u32>::empty(),
            r.2.received() == Seq::<Consumer>::empty(),
    {
        let (send_consumer, receive_consumer) = mailbox();
        let (produce_output_samplerate, receive_output_samplerate) = mailbox();
        (
            InputProxy { producer: None, receive_output_samplerate, send_consumer },
            produce_output_samplerate,
            receive_consumer,
        )
    }

    /// Polls, without blocking, for a new target sample rate and decides what
    /// the cycle does with it. The current channel is left in place.
    pub fn poll_rate_change(&mut self, num_channels: usize, input_samplerate: u32) -> (r: RateChange)
        ensures
            final(self).producer_spec() == old(self).producer_spec(),
            final(self).consumers_sent() == old(self).consumers_sent(),
            final(self).rates_received() == old(self).rates_received() && r == rate_change_spec(
                None,
                num_channels,
                input_samplerate,
            ) || final(self).rates_received().len() > 0 && final(self).rates_received()
                == old(self).rates_received().push(final(self).rates_received().last()) && r
                == rate_change_spec(Some(final(self).rates_received().last()), num_channels, input_samplerate),
    {
        let target = self.receive_output_samplerate.try_receive();
        plan_rate_change(target, num_channels, input_samplerate)
    }

    /// Installs a new hand-off channel: keeps its producer end, dropping the
    /// previous one, and offers its consumer end to the output side. When the
    /// output side has not taken the previous consumer yet, the new one is
    /// handed back.
    pub fn install_channel(&mut self, producer: Producer, consumer: Consumer) -> (r: Result<(), Consumer>)
        ensures
            final(self).producer_spec() == Some(producer),
            final(self).rates_received() == old(self).rates_received(),
            r is Ok ==> final(self).consumers_sent() == old(self).consumers_sent().push(consumer),
            r matches Err(c) ==> c == consumer && final(self).consumers_sent() == old(self).consumers_sent(),
    {
        self.producer = Some(producer);
        self.send_consumer.send(consumer)
    }

    /// Mutable access to the producer end of the current hand-off channel.
    pub fn producer_mut(&mut self) -> (r: &mut Option<Producer>)
        ensures
            *r == old(self).producer_spec(),
            final(self).producer_spec() == *final(r),
            final(self).rates_received() == old(self).rates_received(),
            final(self).consumers_sent() == old(self).consumers_sent(),
    {
        &mut self.producer
    }
}

/// Errors of building or tearing down a duplex stream.
#[derive(Debug)]
pub enum DuplexCallbackError<InputError, OutputError> {
    /// The input stream has no channels.
    NoInputChannels,
    /// An error occurred in the input stream.
    InputError(InputError),
    /// An error occurred in the output stream.
    OutputError(OutputError),
    /// An error that doesn't fit into other categories, by its description.
    Other(String),
}

/// The sample rate the output side holds as published after offering
/// `samplerate` while holding `current`: it changes only on a successful send.
pub open spec fn rate_after_offer(current: u32, samplerate: u32, sent: bool) -> u32 {
    if sent {
        samplerate
    } else {
        current
    }
}

/// The rate the output side holds as published after offering each rate of
/// `rates` in turn from `start`, when every send goes through.
pub open spec fn published_after(start: u32, rates: Seq<u32>) -> u32
    decreases rates.len(),
{
    if rates.len() == 0 {
        start
    } else {
        let current = published_after(start, rates.drop_last());
        rate_after_offer(current, rates.last(), current != rates.last())
    }
}

/// How many rates the output side sends while offering each rate of `rates`
/// in turn from `start`, when every send goes through.
pub open spec fn rate_sends(start: u32, rates: Seq<u32>) -> nat
    decreases rates.len(),
{
    if rates.len() == 0 {
        0
    } else {
        let current = published_after(start, rates.drop_last());
        rate_sends(start, rates.drop_last()) + if current != rates.last() {
            1nat
        } else {
            0nat
        }
    }
}

/// How many times the rate in `rates` differs from the one before it, the
/// first being compared with `start`.
pub open spec fn rate_changes(start: u32, rates: Seq<u32>) -> nat
    decreases rates.len(),
{
    if rates.len() == 0 {
        0
    } else {
        let previous = if rates.len() == 1 {
            start
        } else {
            rates[rates.len() - 2]
        };
        rate_changes(start, rates.drop_last()) + if previous != rates.last() {
            1nat
        } else {
            0nat
        }
    }
}

proof fn lemma_published_after_is_last(start: u32, rates: Seq<u32>)
    ensures
        published_after(start, rates) == if rates.len() == 0 {
            start
        } else {
            rates.last()
        },
    decreases rates.len(),
{
    if rates.len() > 0 {
        lemma_published_after_is_last(start, rates.drop_last());
    }
}

/// Each change of the output sample rate is sent to the input side exactly
/// once: over any run of output cycles whose sends go through, the number of
/// rates sent equals the number of rate changes.
pub proof fn lemma_one_send_per_rate_change(start: u32, rates: Seq<u32>)
    ensures
        rate_sends(start, rates) == rate_changes(start, rates),
    decreases rates.len(),
{
    if rates.len() > 0 {
        let init = rates.drop_last();
        lemma_one_send_per_rate_change(start, init);
        lemma_published_after_is_last(start, init);
        if rates.len() > 1 {
            assert(init.last() == rates[rates.len() - 2]);
        }
    }
}

/// A steady output sample rate is sent to the input side at most once, and
/// not at all when it is already the published one, over any run of output
/// cycles whose sends go through.
pub proof fn lemma_steady_rate_sent_at_most_once(start: u32, rates: Seq<u32>, rate: u32)
    requires
        forall|i: int| 0 <= i < rates.len() ==> rates[i] == rate,
    ensures
        rate_sends(start, rates) <= 1,
        start == rate ==> rate_sends(start, rates) == 0,
{
    lemma_one_send_per_rate_change(start, rates);
    lemma_steady_rate_changes(start, rates, rate);
}

proof fn lemma_steady_rate_changes(start: u32, rates: Seq<u32>, rate: u32)
    requires
        forall|i: int| 0 <= i < rates.len() ==> rates[i] == rate,
    ensures
        rate_changes(start, rates) <= 1,
        start == rate ==> rate_changes(start, rates) == 0,
        rates.len() == 0 ==> rate_changes(start, rates) == 0,
    decreases rates.len(),
{
    if rates.len() > 0 {
        let init = rates.drop_last();
        lemma_steady_rate_changes(start, init, rate);
        if rates.len() > 1 {
            assert(rates[rates.len() - 2] == rate);
        }
    }
}

/// The smaller of two frame counts.
pub open spec fn min_frames(a: usize, b: usize) -> usize {
    if a < b {
        a
    } else {
        b
    }
}

/// Output-side callback: publishes its sample rate, adopts hand-off channels
/// and reads converted input into storage before running the user callback.
///
/// `Storage` holds `storage_frames` frames of input; the hand-off channel's
/// consumer end is a `Consumer`.
#[verifier::reject_recursive_types(Consumer)]
pub struct DuplexCallback<Callback, Consumer, Storage> {
    input: Option<Consumer>,
    receive_consumer: MailboxReceiver<Consumer>,
    send_samplerate: MailboxSender<u32>,
    callback: Callback,
    storage: Storage,
    storage_frames: usize,
    current_samplerate: u32,
}

impl<Callback, Consumer, Storage> DuplexCallback<Callback, Consumer, Storage> {
    /// The hand-off channel's consumer end currently in use, if any.
    pub closed spec fn input_spec(&self) -> Option<Consumer> {
        self.input
    }

    /// The user's callback.
    pub closed spec fn callback_spec(&self) -> Callback {
        self.callback
    }

    /// The storage for input frames.
    pub closed spec fn storage_spec(&self) -> Storage {
        self.storage
    }

    /// Frames the storage holds.
    pub closed spec fn storage_frames_spec(&self) -> usize {
        self.storage_frames
    }

    /// The last sample rate successfully published to the input side; zero
    /// before the first.
    pub closed spec fn current_samplerate_spec(&self) -> u32 {
        self.current_samplerate
    }

    /// Sample rates sent to the input side so far, oldest first.
    pub closed spec fn rates_sent(&self) -> Seq<u32> {
        self.send_samplerate.sent()
    }

    /// Consumer ends taken from the input side so far, oldest first.
    pub closed spec fn consumers_received(&self) -> Seq<Consumer> {
        self.receive_consumer.received()
    }

    /// Creates the callback with no hand-off channel and no published rate.
    pub fn new(
        receive_consumer: MailboxReceiver<Consumer>,
        send_samplerate: MailboxSender<u32>,
        callback: Callback,
        storage: Storage,
        storage_frames: usize,
    ) -> (r: Self)
        ensures
            r.input_spec() is None,
            r.callback_spec() == callback,
            r.storage_spec() == storage,
            r.storage_frames_spec() == storage_frames,
            r.current_samplerate_spec() == 0,
            r.rates_sent() == send_samplerate.sent(),
            r.consumers_received() == receive_consumer.received(),
    {
        DuplexCallback {
            input: None,
            receive_consumer,
            send_samplerate,
            callback,
            storage,
            storage_frames,
            current_samplerate: 0,
        }
    }

    /// Creates the callback for an input stream configured as `input_config`:
    /// its storage holds the input's sample rate in frames, the most that one
    /// output cycle can take.
    pub fn for_input_config(
        receive_consumer: MailboxReceiver<Consumer>,
        send_samplerate: MailboxSender<u32>,
        callback: Callback,
        storage: Storage,
        input_config: StreamConfig,
    ) -> (r: Self)
        ensures
            r.input_spec() is None,
            r.callback_spec() == callback,
            r.storage_spec() == storage,
            r.storage_frames_spec() == input_config.samplerate as usize,
            r.current_samplerate_spec() == 0,
            r.rates_sent() == send_samplerate.sent(),
            r.consumers_received() == receive_consumer.received(),
    {
        DuplexCallback::new(
            receive_consumer,
            send_samplerate,
            callback,
            storage,
            input_config.samplerate as usize,
        )
    }

    /// Publishes the output sample rate to the input side when it differs
    /// from the last one published. Returns whether it was sent; a full
    /// mailbox leaves the published rate as it was, to be retried.
    pub fn update_samplerate(&mut self, samplerate: u32) -> (sent: bool)
        ensures
            sent ==> old(self).current_samplerate_spec() != samplerate,
            final(self).current_samplerate_spec() == rate_after_offer(
                old(self).current_samplerate_spec(),
                samplerate,
                sent,
            ),
            sent ==> final(self).rates_sent() == old(self).rates_sent().push(samplerate),
            !sent ==> final(self).rates_sent() == old(self).rates_sent(),
            final(self).consumers_received() == old(self).consumers_received(),
            final(self).input_spec() == old(self).input_spec(),
            final(self).callback_spec() == old(self).callback_spec(),
            final(self).storage_spec() == old(self).storage_spec(),
            final(self).storage_frames_spec() == old(self).storage_frames_spec(),
    {
        if samplerate != self.current_samplerate {
            match self.send_samplerate.send(samplerate) {
                Ok(()) => {
                    self.current_samplerate = samplerate;
                    true
                },
                Err(_) => false,
            }
        } else {
            false
        }
    }

    /// Adopts `received`, when there is one, as the hand-off channel in use,
    /// dropping the previous one with its unread frames. Returns whether it
    /// adopted one.
    pub fn adopt_input(&mut self, received: Option<Consumer>) -> (adopted: bool)
        ensures
            adopted == received is Some,
            final(self).input_spec() == if received is Some {
                received
            } else {
                old(self).input_spec()
            },
            final(self).rates_sent() == old(self).rates_sent(),
            final(self).consumers_received() == old(self).consumers_received(),
            final(self).current_samplerate_spec() == old(self).current_samplerate_spec(),
            final(self).callback_spec() == old(self).callback_spec(),
            final(self).storage_spec() == old(self).storage_spec(),
            final(self).storage_frames_spec() == old(self).storage_frames_spec(),
    {
        match received {
            Some(consumer) => {
                self.input = Some(consumer);
                true
            },
            None => false,
        }
    }

    /// Adopts a newly published hand-off channel, if one is waiting,
    /// dropping the one in use. Returns whether one was adopted.
    pub fn receive_input(&mut self) -> (adopted: bool)
        ensures
            adopted ==> final(self).consumers_received().len() > 0 && final(self).consumers_received()
                == old(self).consumers_received().push(final(self).consumers_received().last())
                && final(self).input_spec() == Some(final(self).consumers_received().last()),
            !adopted ==> final(self).consumers_received() == old(self).consumers_received()
                && final(self).input_spec() == old(self).input_spec(),
            final(self).rates_sent() == old(self).rates_sent(),
            final(self).current_samplerate_spec() == old(self).current_samplerate_spec(),
            final(self).callback_spec() == old(self).callback_spec(),
            final(self).storage_spec() == old(self).storage_spec(),
            final(self).storage_frames_spec() == old(self).storage_frames_spec(),
    {
        let received = self.receive_consumer.try_receive();
        self.adopt_input(received)
    }

    /// Frames to read this cycle when the output buffer takes `requested`
    /// frames and the hand-off channel has `available`: as many as both
    /// allow, never more than the storage holds.
    pub fn frames_to_read(&self, requested: usize, available: usize) -> (r: usize)
        ensures
            r == min_frames(requested, min_frames(available, self.storage_frames_spec())),
            r <= requested,
            r <= available,
            r <= self.storage_frames_spec(),
    {
        let supplied = if available < self.storage_frames {
            available
        } else {
            self.storage_frames
        };
        if requested < supplied {
            requested
        } else {
            supplied
        }
    }

    /// Mutable access to the consumer end, the user callback and the storage
    /// at once, for one cycle's audio work.
    pub fn parts_mut(&mut self) -> (r: (&mut Option<Consumer>, &mut Callback, &mut Storage))
        ensures
            *r.0 == old(self).input_spec(),
            *r.1 == old(self).callback_spec(),
            *r.2 == old(self).storage_spec(),
            final(self).input_spec() == *final(r.0),
            final(self).callback_spec() == *final(r.1),
            final(self).storage_spec() == *final(r.2),
            final(self).storage_frames_spec() == old(self).storage_frames_spec(),
            final(self).current_samplerate_spec() == old(self).current_samplerate_spec(),
            final(self).rates_sent() == old(self).rates_sent(),
            final(self).consumers_received() == old(self).consumers_received(),
    {
        (&mut self.input, &mut self.callback, &mut self.storage)
    }

    /// Consumes the callback and returns the user callback it wraps.
    pub fn into_inner(self) -> (r: Result<Callback, String>)
        ensures
            r == Ok::<Callback, String>(self.callback_spec()),
    {
        Ok(self.callback)
    }
}

/// An input-side outcome, its error tagged as an input-side error.
pub open spec fn input_side<T, InputError, OutputError>(r: Result<T, InputError>) -> Result<
    T,
    DuplexCallbackError<InputError, OutputError>,
> {
    match r {
        Ok(t) => Ok(t),
        Err(e) => Err(DuplexCallbackError::InputError(e)),
    }
}

/// An output-side outcome, its error tagged as an output-side error.
pub open spec fn output_side<T, InputError, OutputError>(r: Result<T, OutputError>) -> Result<
    T,
    DuplexCallbackError<InputError, OutputError>,
> {
    match r {
        Ok(t) => Ok(t),
        Err(e) => Err(DuplexCallbackError::OutputError(e)),
    }
}

/// Tags the error of an input stream's open or stop as input-side.
pub fn tag_input_error<T, InputError, OutputError>(r: Result<T, InputError>) -> (t: Result<
    T,
    DuplexCallbackError<InputError, OutputError>,
>)
    ensures
        t == input_side::<T, InputError, OutputError>(r),
{
    match r {
        Ok(v) => Ok(v),
        Err(e) => Err(DuplexCallbackError::InputError(e)),
    }
}

/// Tags the error of an output stream's open or stop as output-side.
pub fn tag_output_error<T, InputError, OutputError>(r: Result<T, OutputError>) -> (t: Result<
    T,
    DuplexCallbackError<InputError, OutputError>,
>)
    ensures
        t == output_side::<T, InputError, OutputError>(r),
{
    match r {
        Ok(v) => Ok(v),
        Err(e) => Err(DuplexCallbackError::OutputError(e)),
    }
}

/// What tearing down gives once the input stream has stopped and the output
/// stream stopped with `stopped_output`.
pub open spec fn teardown_result<Callback, Consumer, Storage, InputError, OutputError>(
    stopped_output: Result<DuplexCallback<Callback, Consumer, Storage>, OutputError>,
) -> Result<Callback, DuplexCallbackError<InputError, OutputError>> {
    match stopped_output {
        Ok(dc) => Ok(dc.callback_spec()),
        Err(e) => Err(DuplexCallbackError::OutputError(e)),
    }
}

/// The last step of tearing down, once the input stream has stopped: the
/// user callback held by the stopped output stream's duplex callback, or the
/// output stream's stop error.
pub fn finish_teardown<Callback, Consumer, Storage, InputError, OutputError>(
    output: Result<DuplexCallback<Callback, Consumer, Storage>, OutputError>,
) -> (r: Result<Callback, DuplexCallbackError<InputError, OutputError>>)
    ensures
        r == teardown_result::<Callback, Consumer, Storage, InputError, OutputError>(output),
{
    match output {
        Err(e) => Err(DuplexCallbackError::OutputError(e)),
        Ok(duplex_callback) => match duplex_callback.into_inner() {
            Ok(callback) => Ok(callback),
            Err(description) => Err(DuplexCallbackError::Other(description)),
        },
    }
}

/// Whether `r` is what joining the open input stream `input_handle` with the
/// output stream's open result `opened_output` gives.
pub open spec fn joined<InputHandle, OutputHandle, InputError, OutputError>(
    r: Result<DuplexStreamHandle<InputHandle, OutputHandle>, DuplexCallbackError<InputError, OutputError>>,
    input_handle: InputHandle,
    opened_output: Result<OutputHandle, OutputError>,
) -> bool {
    match opened_output {
        Ok(output_handle) => r matches Ok(h) && h.input_handle_spec() == input_handle
            && h.output_handle_spec() == output_handle,
        Err(e) => r == Err::<
            DuplexStreamHandle<InputHandle, OutputHandle>,
            DuplexCallbackError<InputError, OutputError>,
        >(DuplexCallbackError::OutputError(e)),
    }
}

/// Whether `dc` is the duplex callback a stream with input configuration
/// `input_config` starts with, around `callback` and `storage`.
pub open spec fn fresh_duplex_callback<Callback, Consumer, Storage>(
    dc: DuplexCallback<Callback, Consumer, Storage>,
    callback: Callback,
    storage: Storage,
    input_config: StreamConfig,
) -> bool {
    &&& dc.input_spec() is None
    &&& dc.callback_spec() == callback
    &&& dc.storage_spec() == storage
    &&& dc.storage_frames_spec() == input_config.samplerate as usize
    &&& dc.current_samplerate_spec() == 0
    &&& dc.rates_sent() == Seq::<u32>::empty()
    &&& dc.consumers_received() == Seq::<Consumer>::empty()
}

/// A duplex stream: the input stream running the proxy and the output stream
/// running the duplex callback, stopped together by `eject`.
#[derive(Debug)]
pub struct DuplexStreamHandle<InputHandle, OutputHandle> {
    input_handle: InputHandle,
    output_handle: OutputHandle,
}

impl<InputHandle, OutputHandle> DuplexStreamHandle<InputHandle, OutputHandle> {
    /// The input stream's handle.
    pub closed spec fn input_handle_spec(&self) -> InputHandle {
        self.input_handle
    }

    /// The output stream's handle.
    pub closed spec fn output_handle_spec(&self) -> OutputHandle {
        self.output_handle
    }

    /// The last step of opening, once the input stream is open: a handle
    /// owning both streams, or the output stream's open error. The input
    /// stream is dropped with the error.
    pub fn join<InputError, OutputError>(
        input_handle: InputHandle,
        output: Result<OutputHandle, OutputError>,
    ) -> (r: Result<Self, DuplexCallbackError<InputError, OutputError>>)
        ensures
            joined(r, input_handle, output),
    {
        match output {
            Ok(output_handle) => Ok(DuplexStreamHandle { input_handle, output_handle }),
            Err(e) => Err(DuplexCallbackError::OutputError(e)),
        }
    }

    /// Stops the input stream, then the output stream, and returns the user
    /// callback. The first failure ends the teardown: a failure to stop the
    /// input stream is an input-side error and the output stream is not
    /// touched; a failure to stop the output stream is an output-side error.
    pub fn eject<Callback, Producer, Consumer, Storage>(self) -> (r: Result<
        Callback,
        DuplexCallbackError<InputHandle::Error, OutputHandle::Error>,
    >) where
        InputHandle: AudioStreamHandle<InputProxy<Producer, Consumer>>,
        OutputHandle: AudioStreamHandle<DuplexCallback<Callback, Consumer, Storage>>,

        ensures
            exists|stopped_input: Result<InputProxy<Producer, Consumer>, InputHandle::Error>|
                self.input_handle_spec().ejects_as(stopped_input) && if stopped_input is Err {
                    r == input_side::<Callback, InputHandle::Error, OutputHandle::Error>(
                        Err(stopped_input->Err_0),
                    )
                } else {
                    exists|
                        stopped_output: Result<
                            DuplexCallback<Callback, Consumer, Storage>,
                            OutputHandle::Error,
                        >,
                    |
                        self.output_handle_spec().ejects_as(stopped_output) && r == teardown_result::<
                            Callback,
                            Consumer,
                            Storage,
                            InputHandle::Error,
                            OutputHandle::Error,
                        >(stopped_output)
                },
    {
        let ghost handles = self;
        let stopped_input = self.input_handle.eject();
        let ghost stopped = stopped_input;
        match tag_input_error::<_, _, OutputHandle::Error>(stopped_input) {
            Err(e) => {
                proof {
                    assert(handles.input_handle_spec().ejects_as(stopped));
                }
                Err(e)
            },
            Ok(_) => {
                let stopped_output = self.output_handle.eject();
                let r = finish_teardown(stopped_output);
                proof {
                    assert(handles.output_handle_spec().ejects_as(stopped_output) && r
                        == teardown_result::<
                        Callback,
                        Consumer,
                        Storage,
                        InputHandle::Error,
                        OutputHandle::Error,
                    >(stopped_output));
                    assert(handles.input_handle_spec().ejects_as(stopped));
                }
                r
            },
        }
    }
}

/// Creates a duplex stream: an input stream on `input_device` running an
/// input proxy, and an output stream on `output_device` running a duplex
/// callback around `callback`.
///
/// `storage` receives the converted input frames each output cycle; it must
/// hold `input_config.channel_count()` channels of `input_config.samplerate`
/// frames, the most one cycle can need. A failure to open the input stream is
/// an input-side error; a failure to open the output stream is an output-side
/// error, and the input stream already opened is dropped with it.
pub fn create_duplex_stream<InputDevice, OutputDevice, Callback, Producer, Consumer, Storage>(
    input_device: InputDevice,
    input_config: StreamConfig,
    output_device: OutputDevice,
    output_config: StreamConfig,
    callback: Callback,
    storage: Storage,
) -> (r: Result<
    DuplexStreamHandle<InputDevice::StreamHandle, OutputDevice::StreamHandle>,
    DuplexCallbackError<InputDevice::Error, OutputDevice::Error>,
>) where
    InputDevice: AudioInputDevice<InputProxy<Producer, Consumer>>,
    OutputDevice: AudioOutputDevice<DuplexCallback<Callback, Consumer, Storage>>,

    ensures
        exists|
            proxy: InputProxy<Producer, Consumer>,
            opened_input: Result<InputDevice::StreamHandle, InputDevice::Error>,
        |
            {
                &&& proxy.producer_spec() is None
                &&& proxy.rates_received() == Seq::<u32>::empty()
                &&& proxy.consumers_sent() == Seq::<Consumer>::empty()
                &&& input_device.opens_as(input_config, proxy, opened_input)
                &&& if opened_input is Err {
                    r == Err::<
                        DuplexStreamHandle<InputDevice::StreamHandle, OutputDevice::StreamHandle>,
                        DuplexCallbackError<InputDevice::Error, OutputDevice::Error>,
                    >(DuplexCallbackError::InputError(opened_input->Err_0))
                } else {
                    exists|
                        dc: DuplexCallback<Callback, Consumer, Storage>,
                        opened_output: Result<OutputDevice::StreamHandle, OutputDevice::Error>,
                    |
                        fresh_duplex_callback(dc, callback, storage, input_config)
                            && output_device.opens_as(output_config, dc, opened_output) && joined(
                            r,
                            opened_input->Ok_0,
                            opened_output,
                        )
                }
            },
{
    let (proxy, send_samplerate, receive_consumer) = InputProxy::new();
    let ghost proxy_given = proxy;
    let opened_input = input_device.create_input_stream(input_config, proxy);
    let ghost opened = opened_input;
    let input_handle = match tag_input_error::<_, _, OutputDevice::Error>(opened_input) {
        Ok(handle) => handle,
        Err(e) => {
            proof {
                assert(input_device.opens_as(input_config, proxy_given, opened));
            }
            return Err(e);
        },
    };
    let duplex_callback = DuplexCallback::for_input_config(
        receive_consumer,
        send_samplerate,
        callback,
        storage,
        input_config,
    );
    let ghost dc_given = duplex_callback;
    let opened_output = output_device.create_output_stream(output_config, duplex_callback);
    let ghost opened_out = opened_output;
    let r = DuplexStreamHandle::join(input_handle, opened_output);
    proof {
        assert(fresh_duplex_callback(dc_given, callback, storage, input_config)
            && output_device.opens_as(output_config, dc_given, opened_out) && joined(
            r,
            opened->Ok_0,
            opened_out,
        ));
        assert(input_device.opens_as(input_config, proxy_given, opened));
    }
    r
}

} // verus!
