//! Cutting one stream of audio into utterances.
//!
//! A segmenter is idle or recording. While it records it collects samples;
//! when the speaker stops, what was collected is an utterance if it is
//! neither too short nor too long, and is thrown away otherwise.

use vstd::prelude::*;

verus! {

/// The duration of `samples` samples, at `channels` samples per frame and
/// `sample_rate` frames per second, is under `limit_ms` milliseconds.
///
/// The duration is `samples / channels / sample_rate` seconds; the
/// comparison is made without dividing.
pub open spec fn shorter_than(samples: nat, channels: u16, sample_rate: u32, limit_ms: u64) -> bool {
    samples * 1000 < limit_ms * channels * sample_rate
}

/// The duration of `samples` samples is over `limit_ms` milliseconds.
pub open spec fn longer_than(samples: nat, channels: u16, sample_rate: u32, limit_ms: u64) -> bool {
    samples * 1000 > limit_ms * channels * sample_rate
}

/// What became of the audio between two silences.
#[derive(Debug, Clone, PartialEq, Eq)]
pub enum Fragment<S> {
    /// Nothing was being recorded.
    Silence,
    /// The recording was under the minimal length and is gone.
    TooShort,
    /// The recording was over the maximal length and is gone.
    TooLong,
    /// An utterance: all samples of the recording, in order.
    Utterance(Vec<S>),
}

/// The verdict on a recording of the given samples under the given limits.
pub open spec fn judged<S>(
    buffer: Option<Seq<S>>,
    channels: u16,
    sample_rate: u32,
    min_ms: u64,
    max_ms: u64,
    fragment: Fragment<S>,
) -> bool {
    match buffer {
        None => fragment is Silence,
        Some(samples) => if shorter_than(samples.len(), channels, sample_rate, min_ms) {
            fragment is TooShort
        } else if longer_than(samples.len(), channels, sample_rate, max_ms) {
            fragment is TooLong
        } else {
            fragment matches Fragment::Utterance(v) && v@ == samples
        },
    }
}

/// The state of a segmenter, as far as its contracts go.
pub struct SinkState<S> {
    /// The samples recorded so far, or `None` when idle.
    pub buffer: Option<Seq<S>>,
    pub channels: u16,
    pub sample_rate: u32,
    /// The least length of an utterance, in milliseconds.
    pub min_ms: u64,
    /// The greatest length of an utterance, in milliseconds.
    pub max_ms: u64,
}

impl<S> SinkState<S> {
    /// The same segmenter with another buffer.
    pub open spec fn with_buffer(self, buffer: Option<Seq<S>>) -> Self {
        SinkState {
            buffer,
            channels: self.channels,
            sample_rate: self.sample_rate,
            min_ms: self.min_ms,
            max_ms: self.max_ms,
        }
    }

    /// The samples recorded so far; none when idle.
    pub open spec fn recorded(self) -> Seq<S> {
        match self.buffer {
            Some(b) => b,
            None => Seq::<S>::empty(),
        }
    }
}

/// The segmenter of one stream.
pub struct Sink<S> {
    minimal_fragment_length: u64,
    maximal_fragment_length: u64,
    channels: u16,
    sample_rate: u32,
    current_buffer: Option<Vec<S>>,
}

impl<S> View for Sink<S> {
    type V = SinkState<S>;

    closed spec fn view(&self) -> SinkState<S> {
        SinkState {
            buffer: match self.current_buffer {
                Some(b) => Some(b@),
                None => None,
            },
            channels: self.channels,
            sample_rate: self.sample_rate,
            min_ms: self.minimal_fragment_length,
            max_ms: self.maximal_fragment_length,
        }
    }
}

/// `limit_ms * channels * sample_rate`: a thousand times the number of
/// samples that last `limit_ms` milliseconds.
fn limit_scaled(channels: u16, sample_rate: u32, limit_ms: u64) -> (r: u128)
    ensures
        r == limit_ms * channels * sample_rate,
{
    assert(channels * sample_rate <= 0xffff * 0xffff_ffff) by (nonlinear_arith)
        requires
            channels <= 0xffff,
            sample_rate <= 0xffff_ffff,
    ;
    let frames: u64 = (channels as u64) * (sample_rate as u64);
    assert(limit_ms * frames <= 0xffff_ffff_ffff_ffff * 0xffff_ffff_ffff_ffff) by (nonlinear_arith)
        requires
            limit_ms <= 0xffff_ffff_ffff_ffff,
            frames <= 0xffff_ffff_ffff_ffff,
    ;
    assert(limit_ms * channels * sample_rate == limit_ms * frames) by (nonlinear_arith)
        requires
            frames == channels * sample_rate,
    ;
    (limit_ms as u128) * (frames as u128)
}

/// Whether the duration of `samples` samples is under `limit_ms`.
fn is_shorter(samples: usize, channels: u16, sample_rate: u32, limit_ms: u64) -> (r: bool)
    ensures
        r == shorter_than(samples as nat, channels, sample_rate, limit_ms),
{
    (samples as u128) * 1000 < limit_scaled(channels, sample_rate, limit_ms)
}

/// Whether the duration of `samples` samples is over `limit_ms`.
fn is_longer(samples: usize, channels: u16, sample_rate: u32, limit_ms: u64) -> (r: bool)
    ensures
        r == longer_than(samples as nat, channels, sample_rate, limit_ms),
{
    (samples as u128) * 1000 > limit_scaled(channels, sample_rate, limit_ms)
}

impl<S> Sink<S> {
    /// An idle segmenter for audio of `channels` samples per frame and
    /// `sample_rate` frames per second, which lets utterances of
    /// `minimal_fragment_length` to `maximal_fragment_length` milliseconds
    /// pass.
    pub fn new(
        minimal_fragment_length: u64,
        maximal_fragment_length: u64,
        channels: u16,
        sample_rate: u32,
    ) -> (sink: Self)
        ensures
            sink@ == (SinkState::<S> {
                buffer: None,
                channels,
                sample_rate,
                min_ms: minimal_fragment_length,
                max_ms: maximal_fragment_length,
            }),
    {
        Sink {
            minimal_fragment_length,
            maximal_fragment_length,
            channels,
            sample_rate,
            current_buffer: None,
        }
    }

    /// Whether a recording is under way.
    pub fn is_recording(&self) -> (r: bool)
        ensures
            r == self@.buffer is Some,
    {
        self.current_buffer.is_some()
    }

    /// How many samples the recording holds; none when idle.
    pub fn recorded_len(&self) -> (n: usize)
        ensures
            n == self@.recorded().len(),
    {
        match &self.current_buffer {
            Some(b) => b.len(),
            None => 0,
        }
    }

    /// The speaker began: a new recording starts. One that was under way is
    /// gone.
    pub fn start(&mut self)
        ensures
            final(self)@ == old(self)@.with_buffer(Some(Seq::<S>::empty())),
    {
        self.current_buffer = Some(Vec::new());
    }

    /// The recording under way, begun now if there was none.
    fn get_fragment_buffer(&mut self) -> (buffer: Vec<S>)
        ensures
            buffer@ == old(self)@.recorded(),
            final(self)@ == old(self)@.with_buffer(None),
    {
        match self.current_buffer.take() {
            Some(b) => b,
            None => Vec::new(),
        }
    }

    /// One sample that passed the noise gate: it joins the recording, which begins
    /// with it if none was under way.
    pub fn record(&mut self, sample: S)
        ensures
            final(self)@ == old(self)@.with_buffer(Some(old(self)@.recorded().push(sample))),
    {
        let mut buffer = self.get_fragment_buffer();
        buffer.push(sample);
        self.current_buffer = Some(buffer);
    }

    /// A frame of samples that passed the noise gate: they join the recording, which
    /// begins with them if none was under way.
    pub fn record_frame(&mut self, frame: Vec<S>)
        ensures
            final(self)@ == old(self)@.with_buffer(Some(old(self)@.recorded() + frame@)),
    {
        let mut frame = frame;
        let mut buffer = self.get_fragment_buffer();
        buffer.append(&mut frame);
        self.current_buffer = Some(buffer);
    }

    /// A frame of samples from a stream with speaking signals: it joins the
    /// recording if one is under way, and is dropped otherwise. Tells whether
    /// it was taken.
    pub fn push_frame(&mut self, frame: Vec<S>) -> (taken: bool)
        ensures
            taken == old(self)@.buffer is Some,
            taken ==> final(self)@ == old(self)@.with_buffer(
                Some(old(self)@.recorded() + frame@),
            ),
            !taken ==> final(self)@ == old(self)@,
    {
        if self.current_buffer.is_some() {
            self.record_frame(frame);
            true
        } else {
            false
        }
    }

    /// The speaker stopped, or the noise gate of the input closed: the recording ends and the
    /// segmenter is idle. The recording is handed out if its duration is
    /// within the limits, both included, and is gone otherwise.
    pub fn end_of_transmission(&mut self) -> (fragment: Fragment<S>)
        ensures
            final(self)@ == old(self)@.with_buffer(None),
            judged(
                old(self)@.buffer,
                old(self)@.channels,
                old(self)@.sample_rate,
                old(self)@.min_ms,
                old(self)@.max_ms,
                fragment,
            ),
    {
        match self.current_buffer.take() {
            None => Fragment::Silence,
            Some(buffer) => {
                let n = buffer.len();
                if is_shorter(n, self.channels, self.sample_rate, self.minimal_fragment_length) {
                    Fragment::TooShort
                } else if is_longer(
                    n,
                    self.channels,
                    self.sample_rate,
                    self.maximal_fragment_length,
                ) {
                    Fragment::TooLong
                } else {
                    Fragment::Utterance(buffer)
                }
            },
        }
    }
}

/// A recording under the minimal length is never handed out.
pub proof fn short_fragment_is_discarded<S>(
    buffer: Seq<S>,
    channels: u16,
    sample_rate: u32,
    min_ms: u64,
    max_ms: u64,
    fragment: Fragment<S>,
)
    requires
        shorter_than(buffer.len(), channels, sample_rate, min_ms),
        judged(Some(buffer), channels, sample_rate, min_ms, max_ms, fragment),
    ensures
        !(fragment is Utterance),
{
}

/// A recording over the maximal length is never handed out, neither whole
/// nor cut down.
pub proof fn long_fragment_is_discarded<S>(
    buffer: Seq<S>,
    channels: u16,
    sample_rate: u32,
    min_ms: u64,
    max_ms: u64,
    fragment: Fragment<S>,
)
    requires
        longer_than(buffer.len(), channels, sample_rate, max_ms),
        judged(Some(buffer), channels, sample_rate, min_ms, max_ms, fragment),
    ensures
        !(fragment is Utterance),
{
}

/// A recording within the limits, both included, is handed out whole, and
/// once: the segmenter is idle then, and ending again hands out nothing.
pub proof fn fitting_fragment_is_forwarded_once<S>(
    before: SinkState<S>,
    first: Fragment<S>,
    second: Fragment<S>,
)
    requires
        before.buffer is Some,
        !shorter_than(
            before.recorded().len(),
            before.channels,
            before.sample_rate,
            before.min_ms,
        ),
        !longer_than(before.recorded().len(), before.channels, before.sample_rate, before.max_ms),
        judged(
            before.buffer,
            before.channels,
            before.sample_rate,
            before.min_ms,
            before.max_ms,
            first,
        ),
        judged(
            before.with_buffer(None).buffer,
            before.channels,
            before.sample_rate,
            before.min_ms,
            before.max_ms,
            second,
        ),
    ensures
        first matches Fragment::Utterance(v) && v@ == before.recorded(),
        second is Silence,
{
}

} // verus!

verus! {

/// How many frames `len` samples make at `channels` samples per frame; a
/// last frame that is not full counts.
pub open spec fn frame_count(len: nat, channels: nat) -> nat {
    if channels == 0 {
        0
    } else {
        ((len + channels - 1) / (channels as int)) as nat
    }
}

/// The first sample of each frame.
pub open spec fn first_channel<S>(data: Seq<S>, channels: nat) -> Seq<S> {
    Seq::new(frame_count(data.len(), channels), |i: int| data[i * channels])
}

/// The signal of the first channel: the first sample of each frame of
/// `channels` samples. `None` for frames of no samples.
pub fn mono_frames<S: Copy>(data: &[S], channels: usize) -> (r: Option<Vec<S>>)
    ensures
        r is Some <==> channels > 0,
        r matches Some(mono) ==> mono@ == first_channel(data@, channels as nat),
{
    if channels == 0 {
        return None;
    }
    let mut mono: Vec<S> = Vec::new();
    let mut i: usize = 0;
    proof {
        let len = data@.len() as int;
        let c = channels as int;
        assert(0 * c == 0) by (nonlinear_arith);
        assert(len == 0 ==> (len + c - 1) / c == 0) by (nonlinear_arith)
            requires
                c > 0,
        ;
    }
    while i < data.len()
        invariant
            channels > 0,
            i == mono.len() * channels,
            mono.len() <= frame_count(data@.len(), channels as nat),
            i >= data.len() ==> mono.len() == frame_count(data@.len(), channels as nat),
            forall|k: int|
                0 <= k < mono.len() ==> 0 <= #[trigger] (k * channels) < data.len() && mono[k]
                    == data[k * channels],
        decreases data.len() - i,
    {
        let ghost before = mono@;
        mono.push(data[i]);
        proof {
            let n = mono.len() as int;
            let len = data@.len() as int;
            let c = channels as int;
            assert(n * c == (n - 1) * c + c) by (nonlinear_arith);
            assert(n <= (len + c - 1) / c) by (nonlinear_arith)
                requires
                    (n - 1) * c < len,
                    c > 0,
            ;
            assert(n * c >= len ==> n == (len + c - 1) / c) by (nonlinear_arith)
                requires
                    (n - 1) * c < len,
                    c > 0,
            ;
            assert forall|k: int| 0 <= k < mono.len() implies 0 <= #[trigger] (k * channels)
                < data.len() && mono[k] == data[k * channels] by {
                if k < n - 1 {
                    assert(mono[k] == before[k]);
                } else {
                    assert(k * c == (n - 1) * c);
                }
            }
        }
        if channels >= data.len() - i {
            // the last frame
            assert(mono@ =~= first_channel(data@, channels as nat));
            return Some(mono);
        }
        i = i + channels;
    }
    assert(mono@ =~= first_channel(data@, channels as nat));
    Some(mono)
}

/// The two bytes of a sample, the low one first.
pub open spec fn sample_bytes(sample: i16) -> (u8, u8) {
    let u: int = if sample < 0 {
        sample + 0x1_0000
    } else {
        sample as int
    };
    ((u % 0x100) as u8, (u / 0x100) as u8)
}

/// The samples as bytes, each sample low byte first.
pub open spec fn pcm(samples: Seq<i16>) -> Seq<u8> {
    Seq::new(
        2 * samples.len(),
        |i: int|
            if i % 2 == 0 {
                sample_bytes(samples[i / 2]).0
            } else {
                sample_bytes(samples[i / 2]).1
            },
    )
}

/// The samples as the bytes of raw audio. See [`pcm`].
pub fn pcm_bytes(samples: &Vec<i16>) -> (bytes: Vec<u8>)
    ensures
        bytes@ == pcm(samples@),
{
    let mut bytes: Vec<u8> = Vec::new();
    let mut i: usize = 0;
    while i < samples.len()
        invariant
            i <= samples.len(),
            bytes.len() == 2 * i,
            forall|k: int|
                0 <= k < 2 * i ==> bytes[k] == if k % 2 == 0 {
                    sample_bytes(samples[k / 2]).0
                } else {
                    sample_bytes(samples[k / 2]).1
                },
        decreases samples.len() - i,
    {
        let s = samples[i];
        let u: u16 = if s < 0 {
            (s as i32 + 0x1_0000) as u16
        } else {
            s as u16
        };
        bytes.push((u % 0x100) as u8);
        bytes.push((u / 0x100) as u8);
        i = i + 1;
    }
    assert(bytes@ =~= pcm(samples@));
    bytes
}

} // verus!
