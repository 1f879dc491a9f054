//! Routing the audio of a voice connection to one segmenter per speaker.
//!
//! The frames of a connection carry the identifier of their stream, not of
//! their speaker. Signals tell which speaker a stream belongs to, and when a
//! stream starts and stops speaking. The registry keeps the bindings, and the
//! processor hands each frame to the segmenter of its speaker. What belongs to
//! a stream that no speaker is registered for is dropped.

use crate::audio_input::{judged, Fragment, Sink, SinkState};
use std::collections::HashMap;
use vstd::prelude::*;

verus! {

broadcast use vstd::std_specs::hash::group_hash_axioms;

/// The speaker of each stream of a connection.
pub struct SpeakerRegistry {
    user_ssrc_map: HashMap<u32, u64>,
}

impl View for SpeakerRegistry {
    type V = Map<u32, u64>;

    closed spec fn view(&self) -> Map<u32, u64> {
        self.user_ssrc_map@
    }
}

impl SpeakerRegistry {
    /// A registry without bindings.
    pub fn new() -> (r: Self)
        ensures
            r@ == Map::<u32, u64>::empty(),
    {
        SpeakerRegistry { user_ssrc_map: HashMap::new() }
    }

    /// Binds a stream to a speaker. The last binding of a stream counts.
    pub fn register(&mut self, stream_id: u32, speaker: u64)
        ensures
            final(self)@ == old(self)@.insert(stream_id, speaker),
    {
        let _ = self.user_ssrc_map.insert(stream_id, speaker);
    }

    /// The speaker of a stream, if the stream is bound.
    pub fn resolve(&self, stream_id: u32) -> (r: Option<u64>)
        ensures
            r == if self@.contains_key(stream_id) {
                Some(self@[stream_id])
            } else {
                None
            },
    {
        match self.user_ssrc_map.get(&stream_id) {
            Some(speaker) => Some(*speaker),
            None => None,
        }
    }

    /// Forgets all bindings: those of a connection that is gone mean nothing
    /// on the next one.
    pub fn clear(&mut self)
        ensures
            final(self)@ == Map::<u32, u64>::empty(),
    {
        self.user_ssrc_map.clear();
    }

    /// How many streams are bound.
    pub fn len(&self) -> (n: usize)
        ensures
            n == self@.len(),
    {
        self.user_ssrc_map.len()
    }
}

/// What a voice connection reports.
#[derive(Debug, Clone, PartialEq, Eq)]
pub enum VoiceEvent {
    /// The speaker, and the stream that is theirs from now on.
    RegisterUser(u64, u32),
    /// A stream started or stopped speaking, in this voice channel of this
    /// guild.
    SpeakingStateUpdate { ssrc: u32, speaking: bool, guid: u64, ch_id: u64 },
    /// A frame of a stream.
    VoicePacket(u32, Vec<i16>),
}

/// What became of an event.
#[derive(Debug, Clone, PartialEq, Eq)]
pub enum Routed {
    /// The binding is in the registry.
    Registered,
    /// The stream is bound to no speaker: the event was dropped.
    Unresolved,
    /// The speaker's segmenter records.
    Started,
    /// The frame joined the speaker's recording.
    Recorded,
    /// The speaker's segmenter is idle: the frame was dropped.
    NotRecording,
    /// The speaker stopped, and this became of the recording.
    Stopped { speaker: u64, guild: u64, channel: u64, fragment: Fragment<i16> },
}

/// The limits and the format that every segmenter of a processor is made
/// with.
#[derive(Debug, Clone, Copy, PartialEq, Eq)]
pub struct SegmenterSettings {
    /// The least length of an utterance, in milliseconds.
    pub minimal_fragment_length: u64,
    /// The greatest length of an utterance, in milliseconds.
    pub maximal_fragment_length: u64,
    pub channels: u16,
    pub sample_rate: u32,
}

impl SegmenterSettings {
    /// An idle segmenter with these settings.
    pub open spec fn idle(self) -> SinkState<i16> {
        SinkState {
            buffer: None,
            channels: self.channels,
            sample_rate: self.sample_rate,
            min_ms: self.minimal_fragment_length,
            max_ms: self.maximal_fragment_length,
        }
    }
}

/// The state of a processor, as far as its contracts go.
pub struct RouterState {
    /// The speaker of each bound stream.
    pub registry: Map<u32, u64>,
    /// The segmenter of each speaker that has one.
    pub segmenters: Map<u64, SinkState<i16>>,
    pub settings: SegmenterSettings,
}

impl RouterState {
    /// The segmenter of a speaker: theirs, or an idle one if they have none
    /// yet.
    pub open spec fn segmenter(self, speaker: u64) -> SinkState<i16> {
        if self.segmenters.contains_key(speaker) {
            self.segmenters[speaker]
        } else {
            self.settings.idle()
        }
    }

    /// The same state with the segmenter of `speaker` set.
    pub open spec fn with_segmenter(self, speaker: u64, segmenter: SinkState<i16>) -> Self {
        RouterState {
            registry: self.registry,
            segmenters: self.segmenters.insert(speaker, segmenter),
            settings: self.settings,
        }
    }

    /// From `self`, the event leaves `post` and is answered `routed`.
    ///
    /// A binding goes to the registry. Everything else is resolved through
    /// the registry first and dropped if the stream is not bound. A start
    /// begins a new recording, a frame joins the recording if there is one,
    /// and a stop ends the recording and judges it.
    pub open spec fn routes(self, event: VoiceEvent, post: Self, routed: Routed) -> bool {
        match event {
            VoiceEvent::RegisterUser(speaker, ssrc) => {
                &&& routed is Registered
                &&& post == (RouterState {
                    registry: self.registry.insert(ssrc, speaker),
                    segmenters: self.segmenters,
                    settings: self.settings,
                })
            },
            VoiceEvent::SpeakingStateUpdate { ssrc, speaking, guid, ch_id } => {
                if !self.registry.contains_key(ssrc) {
                    routed is Unresolved && post == self
                } else {
                    let speaker = self.registry[ssrc];
                    let segmenter = self.segmenter(speaker);
                    if speaking {
                        &&& routed is Started
                        &&& post == self.with_segmenter(
                            speaker,
                            segmenter.with_buffer(Some(Seq::<i16>::empty())),
                        )
                    } else {
                        &&& post == self.with_segmenter(speaker, segmenter.with_buffer(None))
                        &&& routed matches Routed::Stopped { speaker: s, guild, channel, fragment }
                        &&& s == speaker
                        &&& guild == guid
                        &&& channel == ch_id
                        &&& judged(
                            segmenter.buffer,
                            segmenter.channels,
                            segmenter.sample_rate,
                            segmenter.min_ms,
                            segmenter.max_ms,
                            fragment,
                        )
                    }
                }
            },
            VoiceEvent::VoicePacket(ssrc, data) => {
                if !self.registry.contains_key(ssrc) {
                    routed is Unresolved && post == self
                } else {
                    let speaker = self.registry[ssrc];
                    let segmenter = self.segmenter(speaker);
                    match segmenter.buffer {
                        Some(recorded) => {
                            &&& routed is Recorded
                            &&& post == self.with_segmenter(
                                speaker,
                                segmenter.with_buffer(Some(recorded + data@)),
                            )
                        },
                        None => {
                            &&& routed is NotRecording
                            &&& post == self.with_segmenter(speaker, segmenter)
                        },
                    }
                }
            },
        }
    }
}

/// The segmenters of a processor, each as its state.
spec fn segmenter_states(m: Map<u64, Sink<i16>>) -> Map<u64, SinkState<i16>> {
    Map::new(|k: u64| m.contains_key(k), |k: u64| m[k]@)
}

/// The processor of a voice connection.
pub struct VoiceProcessor {
    registry: SpeakerRegistry,
    storage: HashMap<u64, Sink<i16>>,
    settings: SegmenterSettings,
}

impl View for VoiceProcessor {
    type V = RouterState;

    closed spec fn view(&self) -> RouterState {
        RouterState {
            registry: self.registry@,
            segmenters: segmenter_states(self.storage@),
            settings: self.settings,
        }
    }
}

impl VoiceProcessor {
    /// A processor without bindings and without segmenters.
    pub fn new(settings: SegmenterSettings) -> (p: Self)
        ensures
            p@ == (RouterState {
                registry: Map::<u32, u64>::empty(),
                segmenters: Map::<u64, SinkState<i16>>::empty(),
                settings,
            }),
    {
        let p = VoiceProcessor { registry: SpeakerRegistry::new(), storage: HashMap::new(), settings };
        assert(segmenter_states(p.storage@) =~= Map::<u64, SinkState<i16>>::empty());
        p
    }

    /// The speaker of a stream, if the stream is bound.
    pub fn resolve(&self, stream_id: u32) -> (r: Option<u64>)
        ensures
            r == if self@.registry.contains_key(stream_id) {
                Some(self@.registry[stream_id])
            } else {
                None
            },
    {
        self.registry.resolve(stream_id)
    }

    /// Whether the speaker has a segmenter that records.
    pub fn is_recording(&self, speaker: u64) -> (r: bool)
        ensures
            r == self@.segmenter(speaker).buffer is Some,
    {
        match self.storage.get(&speaker) {
            Some(s) => s.is_recording(),
            None => false,
        }
    }

    /// Takes the segmenter of a speaker out of the store, or makes an idle
    /// one if they have none.
    fn take_segmenter(&mut self, speaker: u64) -> (s: Sink<i16>)
        ensures
            s@ == old(self)@.segmenter(speaker),
            final(self).registry == old(self).registry,
            final(self).settings == old(self).settings,
            final(self).storage@ == old(self).storage@.remove(speaker),
    {
        match self.storage.remove(&speaker) {
            Some(s) => s,
            None => {
                assert(self.storage@ =~= old(self).storage@.remove(speaker));
                Sink::new(
                    self.settings.minimal_fragment_length,
                    self.settings.maximal_fragment_length,
                    self.settings.channels,
                    self.settings.sample_rate,
                )
            },
        }
    }

    /// Puts the segmenter of a speaker into the store it was taken out of.
    fn put_segmenter(&mut self, speaker: u64, s: Sink<i16>, Ghost(before): Ghost<RouterState>)
        requires
            old(self)@.registry == before.registry,
            old(self)@.settings == before.settings,
            old(self)@.segmenters == before.segmenters.remove(speaker),
        ensures
            final(self)@ == before.with_segmenter(speaker, s@),
    {
        let _ = self.storage.insert(speaker, s);
        assert(segmenter_states(self.storage@) =~= before.segmenters.insert(speaker, s@)) by {
            assert forall|k: u64| k != speaker implies (#[trigger] segmenter_states(
                self.storage@,
            ).contains_key(k) <==> before.segmenters.contains_key(k)) by {
                assert(segmenter_states(old(self).storage@).contains_key(k)
                    <==> before.segmenters.remove(speaker).contains_key(k));
            }
            assert forall|k: u64|
                k != speaker && #[trigger] segmenter_states(self.storage@).contains_key(
                    k,
                ) implies segmenter_states(self.storage@)[k] == before.segmenters[k] by {
                assert(segmenter_states(old(self).storage@)[k] == before.segmenters.remove(
                    speaker,
                )[k]);
            }
        }
    }

    /// Takes in one event of the connection. See [`RouterState::routes`].
    pub fn try_get_user_voice(&mut self, event: VoiceEvent) -> (routed: Routed)
        ensures
            old(self)@.routes(event, final(self)@, routed),
    {
        let ghost before = self@;
        match event {
            VoiceEvent::RegisterUser(speaker, ssrc) => {
                self.registry.register(ssrc, speaker);
                Routed::Registered
            },
            VoiceEvent::SpeakingStateUpdate { ssrc, speaking, guid, ch_id } => {
                match self.registry.resolve(ssrc) {
                    None => Routed::Unresolved,
                    Some(speaker) => {
                        let mut s = self.take_segmenter(speaker);
                        proof {
                            lemma_taken(old(self).storage@, speaker);
                        }
                        if speaking {
                            s.start();
                            self.put_segmenter(speaker, s, Ghost(before));
                            Routed::Started
                        } else {
                            let fragment = s.end_of_transmission();
                            self.put_segmenter(speaker, s, Ghost(before));
                            Routed::Stopped { speaker, guild: guid, channel: ch_id, fragment }
                        }
                    },
                }
            },
            VoiceEvent::VoicePacket(ssrc, data) => {
                match self.registry.resolve(ssrc) {
                    None => Routed::Unresolved,
                    Some(speaker) => {
                        let mut s = self.take_segmenter(speaker);
                        proof {
                            lemma_taken(old(self).storage@, speaker);
                        }
                        let taken = s.push_frame(data);
                        self.put_segmenter(speaker, s, Ghost(before));
                        if taken {
                            Routed::Recorded
                        } else {
                            Routed::NotRecording
                        }
                    },
                }
            },
        }
    }
}

proof fn lemma_taken(storage: Map<u64, Sink<i16>>, speaker: u64)
    ensures
        segmenter_states(storage.remove(speaker)) == segmenter_states(storage).remove(speaker),
{
    assert(segmenter_states(storage.remove(speaker)) =~= segmenter_states(storage).remove(speaker));
}

/// A frame of a stream that no speaker is registered for reaches no
/// segmenter: every segmenter is as it was, and none is made.
pub proof fn unresolved_frame_reaches_no_segmenter(
    before: RouterState,
    stream_id: u32,
    data: Vec<i16>,
    after: RouterState,
    routed: Routed,
)
    requires
        !before.registry.contains_key(stream_id),
        before.routes(VoiceEvent::VoicePacket(stream_id, data), after, routed),
    ensures
        routed is Unresolved,
        after.segmenters == before.segmenters,
        after == before,
{
}

/// A frame changes no segmenter but that of the speaker its stream is bound
/// to.
pub proof fn frame_reaches_its_speaker_only(
    before: RouterState,
    stream_id: u32,
    data: Vec<i16>,
    after: RouterState,
    routed: Routed,
    other: u64,
)
    requires
        before.routes(VoiceEvent::VoicePacket(stream_id, data), after, routed),
        before.registry.contains_key(stream_id) ==> before.registry[stream_id] != other,
    ensures
        after.segmenter(other) == before.segmenter(other),
        after.segmenters.contains_key(other) == before.segmenters.contains_key(other),
{
}

/// A stream is bound to one speaker at a time: a new binding replaces the
/// old one, and binding the same speaker again changes nothing.
pub proof fn binding_overwrites(
    before: RouterState,
    first: u64,
    second: u64,
    stream_id: u32,
    mid: RouterState,
    after: RouterState,
    r1: Routed,
    r2: Routed,
)
    requires
        before.routes(VoiceEvent::RegisterUser(first, stream_id), mid, r1),
        mid.routes(VoiceEvent::RegisterUser(second, stream_id), after, r2),
    ensures
        after.registry[stream_id] == second,
        after.registry == before.registry.insert(stream_id, second),
        first == second ==> after == mid,
{
    assert(after.registry =~= before.registry.insert(stream_id, second));
    if first == second {
        assert(after.registry =~= mid.registry);
    }
}

} // verus!
