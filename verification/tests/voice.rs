use ai_waifu::audio_input::{mono_frames, pcm_bytes, Fragment, Sink};
use ai_waifu::voice_ch_map::{State, VoiceChannelMap};
use ai_waifu::voice_receiver::{Routed, SegmenterSettings, SpeakerRegistry, VoiceEvent, VoiceProcessor};
use ai_waifu::wav::{voice_data_to_wav_buf, WavError};

fn settings() -> SegmenterSettings {
    // one channel at 1000 frames per second: a sample is a millisecond
    SegmenterSettings {
        minimal_fragment_length: 3,
        maximal_fragment_length: 6,
        channels: 1,
        sample_rate: 1000,
    }
}

#[test]
fn fragment_under_the_minimum_is_dropped() {
    let mut sink: Sink<i16> = Sink::new(3, 6, 1, 1000);
    sink.start();
    assert!(sink.push_frame(vec![1, 2]));
    assert_eq!(sink.end_of_transmission(), Fragment::TooShort);
    assert!(!sink.is_recording());
}

#[test]
fn fragment_at_the_minimum_is_forwarded_once() {
    let mut sink: Sink<i16> = Sink::new(3, 6, 1, 1000);
    sink.start();
    assert!(sink.push_frame(vec![1, 2]));
    assert!(sink.push_frame(vec![3]));
    assert_eq!(sink.recorded_len(), 3);
    assert_eq!(sink.end_of_transmission(), Fragment::Utterance(vec![1, 2, 3]));
    assert_eq!(sink.end_of_transmission(), Fragment::Silence);
}

#[test]
fn fragment_at_the_maximum_is_forwarded() {
    let mut sink: Sink<i16> = Sink::new(3, 6, 1, 1000);
    sink.start();
    assert!(sink.push_frame(vec![1, 2, 3, 4, 5, 6]));
    assert_eq!(sink.end_of_transmission(), Fragment::Utterance(vec![1, 2, 3, 4, 5, 6]));
}

#[test]
fn fragment_over_the_maximum_is_dropped_whole() {
    let mut sink: Sink<i16> = Sink::new(3, 6, 1, 1000);
    sink.start();
    assert!(sink.push_frame(vec![1, 2, 3, 4, 5, 6, 7]));
    assert_eq!(sink.end_of_transmission(), Fragment::TooLong);
    assert_eq!(sink.end_of_transmission(), Fragment::Silence);
}

#[test]
fn duration_counts_channels_and_rate() {
    // 2 channels at 48000 frames per second: 96 samples are a millisecond
    let mut sink: Sink<i16> = Sink::new(10, 20, 2, 48000);
    sink.start();
    assert!(sink.push_frame(vec![0; 959]));
    assert_eq!(sink.end_of_transmission(), Fragment::TooShort);
    sink.start();
    assert!(sink.push_frame(vec![0; 960]));
    assert_eq!(sink.end_of_transmission(), Fragment::Utterance(vec![0; 960]));
    sink.start();
    assert!(sink.push_frame(vec![0; 1920]));
    assert!(matches!(sink.end_of_transmission(), Fragment::Utterance(_)));
    sink.start();
    assert!(sink.push_frame(vec![0; 1921]));
    assert_eq!(sink.end_of_transmission(), Fragment::TooLong);
}

#[test]
fn frame_while_idle_is_dropped() {
    let mut sink: Sink<i16> = Sink::new(0, 6, 1, 1000);
    assert!(!sink.push_frame(vec![1, 2, 3]));
    assert!(!sink.is_recording());
    assert_eq!(sink.end_of_transmission(), Fragment::Silence);
}

#[test]
fn loud_input_starts_the_recording() {
    let mut sink: Sink<i16> = Sink::new(2, 6, 1, 1000);
    sink.record(7);
    sink.record(8);
    sink.record_frame(vec![9]);
    assert!(sink.is_recording());
    assert_eq!(sink.end_of_transmission(), Fragment::Utterance(vec![7, 8, 9]));
}

#[test]
fn start_discards_a_recording_under_way() {
    let mut sink: Sink<i16> = Sink::new(1, 6, 1, 1000);
    sink.start();
    assert!(sink.push_frame(vec![1, 2, 3]));
    sink.start();
    assert!(sink.push_frame(vec![4]));
    assert_eq!(sink.end_of_transmission(), Fragment::Utterance(vec![4]));
}

#[test]
fn registry_keeps_the_last_binding() {
    let mut r = SpeakerRegistry::new();
    assert_eq!(r.resolve(5), None);
    r.register(5, 100);
    r.register(6, 101);
    r.register(5, 102);
    r.register(5, 102);
    assert_eq!(r.resolve(5), Some(102));
    assert_eq!(r.resolve(6), Some(101));
    assert_eq!(r.len(), 2);
    r.clear();
    assert_eq!(r.resolve(5), None);
    assert_eq!(r.len(), 0);
}

#[test]
fn frame_of_an_unbound_stream_reaches_no_segmenter() {
    let mut p = VoiceProcessor::new(settings());
    assert_eq!(
        p.try_get_user_voice(VoiceEvent::SpeakingStateUpdate { ssrc: 9, speaking: true, guid: 1, ch_id: 2 }),
        Routed::Unresolved
    );
    assert_eq!(p.try_get_user_voice(VoiceEvent::VoicePacket(9, vec![1, 2, 3, 4])), Routed::Unresolved);
    assert_eq!(p.try_get_user_voice(VoiceEvent::RegisterUser(77, 9)), Routed::Registered);
    // nothing was recorded for the stream before it was bound
    assert!(!p.is_recording(77));
    assert_eq!(
        p.try_get_user_voice(VoiceEvent::SpeakingStateUpdate { ssrc: 9, speaking: false, guid: 1, ch_id: 2 }),
        Routed::Stopped { speaker: 77, guild: 1, channel: 2, fragment: Fragment::Silence }
    );
}

#[test]
fn utterance_of_a_speaker_is_handed_out() {
    let mut p = VoiceProcessor::new(settings());
    assert_eq!(p.try_get_user_voice(VoiceEvent::RegisterUser(77, 9)), Routed::Registered);
    assert_eq!(p.resolve(9), Some(77));
    assert_eq!(p.try_get_user_voice(VoiceEvent::VoicePacket(9, vec![1])), Routed::NotRecording);
    assert_eq!(
        p.try_get_user_voice(VoiceEvent::SpeakingStateUpdate { ssrc: 9, speaking: true, guid: 1, ch_id: 2 }),
        Routed::Started
    );
    assert!(p.is_recording(77));
    assert_eq!(p.try_get_user_voice(VoiceEvent::VoicePacket(9, vec![1, 2])), Routed::Recorded);
    assert_eq!(p.try_get_user_voice(VoiceEvent::VoicePacket(9, vec![3, 4])), Routed::Recorded);
    assert_eq!(
        p.try_get_user_voice(VoiceEvent::SpeakingStateUpdate { ssrc: 9, speaking: false, guid: 1, ch_id: 2 }),
        Routed::Stopped {
            speaker: 77,
            guild: 1,
            channel: 2,
            fragment: Fragment::Utterance(vec![1, 2, 3, 4])
        }
    );
    assert!(!p.is_recording(77));
}

#[test]
fn speakers_are_recorded_apart() {
    let mut p = VoiceProcessor::new(settings());
    p.try_get_user_voice(VoiceEvent::RegisterUser(1, 10));
    p.try_get_user_voice(VoiceEvent::RegisterUser(2, 20));
    p.try_get_user_voice(VoiceEvent::SpeakingStateUpdate { ssrc: 10, speaking: true, guid: 0, ch_id: 0 });
    p.try_get_user_voice(VoiceEvent::SpeakingStateUpdate { ssrc: 20, speaking: true, guid: 0, ch_id: 0 });
    p.try_get_user_voice(VoiceEvent::VoicePacket(10, vec![1, 1, 1]));
    p.try_get_user_voice(VoiceEvent::VoicePacket(20, vec![2, 2]));
    p.try_get_user_voice(VoiceEvent::VoicePacket(10, vec![1]));
    assert_eq!(
        p.try_get_user_voice(VoiceEvent::SpeakingStateUpdate { ssrc: 20, speaking: false, guid: 0, ch_id: 0 }),
        Routed::Stopped { speaker: 2, guild: 0, channel: 0, fragment: Fragment::TooShort }
    );
    assert_eq!(
        p.try_get_user_voice(VoiceEvent::SpeakingStateUpdate { ssrc: 10, speaking: false, guid: 0, ch_id: 0 }),
        Routed::Stopped {
            speaker: 1,
            guild: 0,
            channel: 0,
            fragment: Fragment::Utterance(vec![1, 1, 1, 1])
        }
    );
}

#[test]
fn rebound_stream_goes_to_the_new_speaker() {
    let mut p = VoiceProcessor::new(settings());
    p.try_get_user_voice(VoiceEvent::RegisterUser(1, 10));
    p.try_get_user_voice(VoiceEvent::SpeakingStateUpdate { ssrc: 10, speaking: true, guid: 0, ch_id: 0 });
    p.try_get_user_voice(VoiceEvent::RegisterUser(2, 10));
    assert_eq!(p.resolve(10), Some(2));
    // the new speaker has not started: the frame is dropped
    assert_eq!(p.try_get_user_voice(VoiceEvent::VoicePacket(10, vec![5, 5, 5])), Routed::NotRecording);
    assert!(p.is_recording(1));
    assert!(!p.is_recording(2));
}

#[test]
fn channel_states_default_to_text() {
    let mut m = VoiceChannelMap::new();
    assert_eq!(m.get_voice_state(1, 2), State::TextOnly);
    m.set_voice_state(1, 2, State::Voice);
    assert_eq!(m.get_voice_state(1, 2), State::Voice);
    assert_eq!(m.get_voice_state(2, 1), State::TextOnly);
    assert_eq!(m.get_voice_state(1, 3), State::TextOnly);
    m.set_voice_state(u64::MAX, u64::MAX, State::Voice);
    assert_eq!(m.get_voice_state(u64::MAX, u64::MAX), State::Voice);
    assert_eq!(m.get_voice_state(u64::MAX, 0), State::TextOnly);
    m.set_voice_state(1, 2, State::TextOnly);
    assert_eq!(m.get_voice_state(1, 2), State::TextOnly);
}

#[test]
fn wav_file_of_two_samples() {
    let bytes = voice_data_to_wav_buf(&vec![1i16, -2], 1, 8000).unwrap();
    let expected: Vec<u8> = vec![
        b'R', b'I', b'F', b'F', 40, 0, 0, 0, b'W', b'A', b'V', b'E', // RIFF header
        b'f', b'm', b't', b' ', 16, 0, 0, 0, 1, 0, 1, 0, // PCM, one channel
        0x40, 0x1f, 0, 0, 0x80, 0x3e, 0, 0, 2, 0, 16, 0, // 8000 Hz, 16000 B/s, 16 bits
        b'd', b'a', b't', b'a', 4, 0, 0, 0, // four bytes of data
        1, 0, 0xfe, 0xff,
    ];
    assert_eq!(bytes, expected);
}

#[test]
fn wav_file_needs_a_format() {
    assert_eq!(voice_data_to_wav_buf(&vec![1, 2], 0, 8000), Err(WavError::InvalidFormat));
    assert_eq!(voice_data_to_wav_buf(&vec![1, 2], 1, 0), Err(WavError::InvalidFormat));
    assert_eq!(voice_data_to_wav_buf(&vec![1, 2], 2, u32::MAX), Err(WavError::InvalidFormat));
}

#[test]
fn wav_file_needs_whole_frames() {
    assert_eq!(voice_data_to_wav_buf(&vec![1, 2, 3], 2, 48000), Err(WavError::UnfinishedSample));
    assert!(voice_data_to_wav_buf(&vec![1, 2, 3, 4], 2, 48000).is_ok());
    assert_eq!(voice_data_to_wav_buf(&Vec::new(), 2, 48000).unwrap().len(), 44);
}

#[test]
fn first_channel_of_interleaved_audio() {
    assert_eq!(mono_frames(&[1, 2, 3, 4, 5, 6], 2), Some(vec![1, 3, 5]));
    assert_eq!(mono_frames(&[1, 2, 3, 4, 5, 6, 7], 3), Some(vec![1, 4, 7]));
    assert_eq!(mono_frames(&[1, 2, 3], 1), Some(vec![1, 2, 3]));
    assert_eq!(mono_frames(&[1, 2, 3], 5), Some(vec![1]));
    assert_eq!(mono_frames(&[1, 2, 3], usize::MAX), Some(vec![1]));
    assert_eq!(mono_frames::<i16>(&[], 2), Some(vec![]));
    assert_eq!(mono_frames(&[1, 2, 3], 0), None);
}

#[test]
fn samples_as_raw_bytes() {
    assert_eq!(pcm_bytes(&vec![0, 1, -1, 256, i16::MIN, i16::MAX]), vec![
        0, 0, 1, 0, 0xff, 0xff, 0, 1, 0, 0x80, 0xff, 0x7f
    ]);
    assert!(pcm_bytes(&Vec::new()).is_empty());
    let samples: Vec<i16> = (i16::MIN..=i16::MAX).collect();
    let expected: Vec<u8> = samples.iter().flat_map(|x| x.to_le_bytes()).collect();
    assert_eq!(pcm_bytes(&samples), expected);
}
