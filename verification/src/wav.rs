//! Utterances as WAVE files, for the recognition service.

use vstd::prelude::*;

verus! {

/// The error type of the `hound` crate.
#[verifier::external_type_specification]
#[verifier::external_body]
pub struct ExHoundError(hound::Error);

/// The bytes of the WAVE file that `hound` writes for 16-bit integer
/// samples with the given number of channels and sample rate; `None` where
/// it fails to.
pub uninterp spec fn wav_encoding(samples: Seq<i16>, channels: u16, sample_rate: u32) -> Option<
    Seq<u8>,
>;

/// The bytes of a vector, if there is one.
pub open spec fn bytes_of(r: Result<Vec<u8>, hound::Error>) -> Option<Seq<u8>> {
    match r {
        Ok(bytes) => Some(bytes@),
        Err(_) => None,
    }
}

/// Why an utterance did not become a WAVE file.
#[derive(Debug, Clone, Copy, PartialEq, Eq, Structural)]
pub enum WavError {
    /// The format has no channels or no sample rate, or the file would be
    /// larger than the WAVE format can say.
    InvalidFormat,
    /// Writing failed.
    IoError,
    /// The data is ill-formed.
    FormatError,
    /// A sample has more bits than the format.
    TooWide,
    /// The number of samples is not a multiple of the number of channels.
    UnfinishedSample,
    /// The format is not supported.
    Unsupported,
    /// The sample format differs from that of the file.
    InvalidSampleFormat,
}

/// The format and the number of samples are such that a WAVE file can hold
/// them: there are channels and a sample rate, and the sizes that the header
/// states fit their fields.
pub open spec fn encodable(samples: nat, channels: u16, sample_rate: u32) -> bool {
    &&& channels > 0
    &&& sample_rate > 0
    &&& 2 * channels * sample_rate <= u32::MAX
    &&& 2 * samples + 60 <= u32::MAX
}

/// Calls `hound::WavWriter::new` on a buffer in memory with a format of 16
/// bits per sample, integer, then `write_sample` with each sample in turn
/// and `finalize`. On success the result holds the bytes written, which is
/// what [`wav_encoding`] names; `finalize` reports an unfinished frame where
/// the samples do not fill their last one, so success means that they do.
/// The conditions keep the sizes that `hound` computes for the header within
/// their fields, and its divisions away from zero.
#[verifier::external_body]
fn encode_wav(voice_data: &Vec<i16>, channels: u16, sample_rate: u32) -> (r: Result<
    Vec<u8>,
    hound::Error,
>)
    requires
        encodable(voice_data.len() as nat, channels, sample_rate),
    ensures
        bytes_of(r) == wav_encoding(voice_data@, channels, sample_rate),
        r is Ok ==> (voice_data.len() as int) % (channels as int) == 0,
{
    let mut result = Vec::new();
    let spec = hound::WavSpec {
        channels,
        sample_rate,
        bits_per_sample: 16,
        sample_format: hound::SampleFormat::Int,
    };
    let mut writer = hound::WavWriter::new(std::io::Cursor::new(&mut result), spec)?;
    for sample in voice_data.iter() {
        writer.write_sample(*sample)?;
    }
    writer.finalize()?;
    Ok(result)
}

/// Tells the variants of `hound::Error` apart.
#[verifier::external_body]
fn wav_error(e: hound::Error) -> WavError {
    match e {
        hound::Error::IoError(_) => WavError::IoError,
        hound::Error::FormatError(_) => WavError::FormatError,
        hound::Error::TooWide => WavError::TooWide,
        hound::Error::UnfinishedSample => WavError::UnfinishedSample,
        hound::Error::Unsupported => WavError::Unsupported,
        hound::Error::InvalidSampleFormat => WavError::InvalidSampleFormat,
    }
}

/// Whether the format and the number of samples fit a WAVE file.
pub fn is_encodable(samples: usize, channels: u16, sample_rate: u32) -> (r: bool)
    ensures
        r == encodable(samples as nat, channels, sample_rate),
{
    if channels == 0 || sample_rate == 0 {
        return false;
    }
    assert(channels * sample_rate <= 0xffff * 0xffff_ffff) by (nonlinear_arith)
        requires
            channels <= 0xffff,
            sample_rate <= 0xffff_ffff,
    ;
    let rate: u64 = 2 * ((channels as u64) * (sample_rate as u64));
    assert(rate == 2 * channels * sample_rate) by (nonlinear_arith)
        requires
            rate == 2 * (channels * sample_rate),
    ;
    rate <= 0xffff_ffff && samples <= 0x7fff_ffe1
}

/// The utterance as a WAVE file of 16-bit integer samples.
///
/// A format or a length that a WAVE file cannot hold is refused with
/// `InvalidFormat`. Otherwise the file is what the encoder made of the
/// samples; it fails where the samples do not fill their last frame.
pub fn voice_data_to_wav_buf(voice_data: &Vec<i16>, channels: u16, sample_rate: u32) -> (r: Result<
    Vec<u8>,
    WavError,
>)
    ensures
        !encodable(voice_data.len() as nat, channels, sample_rate) ==> r == Err::<
            Vec<u8>,
            WavError,
        >(WavError::InvalidFormat),
        r is Ok <==> encodable(voice_data.len() as nat, channels, sample_rate) && wav_encoding(
            voice_data@,
            channels,
            sample_rate,
        ) is Some,
        r matches Ok(bytes) ==> Some(bytes@) == wav_encoding(voice_data@, channels, sample_rate),
        (voice_data.len() as int) % (channels as int) != 0 ==> r is Err,
{
    if !is_encodable(voice_data.len(), channels, sample_rate) {
        return Err(WavError::InvalidFormat);
    }
    match encode_wav(voice_data, channels, sample_rate) {
        Ok(bytes) => Ok(bytes),
        Err(e) => Err(wav_error(e)),
    }
}

} // verus!
