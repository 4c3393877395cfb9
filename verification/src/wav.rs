//! In-memory WAV encoding of the audio sent to the cloud engines.

use vstd::prelude::*;

verus! {

/// The sample rate Handy records at.
pub const SAMPLE_RATE: u32 = 16000;

/// Handy records one channel.
pub const CHANNELS: u16 = 1;

/// The two little-endian bytes of a 16-bit value.
pub open spec fn le16(v: u16) -> Seq<u8> {
    seq![(v & 0xff) as u8, (v >> 8) as u8]
}

/// The four little-endian bytes of a 32-bit value.
pub open spec fn le32(v: u32) -> Seq<u8> {
    seq![(v & 0xff) as u8, ((v >> 8) & 0xff) as u8, ((v >> 16) & 0xff) as u8, (v >> 24) as u8]
}

/// The data chunk of 16-bit samples: each sample little-endian, in order.
pub open spec fn pcm16_data(samples: Seq<i16>) -> Seq<u8>
    decreases samples.len(),
{
    if samples.len() == 0 {
        Seq::empty()
    } else {
        pcm16_data(samples.drop_last()) + le16(samples.last() as u16)
    }
}

/// A canonical 44-byte-header WAVE file of 16-bit integer PCM samples: the
/// RIFF header, a 16-byte `fmt ` chunk in the PCMWAVEFORMAT layout, and the
/// `data` chunk.
pub open spec fn pcm16_wav_file(channels: u16, sample_rate: u32, samples: Seq<i16>) -> Seq<u8> {
    let data_len = (2 * samples.len()) as u32;
    seq![0x52u8, 0x49, 0x46, 0x46] + le32((36 + data_len) as u32) + seq![0x57u8, 0x41, 0x56, 0x45]
        + seq![0x66u8, 0x6d, 0x74, 0x20] + le32(16) + le16(1) + le16(channels) + le32(sample_rate)
        + le32((sample_rate * 2 * channels) as u32) + le16((2 * channels) as u16) + le16(16)
        + seq![0x64u8, 0x61, 0x74, 0x61] + le32(data_len) + pcm16_data(samples)
}

/// Whether hound can write `sample_count` 16-bit samples in `channels`
/// channels at `sample_rate` without an arithmetic overflow in its header
/// fields: one or two channels, whole frames, a non-zero byte rate that fits
/// in 32 bits, and a RIFF size that fits in 32 bits.
pub open spec fn pcm16_encodable(channels: u16, sample_rate: u32, sample_count: nat) -> bool {
    &&& 1 <= channels <= 2
    &&& sample_count % (channels as nat) == 0
    &&& 0 < sample_rate
    &&& sample_rate * 2 * channels <= u32::MAX
    &&& 36 + 2 * sample_count <= u32::MAX
}

/// Calls `hound::WavWriter::new` on an in-memory cursor with a 16-bit integer
/// spec, `WavWriter::write_sample` once per sample in order, and
/// `WavWriter::finalize`, and returns the cursor's bytes; an error is returned
/// as its text. Claims that it succeeds and that the bytes are the
/// 44-byte-header PCM file that hound's source writes for one or two channels
/// of 16-bit samples: hound fails only on an unsupported bit depth, an
/// unfinished frame or an error of the underlying writer, and an in-memory
/// cursor over a vector grows instead of failing.
#[verifier::external_body]
fn hound_write_pcm16(channels: u16, sample_rate: u32, samples: &[i16]) -> (r: Result<Vec<u8>, String>)
    requires
        pcm16_encodable(channels, sample_rate, samples@.len()),
    ensures
        r is Ok,
        r matches Ok(bytes) ==> bytes@ == pcm16_wav_file(channels, sample_rate, samples@),
{
    let spec = hound::WavSpec {
        channels,
        sample_rate,
        bits_per_sample: 16,
        sample_format: hound::SampleFormat::Int,
    };
    let mut cursor = std::io::Cursor::new(Vec::new());
    {
        let mut writer = hound::WavWriter::new(&mut cursor, spec).map_err(|e| e.to_string())?;
        for &sample in samples {
            writer.write_sample(sample).map_err(|e| e.to_string())?;
        }
        writer.finalize().map_err(|e| e.to_string())?;
    }
    Ok(cursor.into_inner())
}

/// The most samples a WAVE file can hold: its RIFF size field is 32 bits.
pub const MAX_WAV_SAMPLES: usize = 2147483629;

/// Encode 16 kHz mono 16-bit samples as an in-memory PCM WAV buffer, matching
/// the format Handy uses elsewhere. Encoding in memory always succeeds.
pub fn encode_wav_pcm16(samples: &[i16]) -> (r: Result<Vec<u8>, String>)
    requires
        samples@.len() <= MAX_WAV_SAMPLES,
    ensures
        r is Ok,
        r->Ok_0@ == pcm16_wav_file(CHANNELS, SAMPLE_RATE, samples@),
{
    hound_write_pcm16(CHANNELS, SAMPLE_RATE, samples)
}

/// The data chunk of `n` samples holds two bytes per sample.
pub proof fn lemma_pcm16_data_len(samples: Seq<i16>)
    ensures
        pcm16_data(samples).len() == 2 * samples.len(),
    decreases samples.len(),
{
    if samples.len() > 0 {
        lemma_pcm16_data_len(samples.drop_last());
    }
}

/// An encoded buffer is a 44-byte header followed by two bytes per sample, and
/// its header declares one channel, 16000 Hz, 16 bits per sample and the data
/// length; the sample bytes follow it in order.
pub proof fn law_wav_layout(samples: Seq<i16>)
    requires
        samples.len() <= MAX_WAV_SAMPLES,
    ensures
        pcm16_wav_file(CHANNELS, SAMPLE_RATE, samples).len() == (44 + 2 * samples.len()) as int,
        pcm16_wav_file(CHANNELS, SAMPLE_RATE, samples).subrange(22, 24) == le16(CHANNELS),
        pcm16_wav_file(CHANNELS, SAMPLE_RATE, samples).subrange(24, 28) == le32(SAMPLE_RATE),
        pcm16_wav_file(CHANNELS, SAMPLE_RATE, samples).subrange(34, 36) == le16(16),
        pcm16_wav_file(CHANNELS, SAMPLE_RATE, samples).subrange(40, 44) == le32(
            (2 * samples.len()) as u32,
        ),
        pcm16_wav_file(CHANNELS, SAMPLE_RATE, samples).subrange(
            44,
            (44 + 2 * samples.len()) as int,
        ) == pcm16_data(samples),
{
    lemma_pcm16_data_len(samples);
    let f = pcm16_wav_file(CHANNELS, SAMPLE_RATE, samples);
    assert(f.subrange(22, 24) =~= le16(CHANNELS));
    assert(f.subrange(24, 28) =~= le32(SAMPLE_RATE));
    assert(f.subrange(34, 36) =~= le16(16));
    assert(f.subrange(40, 44) =~= le32((2 * samples.len()) as u32));
    assert(f.subrange(44, (44 + 2 * samples.len()) as int) =~= pcm16_data(samples));
}

} // verus!
