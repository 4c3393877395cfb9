use handy::wav::encode_wav_pcm16;
use std::io::Cursor;

/// Converts samples the way Handy does before encoding: clamp to [-1, 1] and
/// scale to the 16-bit range.
fn to_pcm16(samples: &[f32]) -> Vec<i16> {
    samples.iter().map(|s| (s.clamp(-1.0, 1.0) * i16::MAX as f32) as i16).collect()
}

#[test]
fn encode_wav_roundtrips_through_hound() {
    let samples = vec![0.0f32, 0.5, -0.5, 1.0, -1.0];
    let bytes = encode_wav_pcm16(&to_pcm16(&samples)).unwrap();
    let reader = hound::WavReader::new(Cursor::new(bytes)).unwrap();
    let spec = reader.spec();
    assert_eq!(spec.channels, 1);
    assert_eq!(spec.sample_rate, 16000);
    assert_eq!(spec.bits_per_sample, 16);
    assert_eq!(reader.len() as usize, samples.len());
}

#[test]
fn encode_wav_empty_samples_produces_valid_header() {
    let bytes = encode_wav_pcm16(&to_pcm16(&[])).unwrap();
    let reader = hound::WavReader::new(Cursor::new(bytes)).unwrap();
    assert_eq!(reader.len(), 0);
}

#[test]
fn encode_wav_writes_the_canonical_header_and_samples() {
    let bytes = encode_wav_pcm16(&[0, 16383, -16383, i16::MAX, i16::MIN]).unwrap();
    let mut expected: Vec<u8> = Vec::new();
    expected.extend_from_slice(b"RIFF");
    expected.extend_from_slice(&(36u32 + 10).to_le_bytes());
    expected.extend_from_slice(b"WAVEfmt ");
    expected.extend_from_slice(&16u32.to_le_bytes());
    expected.extend_from_slice(&1u16.to_le_bytes());
    expected.extend_from_slice(&1u16.to_le_bytes());
    expected.extend_from_slice(&16000u32.to_le_bytes());
    expected.extend_from_slice(&32000u32.to_le_bytes());
    expected.extend_from_slice(&2u16.to_le_bytes());
    expected.extend_from_slice(&16u16.to_le_bytes());
    expected.extend_from_slice(b"data");
    expected.extend_from_slice(&10u32.to_le_bytes());
    for s in [0i16, 16383, -16383, i16::MAX, i16::MIN] {
        expected.extend_from_slice(&s.to_le_bytes());
    }
    assert_eq!(bytes.len(), 44 + 10);
    assert_eq!(bytes, expected);
}

#[test]
fn encoded_samples_read_back_unchanged() {
    let samples: Vec<i16> = vec![1, -2, 300, -400, 32767, -32768];
    let bytes = encode_wav_pcm16(&samples).unwrap();
    let mut reader = hound::WavReader::new(Cursor::new(bytes)).unwrap();
    let back: Vec<i16> = reader.samples::<i16>().map(|s| s.unwrap()).collect();
    assert_eq!(back, samples);
}
