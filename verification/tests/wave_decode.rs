//! Decoding tests: the built-in wave backend, the dispatch entry points and
//! their error taxonomy.

use babycat::Decoder;
use babycat::Error;
use babycat::Signal;
use babycat::Waveform;
use babycat::DECODING_BACKEND_FFMPEG;
use babycat::DECODING_BACKEND_WAVE;
use babycat::DEFAULT_DECODING_BACKEND;

const COF_FRAME_RATE_HZ: u32 = 44100;
const COF_NUM_CHANNELS: u16 = 2;
const COF_NUM_FRAMES: u64 = 2492928;

fn wave_bytes(frame_rate_hz: u32, num_channels: u16, samples: &[f32]) -> Vec<u8> {
    let data_len: u32 = (samples.len() * 4) as u32;
    let riff_len: u32 = 4 + (8 + 16) + (8 + data_len);
    let mut b: Vec<u8> = Vec::new();
    b.extend_from_slice(b"RIFF");
    b.extend_from_slice(&riff_len.to_le_bytes());
    b.extend_from_slice(b"WAVE");
    b.extend_from_slice(b"fmt ");
    b.extend_from_slice(&16u32.to_le_bytes());
    b.extend_from_slice(&3u16.to_le_bytes());
    b.extend_from_slice(&num_channels.to_le_bytes());
    b.extend_from_slice(&frame_rate_hz.to_le_bytes());
    let byte_rate: u32 = frame_rate_hz.wrapping_mul(num_channels as u32).wrapping_mul(4);
    b.extend_from_slice(&byte_rate.to_le_bytes());
    b.extend_from_slice(&(num_channels.wrapping_mul(4)).to_le_bytes());
    b.extend_from_slice(&32u16.to_le_bytes());
    b.extend_from_slice(b"data");
    b.extend_from_slice(&data_len.to_le_bytes());
    for s in samples {
        b.extend_from_slice(&s.to_bits().to_le_bytes());
    }
    b
}

fn decode(bytes: &[u8]) -> Result<Waveform, Error> {
    Waveform::from_encoded_bytes(DEFAULT_DECODING_BACKEND, bytes)
}

#[test]
fn begin_then_drain_matches_direct_decode() {
    let samples: Vec<f32> = vec![0.5, -0.5, 0.25, -0.25];
    let bytes = wave_bytes(48000, 2, &samples);
    let decoder = babycat::from_encoded_bytes(DEFAULT_DECODING_BACKEND, &bytes).unwrap();
    let mut source = decoder.begin().unwrap();
    let drained = Waveform::from_source(&mut source).unwrap();
    let direct = decode(&bytes).unwrap();
    assert_eq!(drained.frame_rate_hz(), direct.frame_rate_hz());
    assert_eq!(drained.num_channels(), direct.num_channels());
    assert_eq!(
        drained.to_interleaved_samples(),
        direct.to_interleaved_samples()
    );
}

#[test]
fn test_circus_of_freaks_default_1() {
    let total = (COF_NUM_FRAMES as usize) * (COF_NUM_CHANNELS as usize);
    let mut samples: Vec<f32> = Vec::with_capacity(total);
    for i in 0..total {
        samples.push(((i % 101) as f32) / 101.0 - 0.5);
    }
    let bytes = wave_bytes(COF_FRAME_RATE_HZ, COF_NUM_CHANNELS, &samples);
    let waveform = decode(&bytes).unwrap();
    assert_eq!(waveform.num_channels(), COF_NUM_CHANNELS);
    assert_eq!(waveform.num_frames(), COF_NUM_FRAMES);
    assert_eq!(waveform.frame_rate_hz(), COF_FRAME_RATE_HZ)
}

#[test]
fn decoded_samples_are_bit_exact() {
    let samples: Vec<f32> = vec![0.0, 1.0, -1.0, 0.25, -0.25, 123.456];
    let bytes = wave_bytes(48000, 2, &samples);
    let waveform = decode(&bytes).unwrap();
    assert_eq!(waveform.frame_rate_hz(), 48000);
    assert_eq!(waveform.num_channels(), 2);
    assert_eq!(waveform.num_frames(), 3);
    let words = waveform.to_interleaved_samples();
    let expected: Vec<u32> = samples.iter().map(|s| s.to_bits()).collect();
    assert_eq!(words, &expected);
}

#[test]
fn decoder_reports_signal_descriptor() {
    let samples: Vec<f32> = vec![0.5, -0.5, 0.5, -0.5];
    let bytes = wave_bytes(22050, 1, &samples);
    let decoder = babycat::from_encoded_bytes(DECODING_BACKEND_WAVE, &bytes).unwrap();
    assert_eq!(decoder.frame_rate_hz(), 22050);
    assert_eq!(decoder.num_channels(), 1);
    assert_eq!(decoder.num_frames_estimate(), Some(4));
}

#[test]
fn bad_magic_is_unrecognized_format() {
    let bytes = vec![0u8; 64];
    assert_eq!(decode(&bytes).unwrap_err(), Error::UnrecognizedFormat);
    let short = vec![0x52u8, 0x49, 0x46];
    assert_eq!(decode(&short).unwrap_err(), Error::UnrecognizedFormat);
}

#[test]
fn integer_pcm_is_unrecognized_format() {
    let samples: Vec<f32> = vec![0.0, 0.0];
    let mut bytes = wave_bytes(44100, 1, &samples);
    // Rewrite the fmt tag to declare integer PCM with 16-bit samples.
    bytes[20] = 1;
    bytes[34] = 16;
    assert_eq!(decode(&bytes).unwrap_err(), Error::UnrecognizedFormat);
}

#[test]
fn zero_channels_is_unsupported_layout() {
    let samples: Vec<f32> = vec![0.0, 0.0];
    let mut bytes = wave_bytes(44100, 1, &samples);
    bytes[22] = 0;
    bytes[23] = 0;
    assert_eq!(decode(&bytes).unwrap_err(), Error::UnsupportedChannelLayout);
}

#[test]
fn zero_frame_rate_is_decode_failure() {
    let samples: Vec<f32> = vec![0.0, 0.0];
    let mut bytes = wave_bytes(44100, 1, &samples);
    for i in 24..28 {
        bytes[i] = 0;
    }
    assert_eq!(decode(&bytes).unwrap_err(), Error::DecodeFailure);
}

#[test]
fn truncated_data_chunk_is_decode_failure() {
    let samples: Vec<f32> = vec![0.0, 0.0, 0.0, 0.0];
    let mut bytes = wave_bytes(44100, 2, &samples);
    bytes.truncate(bytes.len() - 6);
    assert_eq!(decode(&bytes).unwrap_err(), Error::DecodeFailure);
}

#[test]
fn partial_frame_is_decode_failure() {
    // Three sample words do not form whole stereo frames.
    let samples: Vec<f32> = vec![0.0, 0.0, 0.0];
    let bytes = wave_bytes(44100, 2, &samples);
    assert_eq!(decode(&bytes).unwrap_err(), Error::DecodeFailure);
}

#[test]
fn missing_data_chunk_is_decode_failure() {
    let samples: Vec<f32> = vec![];
    let mut bytes = wave_bytes(44100, 1, &samples);
    // Rename the (empty) data chunk so no data chunk is found.
    let n = bytes.len();
    bytes[n - 8] = b'x';
    assert_eq!(decode(&bytes).unwrap_err(), Error::DecodeFailure);
}

#[test]
fn hints_are_advisory_only() {
    let samples: Vec<f32> = vec![0.125, -0.125];
    let bytes = wave_bytes(8000, 1, &samples);
    let with_odd_hints = babycat::from_encoded_bytes_with_hint(
        DEFAULT_DECODING_BACKEND,
        &bytes,
        "mp3",
        "audio/mpeg",
    )
    .unwrap();
    let with_defaults = babycat::from_encoded_bytes(DEFAULT_DECODING_BACKEND, &bytes).unwrap();
    assert_eq!(with_odd_hints.frame_rate_hz(), with_defaults.frame_rate_hz());
    assert_eq!(with_odd_hints.num_channels(), with_defaults.num_channels());
    assert_eq!(
        with_odd_hints.num_frames_estimate(),
        with_defaults.num_frames_estimate()
    );
}

#[test]
fn stream_entry_points_match_bytes_entry_points() {
    let samples: Vec<f32> = vec![0.5, 0.25, -0.5, -0.25];
    let bytes = wave_bytes(16000, 2, &samples);
    let from_stream =
        babycat::from_encoded_stream(DEFAULT_DECODING_BACKEND, bytes.clone()).unwrap();
    let from_bytes = babycat::from_encoded_bytes(DEFAULT_DECODING_BACKEND, &bytes).unwrap();
    assert_eq!(from_stream.frame_rate_hz(), from_bytes.frame_rate_hz());
    assert_eq!(from_stream.num_channels(), from_bytes.num_channels());
}

#[test]
fn ffmpeg_backend_is_not_compiled() {
    let samples: Vec<f32> = vec![0.0, 0.0];
    let bytes = wave_bytes(44100, 1, &samples);
    // A perfectly decodable container: the explicitly requested backend must
    // still fail rather than silently fall back to the built-in one.
    let r = babycat::from_encoded_bytes(DECODING_BACKEND_FFMPEG, &bytes);
    assert_eq!(
        r.unwrap_err(),
        Error::FeatureNotCompiled("decoding-backend-ffmpeg")
    );
}

#[test]
fn unknown_backend_is_not_compiled() {
    let samples: Vec<f32> = vec![0.0, 0.0];
    let bytes = wave_bytes(44100, 1, &samples);
    let r = babycat::from_encoded_bytes(77, &bytes);
    assert_eq!(
        r.unwrap_err(),
        Error::FeatureNotCompiled("decoding-backend-unknown")
    );
}

#[test]
fn from_file_decodes_read_bytes() {
    let samples: Vec<f32> = vec![0.5, -0.5];
    let bytes = wave_bytes(32000, 1, &samples);
    let decoder = babycat::from_file(DEFAULT_DECODING_BACKEND, Ok(bytes.clone())).unwrap();
    assert_eq!(decoder.frame_rate_hz(), 32000);
    assert_eq!(decoder.num_channels(), 1);
    let waveform = Waveform::from_file(DEFAULT_DECODING_BACKEND, Ok(bytes)).unwrap();
    assert_eq!(waveform.frame_rate_hz(), 32000);
    assert_eq!(waveform.num_channels(), 1);
    assert_eq!(waveform.num_frames(), 2);
}

#[test]
fn from_file_propagates_read_errors() {
    let r = babycat::from_file(DEFAULT_DECODING_BACKEND, Err(Error::FileNotFound));
    assert_eq!(r.unwrap_err(), Error::FileNotFound);
    let r = babycat::from_file(DECODING_BACKEND_WAVE, Err(Error::IoFailure));
    assert_eq!(r.unwrap_err(), Error::IoFailure);
    let r = Waveform::from_file(DEFAULT_DECODING_BACKEND, Err(Error::FileNotFound));
    assert_eq!(r.unwrap_err(), Error::FileNotFound);
}

#[test]
fn from_file_judges_backend_before_contents() {
    // The missing backend wins over the missing file: no silent fallback.
    let r = babycat::from_file(DECODING_BACKEND_FFMPEG, Err(Error::FileNotFound));
    assert_eq!(
        r.unwrap_err(),
        Error::FeatureNotCompiled("decoding-backend-ffmpeg")
    );
}

#[test]
fn extra_chunks_before_data_are_skipped() {
    // A container with a LIST chunk (odd-sized, so padded) between fmt and
    // data still decodes: the walk skips what it does not know.
    let samples: Vec<f32> = vec![0.5, -0.5, 0.25, -0.25];
    let canonical = wave_bytes(44100, 2, &samples);
    let mut bytes: Vec<u8> = Vec::new();
    bytes.extend_from_slice(&canonical[..36]);
    bytes.extend_from_slice(b"LIST");
    bytes.extend_from_slice(&5u32.to_le_bytes());
    bytes.extend_from_slice(&[1, 2, 3, 4, 5, 0]);
    bytes.extend_from_slice(&canonical[36..]);
    let riff_len = (bytes.len() - 8) as u32;
    bytes[4..8].copy_from_slice(&riff_len.to_le_bytes());
    let waveform = decode(&bytes).unwrap();
    assert_eq!(waveform.num_frames(), 2);
    assert_eq!(waveform.num_channels(), 2);
    let expected: Vec<u32> = samples.iter().map(|s| s.to_bits()).collect();
    assert_eq!(waveform.to_interleaved_samples(), &expected);
}

#[test]
fn empty_data_chunk_decodes_to_empty_waveform() {
    let samples: Vec<f32> = vec![];
    let bytes = wave_bytes(44100, 2, &samples);
    let waveform = decode(&bytes).unwrap();
    assert_eq!(waveform.num_frames(), 0);
    assert_eq!(waveform.num_channels(), 2);
    assert_eq!(waveform.frame_rate_hz(), 44100);
}
