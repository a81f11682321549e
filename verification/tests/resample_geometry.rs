//! Resampling tests: every supported mode yields the same exact output
//! geometry, whatever its kernel does to the sample values.

use babycat::Error;
use babycat::ResampleKernel;
use babycat::Waveform;
use babycat::RESAMPLE_MODE_BABYCAT_LANCZOS;
use babycat::RESAMPLE_MODE_BABYCAT_SINC;
use babycat::RESAMPLE_MODE_LIBSAMPLERATE;

const COF_FRAME_RATE_HZ: u32 = 44100;
const COF_NUM_CHANNELS: u16 = 2;
const COF_NUM_FRAMES: u64 = 2492928;

const SUPPORTED_RESAMPLE_MODES: &[u32] =
    &[RESAMPLE_MODE_BABYCAT_LANCZOS, RESAMPLE_MODE_BABYCAT_SINC];

/// A plain averaging kernel: enough to drive the verified convolution loop
/// over real single-precision arithmetic.
struct MeanKernel;

impl ResampleKernel for MeanKernel {
    fn window_radius(&self, _resample_mode: u32) -> usize {
        2
    }

    fn mix_sample(
        &self,
        _resample_mode: u32,
        interleaved_samples: &Vec<u32>,
        num_channels: u16,
        channel: u16,
        window_lo: usize,
        window_hi: usize,
        _position_numerator: u128,
        _position_denominator: u32,
    ) -> u32 {
        let mut acc: f32 = 0.0;
        let mut count: f32 = 0.0;
        for frame in window_lo..window_hi {
            let word = interleaved_samples[frame * (num_channels as usize) + (channel as usize)];
            acc += f32::from_bits(word);
            count += 1.0;
        }
        if count > 0.0 {
            (acc / count).to_bits()
        } else {
            0f32.to_bits()
        }
    }
}

fn synthetic_waveform(frame_rate_hz: u32, num_channels: u16, num_frames: u64) -> Waveform {
    let total = (num_frames as usize) * (num_channels as usize);
    let mut words: Vec<u32> = Vec::with_capacity(total);
    for i in 0..total {
        let value = ((i % 97) as f32) / 97.0 - 0.5;
        words.push(value.to_bits());
    }
    Waveform::from_interleaved_samples(frame_rate_hz, num_channels, words)
}

fn resample_and_assert(
    test_name: &str,
    waveform: &Waveform,
    frame_rate_hz: u32,
    expected_num_channels: u16,
    expected_num_frames: u64,
    expected_frame_rate_hz: u32,
) {
    for &resample_mode in SUPPORTED_RESAMPLE_MODES {
        match waveform.resample_by_mode(frame_rate_hz, resample_mode, &MeanKernel) {
            Ok(resampled) => {
                let actual_num_channels = resampled.num_channels();
                assert_eq!(
                    actual_num_channels, expected_num_channels,
                    "Test {} expected {} channels. Got {}.",
                    test_name, expected_num_channels, actual_num_channels
                );
                let actual_num_frames = resampled.num_frames();
                assert_eq!(
                    actual_num_frames, expected_num_frames,
                    "Test {} expected {} frames. Got {}.",
                    test_name, expected_num_frames, actual_num_frames
                );
                let actual_frame_rate_hz = resampled.frame_rate_hz();
                assert_eq!(
                    actual_frame_rate_hz, expected_frame_rate_hz,
                    "Test {} expected frame rate as {} hz. Got {} hz.",
                    test_name, expected_frame_rate_hz, actual_frame_rate_hz
                );
            }
            Err(err) => panic!(
                "Test {} failed with error. Error message: {:?}",
                test_name, err
            ),
        }
    }
    // The third-party delegate is not compiled into this build; it must fail
    // with a structured error, never fall back to a built-in kernel.
    let r = waveform.resample_by_mode(frame_rate_hz, RESAMPLE_MODE_LIBSAMPLERATE, &MeanKernel);
    assert_eq!(
        r.unwrap_err(),
        Error::FeatureNotCompiled("resampler-libsamplerate")
    );
}

#[test]
fn test_circus_of_freaks_44099() {
    let waveform = synthetic_waveform(COF_FRAME_RATE_HZ, COF_NUM_CHANNELS, COF_NUM_FRAMES);
    resample_and_assert(
        "test_circus_of_freaks_44099",
        &waveform,
        44099,
        2,
        2492872,
        44099,
    );
}

#[test]
fn test_circus_of_freaks_22050() {
    let waveform = synthetic_waveform(COF_FRAME_RATE_HZ, COF_NUM_CHANNELS, COF_NUM_FRAMES);
    resample_and_assert(
        "test_circus_of_freaks_22050",
        &waveform,
        22050,
        2,
        COF_NUM_FRAMES / 2,
        22050,
    );
}

#[test]
fn test_circus_of_freaks_11025() {
    let waveform = synthetic_waveform(COF_FRAME_RATE_HZ, COF_NUM_CHANNELS, COF_NUM_FRAMES);
    resample_and_assert(
        "test_circus_of_freaks_11025",
        &waveform,
        11025,
        2,
        COF_NUM_FRAMES / 4,
        11025,
    );
}

#[test]
fn geometry_matches_across_modes_for_awkward_ratio() {
    let waveform = synthetic_waveform(44100, 3, 1000);
    let lanczos = waveform
        .resample_by_mode(44099, RESAMPLE_MODE_BABYCAT_LANCZOS, &MeanKernel)
        .unwrap();
    let sinc = waveform
        .resample_by_mode(44099, RESAMPLE_MODE_BABYCAT_SINC, &MeanKernel)
        .unwrap();
    assert_eq!(lanczos.num_frames(), sinc.num_frames());
    assert_eq!(lanczos.num_channels(), sinc.num_channels());
    assert_eq!(lanczos.frame_rate_hz(), sinc.frame_rate_hz());
    assert_eq!(lanczos.num_frames(), 1000);
}

#[test]
fn known_stereo_file_halved_rate() {
    // A stereo 44100 Hz waveform with 9,586,944 frames resampled to
    // 22,050 Hz must come out at exactly ceil(9586944 * 22050 / 44100)
    // = 4,793,472 frames for every supported mode.
    assert_eq!(babycat::output_frame_count(9586944, 44100, 22050), 4793472);
    let waveform = synthetic_waveform(44100, 2, 9586944 / 1024);
    for &resample_mode in SUPPORTED_RESAMPLE_MODES {
        let resampled = waveform
            .resample_by_mode(22050, resample_mode, &MeanKernel)
            .unwrap();
        assert_eq!(resampled.num_frames(), 9586944 / 1024 / 2);
        assert_eq!(resampled.num_channels(), 2);
        assert_eq!(resampled.frame_rate_hz(), 22050);
    }
}

#[test]
fn empty_waveform_resamples_to_empty() {
    let waveform = Waveform::from_interleaved_samples(44100, 2, Vec::new());
    for &resample_mode in SUPPORTED_RESAMPLE_MODES {
        let resampled = waveform
            .resample_by_mode(48000, resample_mode, &MeanKernel)
            .unwrap();
        assert_eq!(resampled.num_frames(), 0);
        assert_eq!(resampled.num_channels(), 2);
        assert_eq!(resampled.frame_rate_hz(), 48000);
    }
}
