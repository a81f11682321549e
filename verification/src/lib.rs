//! Decoding and sample-rate conversion for interleaved audio waveforms.
//!
//! The crate materializes decoded audio into [`Waveform`] buffers of raw
//! 32-bit sample words (the bit patterns of single-precision samples; the
//! numeric interpretation of a word belongs to the caller), converts those
//! buffers between frame rates with an exact, mode-independent output
//! geometry, and assembles per-file batch outcomes without dropping or
//! reordering entries.

use vstd::prelude::*;

mod batch;
mod constants;
mod decoder;
mod errors;
mod materialize;
mod resample;
mod signal;
mod wave;
mod waveform;

pub use constants::DEFAULT_DECODING_BACKEND;
pub use constants::DECODING_BACKEND_WAVE;
pub use constants::DECODING_BACKEND_FFMPEG;
pub use constants::DEFAULT_RESAMPLE_MODE;
pub use constants::RESAMPLE_MODE_LIBSAMPLERATE;
pub use constants::RESAMPLE_MODE_BABYCAT_LANCZOS;
pub use constants::RESAMPLE_MODE_BABYCAT_SINC;
pub use constants::DEFAULT_FILE_EXTENSION;
pub use constants::DEFAULT_MIME_TYPE;
pub use constants::DEFAULT_NUM_WORKERS;
pub use errors::Error;
pub use batch::BatchArgs;
pub use batch::WaveformNamedResult;
pub use batch::waveform_named_results;
pub use decoder::Decoder;
pub use decoder::known_decoding_backend;
pub use decoder::wave_backend_selected;
pub use decoder::dispatch_outcome;
pub use decoder::from_encoded_stream_with_hint;
pub use decoder::from_encoded_stream;
pub use decoder::from_encoded_bytes_with_hint;
pub use decoder::from_encoded_bytes;
pub use decoder::from_file;
pub use resample::ResampleKernel;
pub use resample::expected_output_frames;
pub use resample::known_resample_mode;
pub use resample::supported_resample_mode;
pub use resample::resampled_geometry;
pub use resample::output_frame_count;
pub use resample::lemma_output_frame_count_is_exact_ceiling;
pub use resample::lemma_same_rate_output_frames;
pub use resample::lemma_resample_geometry_equivalence;
pub use signal::Signal;
pub use signal::Source;
pub use waveform::Waveform;
pub use materialize::waveform_decode_outcome;
pub use wave::WaveDecoder;
pub use wave::WaveSource;
pub use wave::wave_parse_ok;
pub use wave::has_riff_wave_magic;
pub use wave::canonical_wave_layout;
pub use wave::well_formed_wave;
pub use wave::wave_walk_accepts;
pub use wave::wave_chunk_id_is_fmt;
pub use wave::wave_chunk_id_is_data;
pub use wave::wave_next_chunk_offset;
pub use wave::lemma_canonical_wave_is_well_formed;
pub use wave::wave_fmt_chunk_at;
pub use wave::wave_fmt_rate;
pub use wave::wave_fmt_channels;
pub use wave::wave_data_chunk_at;
pub use wave::wave_data_words;
pub use wave::le16;
pub use wave::le32;
pub use wave::le_word;

verus! {

} // verus!
