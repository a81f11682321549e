//! Tags for the closed sets of decoding backends and resample modes.

use vstd::prelude::*;

verus! {

/// Let the library pick the decoding backend.
pub const DEFAULT_DECODING_BACKEND: u32 = 0;

/// The built-in backend: an in-process reader for uncompressed waveform
/// audio containers, always compiled in.
pub const DECODING_BACKEND_WAVE: u32 = 1;

/// An optional external codec backend. This build does not compile it in,
/// so selecting it explicitly fails with [`crate::Error::FeatureNotCompiled`].
pub const DECODING_BACKEND_FFMPEG: u32 = 2;

/// Let the library pick the resampling algorithm.
pub const DEFAULT_RESAMPLE_MODE: u32 = 0;

/// Delegate resampling to the third-party `libsamplerate` library.
/// This build does not compile that optional dependency in, so selecting
/// it fails with [`crate::Error::FeatureNotCompiled`].
pub const RESAMPLE_MODE_LIBSAMPLERATE: u32 = 1;

/// The built-in Lanczos-kernel convolution resampler.
pub const RESAMPLE_MODE_BABYCAT_LANCZOS: u32 = 2;

/// The built-in windowed-sinc convolution resampler.
pub const RESAMPLE_MODE_BABYCAT_SINC: u32 = 3;

/// File-extension hint used when the caller does not supply one.
pub const DEFAULT_FILE_EXTENSION: &'static str = "";

/// MIME-type hint used when the caller does not supply one.
pub const DEFAULT_MIME_TYPE: &'static str = "";

/// The default number of workers for batch operations: zero lets the
/// concurrency runtime size the pool to the available logical cores.
pub const DEFAULT_NUM_WORKERS: u32 = 0;

} // verus!
