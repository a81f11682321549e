//! Backend selection: one call site, interchangeable decoders picked by a
//! tag from a closed set, with structured errors for tags that are unknown
//! or not compiled into this build.

use vstd::prelude::*;

use crate::constants::DECODING_BACKEND_FFMPEG;
use crate::constants::DECODING_BACKEND_WAVE;
use crate::constants::DEFAULT_DECODING_BACKEND;
use crate::constants::DEFAULT_FILE_EXTENSION;
use crate::constants::DEFAULT_MIME_TYPE;
use crate::errors::Error;
use crate::signal::Signal;
use crate::signal::Source;
use crate::wave::well_formed_wave;
use crate::wave::has_riff_wave_magic;
use crate::wave::wave_parse_ok;
use crate::wave::WaveDecoder;

verus! {

/// Methods common to all audio decoders: a decoder knows its geometry and
/// can open its stream of decoded sample chunks exactly once.
pub trait Decoder: Signal {
    /// The stream type this decoder produces.
    type Stream: Source;

    /// Opens the stream of decoded sample chunks, consuming the decoder.
    fn begin(self) -> Result<Self::Stream, Error>;
}

/// The closed set of decoding backend tags this library knows.
pub open spec fn known_decoding_backend(decoding_backend: u32) -> bool {
    ||| decoding_backend == DEFAULT_DECODING_BACKEND
    ||| decoding_backend == DECODING_BACKEND_WAVE
    ||| decoding_backend == DECODING_BACKEND_FFMPEG
}

/// The tags that select the built-in wave backend in this build: the wave
/// tag itself, and the default tag (no optional backend is compiled in to
/// take precedence for it).
pub open spec fn wave_backend_selected(decoding_backend: u32) -> bool {
    ||| decoding_backend == DEFAULT_DECODING_BACKEND
    ||| decoding_backend == DECODING_BACKEND_WAVE
}

/// What every dispatch entry point guarantees once a backend tag was picked:
/// the built-in backend parses the bytes exactly and is owed success on
/// every well-formed container; the optional external backend and unknown
/// tags fail with a structured error naming the missing component — never by
/// silently substituting another backend.
pub open spec fn dispatch_outcome(
    decoding_backend: u32,
    encoded_bytes: Seq<u8>,
    r: Result<WaveDecoder, Error>,
) -> bool {
    &&& wave_backend_selected(decoding_backend) ==> {
        &&& (r matches Ok(d) ==> wave_parse_ok(
            encoded_bytes,
            d.spec_frame_rate_hz(),
            d.spec_num_channels(),
            d.spec_samples(),
        ))
        &&& (!has_riff_wave_magic(encoded_bytes) ==> r == Err::<WaveDecoder, Error>(
            Error::UnrecognizedFormat,
        ))
        &&& (well_formed_wave(encoded_bytes) ==> r matches Ok(_))
    }
    &&& decoding_backend == DECODING_BACKEND_FFMPEG ==> (r matches Err(e) && e matches Error::FeatureNotCompiled(c)
        && c@ == "decoding-backend-ffmpeg"@)
    &&& !known_decoding_backend(decoding_backend) ==> (r matches Err(e) && e matches Error::FeatureNotCompiled(c)
        && c@ == "decoding-backend-unknown"@)
}

/// Constructs the decoder selected by `decoding_backend` over an in-memory
/// encoded stream, with demuxer hints.
///
/// The hints are advisory only: the built-in backend identifies its
/// container by magic bytes alone, so they never change the outcome.
pub fn from_encoded_stream_with_hint(
    decoding_backend: u32,
    encoded_stream: Vec<u8>,
    file_extension: &str,
    mime_type: &str,
) -> (r: Result<WaveDecoder, Error>)
    ensures
        dispatch_outcome(decoding_backend, encoded_stream@, r),
{
    from_encoded_bytes_with_hint(
        decoding_backend,
        encoded_stream.as_slice(),
        file_extension,
        mime_type,
    )
}

/// Constructs the decoder selected by `decoding_backend` over an in-memory
/// encoded stream, with default hints.
pub fn from_encoded_stream(decoding_backend: u32, encoded_stream: Vec<u8>) -> (r: Result<
    WaveDecoder,
    Error,
>)
    ensures
        dispatch_outcome(decoding_backend, encoded_stream@, r),
{
    from_encoded_stream_with_hint(
        decoding_backend,
        encoded_stream,
        DEFAULT_FILE_EXTENSION,
        DEFAULT_MIME_TYPE,
    )
}

/// Constructs the decoder selected by `decoding_backend` over an encoded
/// byte slice, with demuxer hints (advisory only, as above).
pub fn from_encoded_bytes_with_hint(
    decoding_backend: u32,
    encoded_bytes: &[u8],
    file_extension: &str,
    mime_type: &str,
) -> (r: Result<WaveDecoder, Error>)
    ensures
        dispatch_outcome(decoding_backend, encoded_bytes@, r),
{
    if decoding_backend == DEFAULT_DECODING_BACKEND || decoding_backend == DECODING_BACKEND_WAVE {
        WaveDecoder::from_encoded_bytes(encoded_bytes)
    } else if decoding_backend == DECODING_BACKEND_FFMPEG {
        Err(Error::FeatureNotCompiled("decoding-backend-ffmpeg"))
    } else {
        Err(Error::FeatureNotCompiled("decoding-backend-unknown"))
    }
}

/// Constructs the decoder selected by `decoding_backend` over an encoded
/// byte slice, with default hints.
pub fn from_encoded_bytes(decoding_backend: u32, encoded_bytes: &[u8]) -> (r: Result<
    WaveDecoder,
    Error,
>)
    ensures
        dispatch_outcome(decoding_backend, encoded_bytes@, r),
{
    from_encoded_bytes_with_hint(
        decoding_backend,
        encoded_bytes,
        DEFAULT_FILE_EXTENSION,
        DEFAULT_MIME_TYPE,
    )
}

/// Constructs the decoder selected by `decoding_backend` over the outcome of
/// reading one file.
///
/// Reading the file is the caller's I/O edge; this function makes every
/// decision after it. The backend tag is judged first, exactly as the other
/// entry points judge it — an explicitly requested backend that is not
/// compiled in fails even when the file could not be read, and is never
/// silently substituted. For a selected built-in backend, a failed read
/// surfaces as its own error and a successful read is parsed exactly.
pub fn from_file(decoding_backend: u32, file_contents: Result<Vec<u8>, Error>) -> (r: Result<
    WaveDecoder,
    Error,
>)
    ensures
        decoding_backend == DECODING_BACKEND_FFMPEG ==> (r matches Err(e) && e matches Error::FeatureNotCompiled(c)
            && c@ == "decoding-backend-ffmpeg"@),
        !known_decoding_backend(decoding_backend) ==> (r matches Err(e) && e matches Error::FeatureNotCompiled(c)
            && c@ == "decoding-backend-unknown"@),
        wave_backend_selected(decoding_backend) ==> (file_contents matches Err(e) ==> r == Err::<
            WaveDecoder,
            Error,
        >(e)),
        wave_backend_selected(decoding_backend) ==> (file_contents matches Ok(bytes)
            ==> dispatch_outcome(decoding_backend, bytes@, r)),
{
    if decoding_backend == DECODING_BACKEND_FFMPEG {
        return Err(Error::FeatureNotCompiled("decoding-backend-ffmpeg"));
    }
    if !(decoding_backend == DEFAULT_DECODING_BACKEND || decoding_backend
        == DECODING_BACKEND_WAVE) {
        return Err(Error::FeatureNotCompiled("decoding-backend-unknown"));
    }
    match file_contents {
        Err(e) => Err(e),
        Ok(bytes) => WaveDecoder::from_encoded_bytes(bytes.as_slice()),
    }
}

} // verus!
