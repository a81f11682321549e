//! Waveform materialization: backend dispatch composed with the drain loop,
//! so one call turns encoded bytes (or the outcome of reading a file) into a
//! fully decoded waveform.

use vstd::prelude::*;

use crate::constants::DECODING_BACKEND_FFMPEG;
use crate::decoder::known_decoding_backend;
use crate::decoder::wave_backend_selected;
use crate::decoder::Decoder;
use crate::errors::Error;
use crate::wave::well_formed_wave;
use crate::wave::has_riff_wave_magic;
use crate::wave::wave_parse_ok;
use crate::waveform::Waveform;

verus! {

/// What materializing a waveform from encoded bytes guarantees, for every
/// backend tag: the built-in backend yields exactly the container's declared
/// geometry and sample words, and is owed success on every well-formed
/// container; the optional external backend and unknown tags fail with a
/// structured error naming the missing component, never by falling back to
/// another backend.
pub open spec fn waveform_decode_outcome(
    decoding_backend: u32,
    encoded_bytes: Seq<u8>,
    r: Result<Waveform, Error>,
) -> bool {
    &&& decoding_backend == DECODING_BACKEND_FFMPEG ==> (r matches Err(e) && e matches Error::FeatureNotCompiled(c)
        && c@ == "decoding-backend-ffmpeg"@)
    &&& !known_decoding_backend(decoding_backend) ==> (r matches Err(e) && e matches Error::FeatureNotCompiled(c)
        && c@ == "decoding-backend-unknown"@)
    &&& wave_backend_selected(decoding_backend) ==> {
        &&& (r matches Ok(w) ==> wave_parse_ok(
            encoded_bytes,
            w.spec_frame_rate_hz(),
            w.spec_num_channels(),
            w.spec_samples(),
        ))
        &&& (!has_riff_wave_magic(encoded_bytes) ==> r == Err::<Waveform, Error>(
            Error::UnrecognizedFormat,
        ))
        &&& (well_formed_wave(encoded_bytes) ==> r matches Ok(_))
    }
}

impl Waveform {
    /// Decodes an in-memory encoded byte slice to a materialized waveform:
    /// backend dispatch, stream opening and the drain loop in one call.
    pub fn from_encoded_bytes(decoding_backend: u32, encoded_bytes: &[u8]) -> (r: Result<
        Waveform,
        Error,
    >)
        ensures
            waveform_decode_outcome(decoding_backend, encoded_bytes@, r),
    {
        let decoder = match crate::decoder::from_encoded_bytes(decoding_backend, encoded_bytes) {
            Err(e) => {
                return Err(e);
            },
            Ok(d) => d,
        };
        let mut source = match decoder.begin() {
            Err(e) => {
                return Err(e);
            },
            Ok(s) => s,
        };
        Waveform::from_source(&mut source)
    }

    /// Decodes an in-memory encoded stream to a materialized waveform.
    pub fn from_encoded_stream(decoding_backend: u32, encoded_stream: Vec<u8>) -> (r: Result<
        Waveform,
        Error,
    >)
        ensures
            waveform_decode_outcome(decoding_backend, encoded_stream@, r),
    {
        Waveform::from_encoded_bytes(decoding_backend, encoded_stream.as_slice())
    }

    /// Decodes the outcome of reading one file to a materialized waveform.
    ///
    /// Reading the file is the caller's I/O edge; as in
    /// [`crate::from_file`], the backend tag is judged before the read
    /// outcome, and a failed read surfaces as its own error.
    pub fn from_file(decoding_backend: u32, file_contents: Result<Vec<u8>, Error>) -> (r: Result<
        Waveform,
        Error,
    >)
        ensures
            decoding_backend == DECODING_BACKEND_FFMPEG ==> (r matches Err(e) && e matches Error::FeatureNotCompiled(c)
                && c@ == "decoding-backend-ffmpeg"@),
            !known_decoding_backend(decoding_backend) ==> (r matches Err(e) && e matches Error::FeatureNotCompiled(c)
                && c@ == "decoding-backend-unknown"@),
            wave_backend_selected(decoding_backend) ==> (file_contents matches Err(e) ==> r
                == Err::<Waveform, Error>(e)),
            wave_backend_selected(decoding_backend) ==> (file_contents matches Ok(bytes)
                ==> waveform_decode_outcome(decoding_backend, bytes@, r)),
    {
        if decoding_backend == DECODING_BACKEND_FFMPEG {
            return Err(Error::FeatureNotCompiled("decoding-backend-ffmpeg"));
        }
        if !(decoding_backend == crate::constants::DEFAULT_DECODING_BACKEND || decoding_backend
            == crate::constants::DECODING_BACKEND_WAVE) {
            return Err(Error::FeatureNotCompiled("decoding-backend-unknown"));
        }
        match file_contents {
            Err(e) => Err(e),
            Ok(bytes) => Waveform::from_encoded_bytes(decoding_backend, bytes.as_slice()),
        }
    }
}

} // verus!
