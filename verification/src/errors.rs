//! The error taxonomy shared by decoding, resampling and batch work.

use vstd::prelude::*;

verus! {

/// One structured reason for a decode, resample or batch failure.
///
/// Every fallible operation in this crate reports exactly one of these
/// variants; none of them panics or aborts the surrounding batch.
#[derive(Clone, Copy, Debug, PartialEq, Eq)]
pub enum Error {
    /// The named file does not exist.
    FileNotFound,
    /// The file exists but reading it failed (permissions, transient error).
    IoFailure,
    /// The byte stream is not a container this backend recognizes.
    UnrecognizedFormat,
    /// The container was recognized but its payload is corrupt or truncated.
    DecodeFailure,
    /// The stream declares a channel layout the library cannot hold.
    UnsupportedChannelLayout,
    /// The requested target frame rate is invalid (zero).
    InvalidResampleTarget,
    /// The resample mode tag is outside the closed set of known modes.
    InvalidResampleMode,
    /// The requested backend or mode is known but not compiled into this
    /// build; the payload identifies the missing component.
    FeatureNotCompiled(&'static str),
    /// The batch worker pool could not be constructed.
    WorkerPoolConstructionFailure,
}

} // verus!
