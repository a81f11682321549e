//! The capability contracts shared by every decodable or resamplable entity.

use vstd::prelude::*;

use crate::errors::Error;

verus! {

/// A read-only descriptor of audio geometry: frame rate, channel count and,
/// when the entity knows it, an estimate of its total frame count.
pub trait Signal {
    /// The frame rate this entity reports, as the contracts see it.
    spec fn spec_frame_rate_hz(&self) -> u32;

    /// The channel count this entity reports, as the contracts see it.
    spec fn spec_num_channels(&self) -> u16;

    /// The number of frames per second.
    fn frame_rate_hz(&self) -> (r: u32)
        ensures
            r == self.spec_frame_rate_hz(),
    ;

    /// The number of channels interleaved in each frame.
    fn num_channels(&self) -> (r: u16)
        ensures
            r == self.spec_num_channels(),
    ;

    /// The total number of frames, where the entity can estimate it before
    /// its stream has been drained; `None` where it cannot.
    fn num_frames_estimate(&self) -> Option<usize>;
}

/// A pull-based supplier of interleaved sample chunks, produced by a
/// [`Decoder`](crate::Decoder) and consumed exactly once.
///
/// Each chunk carries raw 32-bit sample words in frame-major interleaved
/// order. `Ok(None)` signals end-of-stream; an `Err` mid-stream makes the
/// whole decode fail and discards what was pulled so far.
pub trait Source: Signal {
    /// The sample words this source has not yet handed out. A source
    /// supplies a finite stream: this is everything a full drain collects.
    spec fn spec_pending(&self) -> Seq<u32>;

    /// An upper bound on how many more times this source can still answer a
    /// pull with a chunk; every chunk handed out strictly lowers it, so
    /// draining the source terminates.
    spec fn spec_remaining(&self) -> nat;

    /// Whether this source can never fail a pull. An in-memory source is
    /// infallible; one backed by live I/O is not.
    spec fn spec_infallible(&self) -> bool;

    /// Pulls the next chunk of interleaved sample words. A chunk comes off
    /// the front of the pending samples; end-of-stream means none are left.
    fn next_chunk(&mut self) -> (r: Result<Option<Vec<u32>>, Error>)
        ensures
            r matches Ok(Some(c)) ==> final(self).spec_remaining() < old(self).spec_remaining(),
            r matches Ok(Some(c)) ==> old(self).spec_pending() == c@ + final(self).spec_pending(),
            r matches Ok(None) ==> final(self).spec_pending() == old(self).spec_pending()
                && final(self).spec_pending().len() == 0,
            final(self).spec_frame_rate_hz() == old(self).spec_frame_rate_hz(),
            final(self).spec_num_channels() == old(self).spec_num_channels(),
            old(self).spec_infallible() ==> (r matches Ok(_) && final(self).spec_infallible()),
    ;
}

} // verus!
