//! The materialized waveform: one owned buffer of interleaved sample words
//! plus its geometry.

use vstd::prelude::*;

use crate::errors::Error;
use crate::signal::Signal;
use crate::signal::Source;

verus! {

/// A fully materialized waveform.
///
/// Samples are stored as raw 32-bit words in frame-major interleaved order:
/// the word for (frame `f`, channel `c`) lives at index
/// `f * num_channels + c`. A word is the bit pattern of one single-precision
/// sample; this crate moves, copies and counts the words but never reads a
/// numeric value out of one, so the buffer's geometry is independent of any
/// floating-point interpretation.
#[derive(Debug)]
pub struct Waveform {
    frame_rate_hz: u32,
    num_channels: u16,
    interleaved_samples: Vec<u32>,
}

impl Waveform {
    /// The frame rate, as the contracts see it.
    pub closed spec fn spec_frame_rate_hz(self) -> u32 {
        self.frame_rate_hz
    }

    /// The channel count, as the contracts see it.
    pub closed spec fn spec_num_channels(self) -> u16 {
        self.num_channels
    }

    /// The interleaved sample words, as the contracts see them.
    pub closed spec fn spec_samples(self) -> Seq<u32> {
        self.interleaved_samples@
    }

    /// The frame count: the buffer length divided by the channel count.
    pub open spec fn spec_num_frames(self) -> int {
        self.spec_samples().len() as int / self.spec_num_channels() as int
    }

    /// Every waveform this crate hands out satisfies this: a positive frame
    /// rate, a positive channel count, and a buffer holding whole frames.
    #[verifier::type_invariant]
    pub open spec fn has_valid_geometry(self) -> bool {
        &&& self.spec_frame_rate_hz() > 0
        &&& self.spec_num_channels() > 0
        &&& self.spec_samples().len() % (self.spec_num_channels() as nat) == 0
    }

    /// Builds a waveform directly from raw interleaved sample words
    /// (synthetic construction, e.g. for tests or generated audio).
    pub fn from_interleaved_samples(
        frame_rate_hz: u32,
        num_channels: u16,
        interleaved_samples: Vec<u32>,
    ) -> (w: Waveform)
        requires
            frame_rate_hz > 0,
            num_channels > 0,
            interleaved_samples@.len() % (num_channels as nat) == 0,
        ensures
            w.spec_frame_rate_hz() == frame_rate_hz,
            w.spec_num_channels() == num_channels,
            w.spec_samples() == interleaved_samples@,
    {
        Waveform { frame_rate_hz, num_channels, interleaved_samples }
    }

    /// The number of frames per second.
    pub fn frame_rate_hz(&self) -> (r: u32)
        ensures
            r == self.spec_frame_rate_hz(),
    {
        self.frame_rate_hz
    }

    /// The number of channels interleaved in each frame.
    pub fn num_channels(&self) -> (r: u16)
        ensures
            r == self.spec_num_channels(),
    {
        self.num_channels
    }

    /// The number of frames in the buffer.
    pub fn num_frames(&self) -> (r: u64)
        ensures
            r == self.spec_num_frames(),
    {
        proof {
            use_type_invariant(&*self);
        }
        (self.interleaved_samples.len() / (self.num_channels as usize)) as u64
    }

    /// A read view over the interleaved sample words.
    pub fn to_interleaved_samples(&self) -> (r: &Vec<u32>)
        ensures
            r@ == self.spec_samples(),
    {
        &self.interleaved_samples
    }

    /// Materializes a waveform by draining a source to completion: the
    /// result carries the source's reported geometry and exactly the sample
    /// words the source had pending.
    ///
    /// A zero reported frame rate or a drained total that is not a whole
    /// number of frames is a decode failure, a zero reported channel count an
    /// unsupported layout, and an error pulled mid-stream surfaces as the
    /// overall failure, discarding everything pulled before it.
    pub fn from_source<S: Source>(source: &mut S) -> (r: Result<Waveform, Error>)
        ensures
            old(source).spec_frame_rate_hz() == 0 ==> r == Err::<Waveform, Error>(
                Error::DecodeFailure,
            ),
            old(source).spec_frame_rate_hz() != 0 && old(source).spec_num_channels() == 0 ==> r
                == Err::<Waveform, Error>(Error::UnsupportedChannelLayout),
            r matches Ok(w) ==> {
                &&& w.spec_frame_rate_hz() == old(source).spec_frame_rate_hz()
                &&& w.spec_num_channels() == old(source).spec_num_channels()
                &&& w.spec_samples() == old(source).spec_pending()
            },
            old(source).spec_infallible() && old(source).spec_frame_rate_hz() != 0 && old(
                source,
            ).spec_num_channels() != 0 && old(source).spec_pending().len() % (old(
                source,
            ).spec_num_channels() as nat) == 0 ==> r matches Ok(_),
    {
        let frame_rate_hz = source.frame_rate_hz();
        let num_channels = source.num_channels();
        if frame_rate_hz == 0 {
            return Err(Error::DecodeFailure);
        }
        if num_channels == 0 {
            return Err(Error::UnsupportedChannelLayout);
        }
        let mut interleaved_samples: Vec<u32> = Vec::new();
        loop
            invariant
                frame_rate_hz > 0,
                num_channels > 0,
                frame_rate_hz == old(source).spec_frame_rate_hz(),
                num_channels == old(source).spec_num_channels(),
                old(source).spec_infallible() ==> source.spec_infallible(),
                interleaved_samples@ + source.spec_pending() == old(source).spec_pending(),
            ensures
                interleaved_samples@ == old(source).spec_pending(),
            decreases source.spec_remaining(),
        {
            match source.next_chunk() {
                Err(e) => {
                    return Err(e);
                },
                Ok(None) => {
                    proof {
                        assert(interleaved_samples@ + source.spec_pending()
                            =~= interleaved_samples@);
                    }
                    break;
                },
                Ok(Some(mut chunk)) => {
                    proof {
                        assert((interleaved_samples@ + chunk@) + source.spec_pending()
                            =~= interleaved_samples@ + (chunk@ + source.spec_pending()));
                    }
                    interleaved_samples.append(&mut chunk);
                },
            }
        }
        if interleaved_samples.len() % (num_channels as usize) != 0 {
            return Err(Error::DecodeFailure);
        }
        Ok(Waveform { frame_rate_hz, num_channels, interleaved_samples })
    }
}

impl Signal for Waveform {
    open spec fn spec_frame_rate_hz(&self) -> u32 {
        Waveform::spec_frame_rate_hz(*self)
    }

    open spec fn spec_num_channels(&self) -> u16 {
        Waveform::spec_num_channels(*self)
    }

    fn frame_rate_hz(&self) -> (r: u32) {
        Waveform::frame_rate_hz(self)
    }

    fn num_channels(&self) -> (r: u16) {
        Waveform::num_channels(self)
    }

    fn num_frames_estimate(&self) -> (r: Option<usize>)
        ensures
            r matches Some(n) && n == self.spec_num_frames(),
    {
        proof {
            use_type_invariant(&*self);
        }
        Some(self.interleaved_samples.len() / (self.num_channels as usize))
    }
}

} // verus!
