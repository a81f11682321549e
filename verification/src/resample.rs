//! Frame-rate conversion with an exact, mode-independent output geometry.
//!
//! All resample modes share one output-length formula, one boundary policy
//! (the convolution window is clamped to the available frames, never padded
//! past an edge) and one driver loop; a mode only changes the kernel weights
//! used to mix the sample words inside each window. Kernel arithmetic works
//! on single-precision bit patterns and is supplied by the caller through
//! [`ResampleKernel`]; the driver fixes everything else.

use vstd::prelude::*;

use vstd::arithmetic::div_mod::lemma_basic_div;
use vstd::arithmetic::div_mod::lemma_div_by_multiple;
use vstd::arithmetic::div_mod::lemma_fundamental_div_mod;
use vstd::arithmetic::div_mod::lemma_mod_multiples_basic;
use vstd::arithmetic::mul::lemma_mul_inequality;
use vstd::arithmetic::mul::lemma_mul_upper_bound;

use crate::constants::DEFAULT_RESAMPLE_MODE;
use crate::constants::RESAMPLE_MODE_BABYCAT_LANCZOS;
use crate::constants::RESAMPLE_MODE_BABYCAT_SINC;
use crate::constants::RESAMPLE_MODE_LIBSAMPLERATE;
use crate::errors::Error;
use crate::waveform::Waveform;

verus! {

/// The exact output frame count of every resample:
/// `ceil(num_frames * target_rate / source_rate)`, written over the integer
/// numerator so no floating rounding can drift it.
pub open spec fn expected_output_frames(num_frames: int, source_rate: int, target_rate: int) -> int {
    (num_frames * target_rate + source_rate - 1) / source_rate
}

/// The closed set of resample mode tags this library knows.
pub open spec fn known_resample_mode(resample_mode: u32) -> bool {
    ||| resample_mode == DEFAULT_RESAMPLE_MODE
    ||| resample_mode == RESAMPLE_MODE_LIBSAMPLERATE
    ||| resample_mode == RESAMPLE_MODE_BABYCAT_LANCZOS
    ||| resample_mode == RESAMPLE_MODE_BABYCAT_SINC
}

/// The modes compiled into this build: the two built-in convolution kernels,
/// plus the default tag (which selects the Lanczos kernel). The third-party
/// `libsamplerate` delegate is known but not compiled in.
pub open spec fn supported_resample_mode(resample_mode: u32) -> bool {
    ||| resample_mode == DEFAULT_RESAMPLE_MODE
    ||| resample_mode == RESAMPLE_MODE_BABYCAT_LANCZOS
    ||| resample_mode == RESAMPLE_MODE_BABYCAT_SINC
}

/// What every successful resample guarantees about its output's geometry,
/// whatever the mode: the requested frame rate, the input's channel count,
/// and the exact ceiling formula for the frame count.
pub open spec fn resampled_geometry(input: Waveform, target_frame_rate_hz: u32, output: Waveform) -> bool {
    &&& output.spec_frame_rate_hz() == target_frame_rate_hz
    &&& output.spec_num_channels() == input.spec_num_channels()
    &&& output.spec_num_frames() == expected_output_frames(
        input.spec_num_frames(),
        input.spec_frame_rate_hz() as int,
        target_frame_rate_hz as int,
    )
}

/// Law: the output-length formula is the exact ceiling of
/// `num_frames * target_rate / source_rate` for arbitrary positive rates and
/// any frame count, divisible or not, and an empty input stays empty.
pub proof fn lemma_output_frame_count_is_exact_ceiling(
    num_frames: int,
    source_rate: int,
    target_rate: int,
)
    requires
        num_frames >= 0,
        source_rate > 0,
        target_rate > 0,
    ensures
        expected_output_frames(num_frames, source_rate, target_rate) * source_rate
            >= num_frames * target_rate,
        expected_output_frames(num_frames, source_rate, target_rate) * source_rate
            < num_frames * target_rate + source_rate,
        expected_output_frames(num_frames, source_rate, target_rate) >= 0,
        num_frames == 0 ==> expected_output_frames(num_frames, source_rate, target_rate) == 0,
        num_frames > 0 ==> expected_output_frames(num_frames, source_rate, target_rate) > 0,
{
    let numerator = num_frames * target_rate;
    assert(num_frames * target_rate >= 0) by (nonlinear_arith)
        requires
            num_frames >= 0,
            target_rate > 0,
    ;
    assert(num_frames > 0 ==> num_frames * target_rate >= target_rate) by (nonlinear_arith)
        requires
            target_rate > 0,
    ;
    let x = numerator + source_rate - 1;
    let q = x / source_rate;
    lemma_fundamental_div_mod(x, source_rate);
    assert(x == source_rate * q + x % source_rate);
    assert(0 <= x % source_rate < source_rate);
    assert(q * source_rate == source_rate * q) by (nonlinear_arith);
    if num_frames == 0 {
        assert(num_frames * target_rate == 0) by (nonlinear_arith)
            requires
                num_frames == 0,
        ;
        lemma_basic_div(source_rate - 1, source_rate);
    }
    assert(q >= 0) by (nonlinear_arith)
        requires
            q * source_rate >= 0,
            source_rate > 0,
    ;
    assert(num_frames > 0 ==> q > 0) by (nonlinear_arith)
        requires
            num_frames > 0 ==> q * source_rate >= numerator,
            num_frames > 0 ==> numerator >= target_rate,
            target_rate > 0,
            source_rate > 0,
    ;
}

/// Law: resampling to the input's own rate is length-preserving; the
/// formula gives back the input frame count exactly.
pub proof fn lemma_same_rate_output_frames(num_frames: int, frame_rate: int)
    requires
        num_frames >= 0,
        frame_rate > 0,
    ensures
        expected_output_frames(num_frames, frame_rate, frame_rate) == num_frames,
{
    let x = num_frames * frame_rate + frame_rate - 1;
    let q = x / frame_rate;
    lemma_fundamental_div_mod(x, frame_rate);
    assert(q == num_frames) by (nonlinear_arith)
        requires
            frame_rate * q + x % frame_rate == num_frames * frame_rate + frame_rate - 1,
            0 <= x % frame_rate < frame_rate,
            frame_rate > 0,
    ;
}

/// Law: geometry equivalence across modes. Any two outputs that meet the
/// resample contract for the same input and target rate — as every supported
/// mode's output does — have identical frame counts, channel counts and
/// frame rates, however much their sample words differ.
pub proof fn lemma_resample_geometry_equivalence(
    input: Waveform,
    target_frame_rate_hz: u32,
    mode_a: u32,
    mode_b: u32,
    output_a: Waveform,
    output_b: Waveform,
)
    requires
        supported_resample_mode(mode_a),
        supported_resample_mode(mode_b),
        resampled_geometry(input, target_frame_rate_hz, output_a),
        resampled_geometry(input, target_frame_rate_hz, output_b),
    ensures
        output_a.spec_num_frames() == output_b.spec_num_frames(),
        output_a.spec_num_channels() == output_b.spec_num_channels(),
        output_a.spec_frame_rate_hz() == output_b.spec_frame_rate_hz(),
{
}

/// The per-mode weighting a resample uses to mix the sample words inside one
/// clamped convolution window. Implementations interpret the words as
/// single-precision samples; the driver never depends on what a kernel
/// returns, only on where it may read.
pub trait ResampleKernel {
    /// Half-width, in frames, of the convolution window the kernel wants
    /// around each fractional source position for this mode.
    fn window_radius(&self, resample_mode: u32) -> usize;

    /// Computes the output sample word for one channel of one output frame.
    ///
    /// The output frame sits at the fractional source position
    /// `position_numerator / position_denominator` (in frames); the window
    /// `window_lo..window_hi` is already clamped to the available frames.
    /// Weights must depend only on that fractional position, never on the
    /// channel index.
    fn mix_sample(
        &self,
        resample_mode: u32,
        interleaved_samples: &Vec<u32>,
        num_channels: u16,
        channel: u16,
        window_lo: usize,
        window_hi: usize,
        position_numerator: u128,
        position_denominator: u32,
    ) -> u32
        requires
            num_channels > 0,
            interleaved_samples@.len() % (num_channels as nat) == 0,
            channel < num_channels,
            window_lo <= window_hi,
            (window_hi as int) * (num_channels as int) <= interleaved_samples@.len(),
            position_denominator > 0,
    ;
}

/// The exact output frame count for a resample of `num_frames` frames from
/// `source_rate_hz` to `target_frame_rate_hz`, computed over the integer
/// numerator so every mode agrees on it.
pub fn output_frame_count(num_frames: u64, source_rate_hz: u32, target_frame_rate_hz: u32) -> (r:
    u64)
    requires
        source_rate_hz > 0,
        target_frame_rate_hz > 0,
        expected_output_frames(
            num_frames as int,
            source_rate_hz as int,
            target_frame_rate_hz as int,
        ) <= u64::MAX,
    ensures
        r == expected_output_frames(
            num_frames as int,
            source_rate_hz as int,
            target_frame_rate_hz as int,
        ),
{
    proof {
        lemma_mul_upper_bound(
            num_frames as int,
            u64::MAX as int,
            target_frame_rate_hz as int,
            u32::MAX as int,
        );
    }
    let numerator: u128 = (num_frames as u128) * (target_frame_rate_hz as u128);
    let source: u128 = source_rate_hz as u128;
    let out: u128 = (numerator + source - 1) / source;
    proof {
        lemma_output_frame_count_is_exact_ceiling(
            num_frames as int,
            source_rate_hz as int,
            target_frame_rate_hz as int,
        );
    }
    out as u64
}

impl Waveform {
    /// Converts this waveform to `target_frame_rate_hz` using the algorithm
    /// selected by `resample_mode`, mixing sample words with `kernel`.
    ///
    /// A zero target rate is rejected for every mode; a tag outside the
    /// closed mode set is rejected as invalid; the third-party delegate mode
    /// is known but not compiled into this build; each supported mode yields
    /// a new waveform with the input's channel count, the requested rate and
    /// the exact ceiling frame count — and a target equal to the input's own
    /// rate short-circuits to an identity copy of the sample words rather
    /// than running a kernel. No mode ever falls back to another.
    pub fn resample_by_mode<K: ResampleKernel>(
        &self,
        target_frame_rate_hz: u32,
        resample_mode: u32,
        kernel: &K,
    ) -> (r: Result<Waveform, Error>)
        requires
            expected_output_frames(
                self.spec_num_frames(),
                self.spec_frame_rate_hz() as int,
                target_frame_rate_hz as int,
            ) * (self.spec_num_channels() as int) <= usize::MAX,
        ensures
            target_frame_rate_hz == 0 ==> r == Err::<Waveform, Error>(
                Error::InvalidResampleTarget,
            ),
            target_frame_rate_hz != 0 && !known_resample_mode(resample_mode) ==> r == Err::<
                Waveform,
                Error,
            >(Error::InvalidResampleMode),
            target_frame_rate_hz != 0 && resample_mode == RESAMPLE_MODE_LIBSAMPLERATE ==> (
            r matches Err(e) && e matches Error::FeatureNotCompiled(c) && c@
                == "resampler-libsamplerate"@),
            target_frame_rate_hz != 0 && supported_resample_mode(resample_mode) ==> (
            r matches Ok(w) && resampled_geometry(*self, target_frame_rate_hz, w)),
            target_frame_rate_hz != 0 && supported_resample_mode(resample_mode)
                && target_frame_rate_hz == self.spec_frame_rate_hz() ==> (r matches Ok(w)
                && w.spec_samples() == self.spec_samples()),
    {
        if target_frame_rate_hz == 0 {
            return Err(Error::InvalidResampleTarget);
        }
        let known = resample_mode == DEFAULT_RESAMPLE_MODE || resample_mode
            == RESAMPLE_MODE_LIBSAMPLERATE || resample_mode == RESAMPLE_MODE_BABYCAT_LANCZOS
            || resample_mode == RESAMPLE_MODE_BABYCAT_SINC;
        if !known {
            return Err(Error::InvalidResampleMode);
        }
        if resample_mode == RESAMPLE_MODE_LIBSAMPLERATE {
            return Err(Error::FeatureNotCompiled("resampler-libsamplerate"));
        }
        let effective_mode = if resample_mode == DEFAULT_RESAMPLE_MODE {
            RESAMPLE_MODE_BABYCAT_LANCZOS
        } else {
            resample_mode
        };
        if target_frame_rate_hz == self.frame_rate_hz() {
            return Ok(self.copy_at_same_rate(target_frame_rate_hz));
        }
        Ok(self.resample_convolution(target_frame_rate_hz, effective_mode, kernel))
    }

    /// The identity fast-path: a fresh waveform with the same geometry and
    /// the same sample words, without running any kernel.
    fn copy_at_same_rate(&self, target_frame_rate_hz: u32) -> (w: Waveform)
        requires
            target_frame_rate_hz == self.spec_frame_rate_hz(),
        ensures
            resampled_geometry(*self, target_frame_rate_hz, w),
            w.spec_samples() == self.spec_samples(),
    {
        proof {
            use_type_invariant(self);
        }
        let samples: &Vec<u32> = self.to_interleaved_samples();
        let n: usize = samples.len();
        let mut copied: Vec<u32> = Vec::new();
        let mut i: usize = 0;
        while i < n
            invariant
                i <= n,
                n == samples@.len(),
                copied@ == samples@.subrange(0, i as int),
            decreases n - i,
        {
            copied.push(samples[i]);
            proof {
                assert(samples@.subrange(0, i + 1 as int) == samples@.subrange(0, i as int).push(
                    samples@[i as int],
                ));
            }
            i = i + 1;
        }
        proof {
            assert(copied@ == self.spec_samples());
            lemma_same_rate_output_frames(
                self.spec_num_frames(),
                self.spec_frame_rate_hz() as int,
            );
        }
        Waveform::from_interleaved_samples(target_frame_rate_hz, self.num_channels(), copied)
    }

    /// The shared convolution driver: computes the exact output geometry,
    /// walks every output frame's fractional source position, clamps the
    /// kernel's window to the available frames, and lets the kernel mix each
    /// channel independently.
    fn resample_convolution<K: ResampleKernel>(
        &self,
        target_frame_rate_hz: u32,
        resample_mode: u32,
        kernel: &K,
    ) -> (w: Waveform)
        requires
            target_frame_rate_hz > 0,
            expected_output_frames(
                self.spec_num_frames(),
                self.spec_frame_rate_hz() as int,
                target_frame_rate_hz as int,
            ) * (self.spec_num_channels() as int) <= usize::MAX,
        ensures
            resampled_geometry(*self, target_frame_rate_hz, w),
    {
        proof {
            use_type_invariant(self);
        }
        let samples: &Vec<u32> = self.to_interleaved_samples();
        let num_channels: u16 = self.num_channels();
        let source_rate: u32 = self.frame_rate_hz();
        let num_frames: usize = samples.len() / (num_channels as usize);
        proof {
            lemma_fundamental_div_mod(samples@.len() as int, num_channels as int);
            assert(samples@.len() == (num_frames as int) * (num_channels as int))
                by (nonlinear_arith)
                requires
                    samples@.len() == (num_channels as int) * (num_frames as int) + (
                    samples@.len() as int % (num_channels as int)),
                    samples@.len() as int % (num_channels as int) == 0,
            ;
            lemma_mul_upper_bound(
                num_frames as int,
                u64::MAX as int,
                target_frame_rate_hz as int,
                u32::MAX as int,
            );
            lemma_output_frame_count_is_exact_ceiling(
                num_frames as int,
                source_rate as int,
                target_frame_rate_hz as int,
            );
        }
        let ghost expected: int = expected_output_frames(
            num_frames as int,
            source_rate as int,
            target_frame_rate_hz as int,
        );
        let numerator: u128 = (num_frames as u128) * (target_frame_rate_hz as u128);
        let out_frames128: u128 = (numerator + (source_rate as u128) - 1) / (source_rate as u128);
        proof {
            assert(out_frames128 == expected);
            assert(expected <= expected * (num_channels as int)) by (nonlinear_arith)
                requires
                    expected >= 0,
                    num_channels >= 1,
            ;
        }
        let out_frames: usize = out_frames128 as usize;
        let radius: usize = kernel.window_radius(resample_mode);
        let mut out: Vec<u32> = Vec::new();
        let mut i: usize = 0;
        while i < out_frames
            invariant
                i <= out_frames,
                out_frames == expected,
                expected >= 0,
                expected * (num_channels as int) <= usize::MAX,
                expected == expected_output_frames(
                    num_frames as int,
                    source_rate as int,
                    target_frame_rate_hz as int,
                ),
                num_channels > 0,
                source_rate > 0,
                target_frame_rate_hz > 0,
                samples@.len() == (num_frames as int) * (num_channels as int),
                samples@.len() % (num_channels as nat) == 0,
                samples@ == self.spec_samples(),
                out@.len() == i * (num_channels as int),
            decreases out_frames - i,
        {
            proof {
                if num_frames == 0 {
                    lemma_output_frame_count_is_exact_ceiling(
                        0,
                        source_rate as int,
                        target_frame_rate_hz as int,
                    );
                }
                lemma_mul_upper_bound(i as int, u64::MAX as int, source_rate as int, u32::MAX as int);
            }
            let position_numerator: u128 = (i as u128) * (source_rate as u128);
            let center128: u128 = position_numerator / (target_frame_rate_hz as u128);
            let last_frame: usize = num_frames - 1;
            let center: usize = if center128 > (last_frame as u128) {
                last_frame
            } else {
                center128 as usize
            };
            let window_lo: usize = if center > radius {
                center - radius
            } else {
                0
            };
            let hi128: u128 = (center as u128) + (radius as u128) + 1;
            let window_hi: usize = if hi128 > (num_frames as u128) {
                num_frames
            } else {
                hi128 as usize
            };
            proof {
                assert(window_lo <= window_hi);
                lemma_mul_inequality(window_hi as int, num_frames as int, num_channels as int);
            }
            let mut c: u16 = 0;
            while c < num_channels
                invariant
                    c <= num_channels,
                    num_channels > 0,
                    target_frame_rate_hz > 0,
                    i < out_frames,
                    out_frames == expected,
                    expected * (num_channels as int) <= usize::MAX,
                    samples@.len() == (num_frames as int) * (num_channels as int),
                    samples@.len() % (num_channels as nat) == 0,
                    samples@ == self.spec_samples(),
                    window_lo <= window_hi,
                    (window_hi as int) * (num_channels as int) <= samples@.len(),
                    out@.len() == i * (num_channels as int) + c as int,
                decreases num_channels - c,
            {
                proof {
                    assert(i * (num_channels as int) + (num_channels as int) <= expected * (
                    num_channels as int)) by (nonlinear_arith)
                        requires
                            i < expected,
                            num_channels > 0,
                    ;
                }
                let mixed: u32 = kernel.mix_sample(
                    resample_mode,
                    samples,
                    num_channels,
                    c,
                    window_lo,
                    window_hi,
                    position_numerator,
                    target_frame_rate_hz,
                );
                out.push(mixed);
                c = c + 1;
            }
            proof {
                assert((i + 1) * (num_channels as int) == i * (num_channels as int) + (
                num_channels as int)) by (nonlinear_arith);
            }
            i = i + 1;
        }
        proof {
            lemma_mod_multiples_basic(out_frames as int, num_channels as int);
            lemma_div_by_multiple(out_frames as int, num_channels as int);
        }
        Waveform::from_interleaved_samples(target_frame_rate_hz, num_channels, out)
    }
}

} // verus!

