//! The built-in decoding backend: an in-process reader for uncompressed
//! waveform audio (RIFF/WAVE) containers holding 32-bit IEEE-float samples.
//!
//! The reader never interprets a sample numerically: each little-endian
//! 4-byte group in the data chunk becomes one raw 32-bit sample word, so
//! decoding is pure byte logic with an exact contract.

use vstd::prelude::*;

use crate::decoder::Decoder;
use crate::errors::Error;
use crate::signal::Signal;
use crate::signal::Source;

verus! {

/// The unsigned value of two little-endian bytes at `i`.
pub open spec fn le16(b: Seq<u8>, i: int) -> int {
    b[i] + 256 * b[i + 1]
}

/// The unsigned value of four little-endian bytes at `i`.
pub open spec fn le32(b: Seq<u8>, i: int) -> int {
    b[i] + 256 * b[i + 1] + 65536 * b[i + 2] + 16777216 * b[i + 3]
}

/// One sample word: four little-endian bytes at `i` as a 32-bit pattern.
pub open spec fn le_word(b: Seq<u8>, i: int) -> u32 {
    (b[i] + 256 * b[i + 1] + 65536 * b[i + 2] + 16777216 * b[i + 3]) as u32
}

/// The container magic: `RIFF` at the start and `WAVE` at offset 8.
pub open spec fn has_riff_wave_magic(b: Seq<u8>) -> bool {
    &&& b.len() >= 12
    &&& b[0] == 0x52
    &&& b[1] == 0x49
    &&& b[2] == 0x46
    &&& b[3] == 0x46
    &&& b[8] == 0x57
    &&& b[9] == 0x41
    &&& b[10] == 0x56
    &&& b[11] == 0x45
}

/// A complete `fmt ` chunk at `off` declaring 32-bit IEEE-float samples.
pub open spec fn wave_fmt_chunk_at(b: Seq<u8>, off: int) -> bool {
    &&& 12 <= off
    &&& off + 24 <= b.len()
    &&& b[off] == 0x66
    &&& b[off + 1] == 0x6d
    &&& b[off + 2] == 0x74
    &&& b[off + 3] == 0x20
    &&& le32(b, off + 4) >= 16
    &&& off + 8 + le32(b, off + 4) <= b.len()
    &&& le16(b, off + 8) == 3
    &&& le16(b, off + 22) == 32
}

/// The channel count a `fmt ` chunk at `off` declares.
pub open spec fn wave_fmt_channels(b: Seq<u8>, off: int) -> int {
    le16(b, off + 10)
}

/// The frame rate a `fmt ` chunk at `off` declares.
pub open spec fn wave_fmt_rate(b: Seq<u8>, off: int) -> int {
    le32(b, off + 12)
}

/// A complete `data` chunk at `off` holding whole 4-byte sample words.
pub open spec fn wave_data_chunk_at(b: Seq<u8>, off: int) -> bool {
    &&& 12 <= off
    &&& off + 8 <= b.len()
    &&& b[off] == 0x64
    &&& b[off + 1] == 0x61
    &&& b[off + 2] == 0x74
    &&& b[off + 3] == 0x61
    &&& off + 8 + le32(b, off + 4) <= b.len()
    &&& le32(b, off + 4) % 4 == 0
}

/// The sample words a `data` chunk at `off` carries, in stream order.
pub open spec fn wave_data_words(b: Seq<u8>, off: int) -> Seq<u32> {
    Seq::new((le32(b, off + 4) / 4) as nat, |j: int| le_word(b, off + 8 + 4 * j))
}

/// What a successfully decoded wave stream guarantees: the magic was
/// present, the geometry is exactly what some complete `fmt ` chunk
/// declares, the sample words are exactly what some complete `data` chunk
/// carries, and the words form whole frames.
pub open spec fn wave_parse_ok(
    b: Seq<u8>,
    frame_rate_hz: u32,
    num_channels: u16,
    samples: Seq<u32>,
) -> bool {
    &&& has_riff_wave_magic(b)
    &&& exists|off: int|
        #[trigger] wave_fmt_chunk_at(b, off) && frame_rate_hz == wave_fmt_rate(b, off)
            && num_channels == wave_fmt_channels(b, off)
    &&& exists|off: int| #[trigger] wave_data_chunk_at(b, off) && samples == wave_data_words(b, off)
    &&& frame_rate_hz > 0
    &&& num_channels > 0
    &&& samples.len() % (num_channels as nat) == 0
}

/// A canonical container: the 16-byte `fmt ` chunk directly after the
/// magic, the `data` chunk directly after it (the layout standard writers
/// emit), declaring a positive frame rate, a positive channel count and a
/// payload of whole frames.
pub open spec fn canonical_wave_layout(b: Seq<u8>) -> bool {
    &&& has_riff_wave_magic(b)
    &&& wave_fmt_chunk_at(b, 12)
    &&& le32(b, 16) == 16
    &&& wave_fmt_rate(b, 12) > 0
    &&& wave_fmt_channels(b, 12) > 0
    &&& wave_data_chunk_at(b, 36)
    &&& (le32(b, 40) / 4) % wave_fmt_channels(b, 12) == 0
}

/// The four-byte chunk tag at `off` reads `fmt `.
pub open spec fn wave_chunk_id_is_fmt(b: Seq<u8>, off: int) -> bool {
    b[off] == 0x66 && b[off + 1] == 0x6d && b[off + 2] == 0x74 && b[off + 3] == 0x20
}

/// The four-byte chunk tag at `off` reads `data`.
pub open spec fn wave_chunk_id_is_data(b: Seq<u8>, off: int) -> bool {
    b[off] == 0x64 && b[off + 1] == 0x61 && b[off + 2] == 0x74 && b[off + 3] == 0x61
}

/// Where the walk stands after the complete chunk at `off`: past its header
/// and payload, plus the pad byte an odd payload carries (unless the
/// container ends at the payload).
pub open spec fn wave_next_chunk_offset(b: Seq<u8>, off: int) -> int {
    if le32(b, off + 4) % 2 == 1 && le32(b, off + 4) < b.len() - (off + 8) {
        off + 8 + le32(b, off + 4) + 1
    } else {
        off + 8 + le32(b, off + 4)
    }
}

/// The chunk walk from `off` ends in a `data` chunk it can accept: every
/// chunk on the way is complete; a chunk with an unknown tag is skipped; a
/// `fmt ` chunk must declare 32-bit IEEE-float samples with a positive frame
/// rate and channel count; and the first `data` chunk must come after a
/// `fmt ` chunk and hold whole frames for its channel count.
pub open spec fn wave_walk_accepts(b: Seq<u8>, off: int, fmt_seen: bool, num_channels: int) -> bool
    decreases b.len() - off
        when 12 <= off
{
    if off + 8 > b.len() {
        false
    } else if off + 8 + le32(b, off + 4) > b.len() {
        false
    } else if wave_chunk_id_is_fmt(b, off) {
        &&& le32(b, off + 4) >= 16
        &&& le16(b, off + 8) == 3
        &&& le16(b, off + 22) == 32
        &&& wave_fmt_channels(b, off) > 0
        &&& wave_fmt_rate(b, off) > 0
        &&& wave_walk_accepts(
            b,
            wave_next_chunk_offset(b, off),
            true,
            wave_fmt_channels(b, off),
        )
    } else if wave_chunk_id_is_data(b, off) {
        &&& fmt_seen
        &&& le32(b, off + 4) % 4 == 0
        &&& (le32(b, off + 4) / 4) % num_channels == 0
    } else {
        wave_walk_accepts(b, wave_next_chunk_offset(b, off), fmt_seen, num_channels)
    }
}

/// A container the built-in backend is owed to decode: the magic is present
/// and the chunk walk accepts the stream.
pub open spec fn well_formed_wave(b: Seq<u8>) -> bool {
    &&& has_riff_wave_magic(b)
    &&& wave_walk_accepts(b, 12, false, 0)
}

/// Law: every canonical container is well formed, so the decode entry
/// points owe it success.
pub proof fn lemma_canonical_wave_is_well_formed(b: Seq<u8>)
    requires
        canonical_wave_layout(b),
    ensures
        well_formed_wave(b),
{
    assert(wave_walk_accepts(b, 36, true, wave_fmt_channels(b, 12)));
    assert(wave_next_chunk_offset(b, 12) == 36);
    assert(wave_walk_accepts(b, 12, false, 0));
}

/// Reads two little-endian bytes.
fn read_le16(bytes: &[u8], i: usize) -> (r: u16)
    requires
        i + 2 <= bytes@.len(),
    ensures
        r == le16(bytes@, i as int),
{
    (bytes[i] as u16) + 256 * (bytes[i + 1] as u16)
}

/// Reads four little-endian bytes.
fn read_le32(bytes: &[u8], i: usize) -> (r: u32)
    requires
        i + 4 <= bytes@.len(),
    ensures
        r == le32(bytes@, i as int),
{
    (bytes[i] as u32) + 256 * (bytes[i + 1] as u32) + 65536 * (bytes[i + 2] as u32) + 16777216 * (
    bytes[i + 3] as u32)
}

/// The built-in wave decoder: it validates the container eagerly, so a
/// constructed decoder already knows its geometry and sample words.
#[derive(Debug)]
pub struct WaveDecoder {
    frame_rate_hz: u32,
    num_channels: u16,
    interleaved_samples: Vec<u32>,
}

impl WaveDecoder {
    /// The frame rate parsed out of the container.
    pub closed spec fn spec_frame_rate_hz(self) -> u32 {
        self.frame_rate_hz
    }

    /// The channel count parsed out of the container.
    pub closed spec fn spec_num_channels(self) -> u16 {
        self.num_channels
    }

    /// The sample words parsed out of the container.
    pub closed spec fn spec_samples(self) -> Seq<u32> {
        self.interleaved_samples@
    }

    #[verifier::type_invariant]
    spec fn decoder_invariant(self) -> bool {
        &&& self.frame_rate_hz > 0
        &&& self.num_channels > 0
        &&& self.interleaved_samples@.len() % (self.num_channels as nat) == 0
    }

    /// Opens and validates an in-memory wave container.
    ///
    /// On success the decoder's geometry and samples come from complete
    /// `fmt ` and `data` chunks of the container. Bytes without the
    /// RIFF/WAVE magic, or whose `fmt ` chunk does not declare 32-bit
    /// IEEE-float samples, are an unrecognized format; a declared channel
    /// count of zero is an unsupported layout; a truncated chunk, a zero
    /// frame rate, a missing `data` chunk or a data payload that is not a
    /// whole number of frames is a decode failure.
    pub fn from_encoded_bytes(encoded_bytes: &[u8]) -> (r: Result<WaveDecoder, Error>)
        ensures
            r matches Ok(d) ==> wave_parse_ok(
                encoded_bytes@,
                d.spec_frame_rate_hz(),
                d.spec_num_channels(),
                d.spec_samples(),
            ),
            !has_riff_wave_magic(encoded_bytes@) ==> r == Err::<WaveDecoder, Error>(
                Error::UnrecognizedFormat,
            ),
            r matches Err(e) ==> (e == Error::UnrecognizedFormat || e
                == Error::UnsupportedChannelLayout || e == Error::DecodeFailure),
            well_formed_wave(encoded_bytes@) ==> r matches Ok(_),
    {
        let n: usize = encoded_bytes.len();
        if n < 12 {
            return Err(Error::UnrecognizedFormat);
        }
        if encoded_bytes[0] != 0x52 || encoded_bytes[1] != 0x49 || encoded_bytes[2] != 0x46
            || encoded_bytes[3] != 0x46 || encoded_bytes[8] != 0x57 || encoded_bytes[9] != 0x41
            || encoded_bytes[10] != 0x56 || encoded_bytes[11] != 0x45 {
            return Err(Error::UnrecognizedFormat);
        }
        let mut off: usize = 12;
        let mut fmt_seen: bool = false;
        let mut frame_rate_hz: u32 = 0;
        let mut num_channels: u16 = 0;
        let ghost mut fmt_off: int = 0;
        while off <= n - 8 && n >= 8
            invariant
                n == encoded_bytes@.len(),
                n >= 12,
                12 <= off,
                has_riff_wave_magic(encoded_bytes@),
                fmt_seen ==> wave_fmt_chunk_at(encoded_bytes@, fmt_off),
                fmt_seen ==> frame_rate_hz == wave_fmt_rate(encoded_bytes@, fmt_off),
                fmt_seen ==> num_channels == wave_fmt_channels(encoded_bytes@, fmt_off),
                fmt_seen ==> frame_rate_hz > 0 && num_channels > 0,
                wave_walk_accepts(encoded_bytes@, 12, false, 0) ==> wave_walk_accepts(
                    encoded_bytes@,
                    off as int,
                    fmt_seen,
                    if fmt_seen {
                        num_channels as int
                    } else {
                        0
                    },
                ),
            decreases n - off,
        {
            let chunk_size: usize = read_le32(encoded_bytes, off + 4) as usize;
            let body: usize = off + 8;
            if chunk_size > n - body {
                return Err(Error::DecodeFailure);
            }
            let is_fmt = encoded_bytes[off] == 0x66 && encoded_bytes[off + 1] == 0x6d
                && encoded_bytes[off + 2] == 0x74 && encoded_bytes[off + 3] == 0x20;
            let is_data = encoded_bytes[off] == 0x64 && encoded_bytes[off + 1] == 0x61
                && encoded_bytes[off + 2] == 0x74 && encoded_bytes[off + 3] == 0x61;
            if is_fmt {
                if chunk_size < 16 {
                    return Err(Error::UnrecognizedFormat);
                }
                let audio_format = read_le16(encoded_bytes, body);
                let bits_per_sample = read_le16(encoded_bytes, body + 14);
                if audio_format != 3 || bits_per_sample != 32 {
                    return Err(Error::UnrecognizedFormat);
                }
                num_channels = read_le16(encoded_bytes, body + 2);
                frame_rate_hz = read_le32(encoded_bytes, body + 4);
                if num_channels == 0 {
                    return Err(Error::UnsupportedChannelLayout);
                }
                if frame_rate_hz == 0 {
                    return Err(Error::DecodeFailure);
                }
                fmt_seen = true;
                proof {
                    fmt_off = off as int;
                }
            } else if is_data {
                if !fmt_seen {
                    return Err(Error::UnrecognizedFormat);
                }
                if chunk_size % 4 != 0 {
                    return Err(Error::DecodeFailure);
                }
                let num_words: usize = chunk_size / 4;
                if num_words % (num_channels as usize) != 0 {
                    return Err(Error::DecodeFailure);
                }
                let mut words: Vec<u32> = Vec::new();
                let mut k: usize = 0;
                while k < num_words
                    invariant
                        n == encoded_bytes@.len(),
                        words@.len() == k,
                        k <= num_words,
                        num_words == chunk_size / 4,
                        chunk_size % 4 == 0,
                        body + chunk_size <= n,
                        body == off + 8,
                        forall|j: int|
                            0 <= j < k ==> words@[j] == le_word(
                                encoded_bytes@,
                                body + 4 * j,
                            ),
                    decreases num_words - k,
                {
                    let p: usize = body + 4 * k;
                    let w: u32 = read_le32(encoded_bytes, p);
                    words.push(w);
                    k = k + 1;
                }
                proof {
                    assert(wave_data_chunk_at(encoded_bytes@, off as int));
                    assert(words@ =~= wave_data_words(encoded_bytes@, off as int));
                    assert(wave_fmt_chunk_at(encoded_bytes@, fmt_off));
                }
                return Ok(WaveDecoder { frame_rate_hz, num_channels, interleaved_samples: words });
            }
            let advance: usize = if chunk_size % 2 == 1 && chunk_size < n - body {
                chunk_size + 1
            } else {
                chunk_size
            };
            off = body + advance;
        }
        Err(Error::DecodeFailure)
    }
}

impl Signal for WaveDecoder {
    open spec fn spec_frame_rate_hz(&self) -> u32 {
        WaveDecoder::spec_frame_rate_hz(*self)
    }

    open spec fn spec_num_channels(&self) -> u16 {
        WaveDecoder::spec_num_channels(*self)
    }

    fn frame_rate_hz(&self) -> (r: u32) {
        proof {
            use_type_invariant(self);
        }
        self.frame_rate_hz
    }

    fn num_channels(&self) -> (r: u16) {
        self.num_channels
    }

    fn num_frames_estimate(&self) -> (r: Option<usize>)
        ensures
            r matches Some(n) && n == WaveDecoder::spec_samples(*self).len() as int
                / WaveDecoder::spec_num_channels(*self) as int,
    {
        proof {
            use_type_invariant(self);
        }
        Some(self.interleaved_samples.len() / (self.num_channels as usize))
    }
}

/// The stream a [`WaveDecoder`] produces: it hands the decoded sample words
/// out in frame-aligned chunks and then signals end-of-stream.
pub struct WaveSource {
    frame_rate_hz: u32,
    num_channels: u16,
    interleaved_samples: Vec<u32>,
    position: usize,
}

impl WaveSource {
    /// The total frame count of the stream, pulled or still pending.
    pub closed spec fn spec_num_frames(self) -> int {
        self.interleaved_samples@.len() as int / self.num_channels as int
    }

    #[verifier::type_invariant]
    spec fn source_invariant(self) -> bool {
        &&& self.frame_rate_hz > 0
        &&& self.num_channels > 0
        &&& self.position <= self.interleaved_samples@.len()
        &&& self.interleaved_samples@.len() % (self.num_channels as nat) == 0
        &&& (self.position as int) % (self.num_channels as int) == 0
    }
}

impl Signal for WaveSource {
    closed spec fn spec_frame_rate_hz(&self) -> u32 {
        self.frame_rate_hz
    }

    closed spec fn spec_num_channels(&self) -> u16 {
        self.num_channels
    }

    fn frame_rate_hz(&self) -> (r: u32) {
        self.frame_rate_hz
    }

    fn num_channels(&self) -> (r: u16) {
        self.num_channels
    }

    fn num_frames_estimate(&self) -> (r: Option<usize>)
        ensures
            r matches Some(n) && n == WaveSource::spec_num_frames(*self),
    {
        proof {
            use_type_invariant(self);
        }
        Some(self.interleaved_samples.len() / (self.num_channels as usize))
    }
}

impl Source for WaveSource {
    closed spec fn spec_pending(&self) -> Seq<u32> {
        self.interleaved_samples@.skip(self.position as int)
    }

    closed spec fn spec_remaining(&self) -> nat {
        self.spec_pending().len()
    }

    closed spec fn spec_infallible(&self) -> bool {
        true
    }

    fn next_chunk(&mut self) -> (r: Result<Option<Vec<u32>>, Error>) {
        proof {
            use_type_invariant(&*self);
        }
        let total: usize = self.interleaved_samples.len();
        if self.position >= total {
            return Ok(None);
        }
        let remaining: usize = total - self.position;
        let frames_left: usize = remaining / (self.num_channels as usize);
        proof {
            let ch = self.num_channels as int;
            let len = self.interleaved_samples@.len() as int;
            let pos = self.position as int;
            vstd::arithmetic::div_mod::lemma_small_mod(0, ch as nat);
            vstd::arithmetic::div_mod::lemma_sub_mod_noop(len, pos, ch);
            assert(remaining as int % ch == 0);
            vstd::arithmetic::div_mod::lemma_fundamental_div_mod(remaining as int, ch);
            assert(remaining == ch * (frames_left as int));
            assert(frames_left >= 1) by (nonlinear_arith)
                requires
                    remaining == ch * (frames_left as int),
                    remaining >= 1,
                    frames_left >= 0,
                    ch >= 1,
            ;
        }
        let chunk_frames: usize = if frames_left > 4096 {
            4096
        } else {
            frames_left
        };
        proof {
            let ch = self.num_channels as int;
            assert(1 <= chunk_frames * ch && chunk_frames * ch <= remaining && (chunk_frames * ch)
                % ch == 0) by (nonlinear_arith)
                requires
                    1 <= chunk_frames <= frames_left,
                    remaining == ch * (frames_left as int),
                    ch >= 1,
            ;
        }
        let k: usize = chunk_frames * (self.num_channels as usize);
        let mut chunk: Vec<u32> = Vec::new();
        let mut j: usize = 0;
        let start: usize = self.position;
        while j < k
            invariant
                total == self.interleaved_samples@.len(),
                start + k <= total,
                j <= k,
                chunk@ == self.interleaved_samples@.subrange(start as int, start + j as int),
            decreases k - j,
        {
            chunk.push(self.interleaved_samples[start + j]);
            proof {
                assert(self.interleaved_samples@.subrange(start as int, start + (j + 1) as int)
                    == self.interleaved_samples@.subrange(start as int, start + j as int).push(
                    self.interleaved_samples@[start + j as int],
                ));
            }
            j = j + 1;
        }
        proof {
            vstd::arithmetic::div_mod::lemma_add_mod_noop(
                self.position as int,
                k as int,
                self.num_channels as int,
            );
            assert(old(self).spec_pending() =~= chunk@ + self.interleaved_samples@.skip(
                start + k as int,
            ));
        }
        self.position = start + k;
        Ok(Some(chunk))
    }
}

impl Decoder for WaveDecoder {
    type Stream = WaveSource;

    /// Opening the stream never fails: the container was already validated
    /// when this decoder was constructed. The stream starts with exactly the
    /// decoder's sample words pending.
    fn begin(self) -> (r: Result<WaveSource, Error>)
        ensures
            r matches Ok(s) && {
                &&& s.spec_frame_rate_hz() == self.spec_frame_rate_hz()
                &&& s.spec_num_channels() == self.spec_num_channels()
                &&& s.spec_pending() == self.spec_samples()
                &&& s.spec_infallible()
            },
    {
        proof {
            use_type_invariant(&self);
        }
        let WaveDecoder { frame_rate_hz, num_channels, interleaved_samples } = self;
        proof {
            assert(interleaved_samples@.skip(0) =~= interleaved_samples@);
        }
        Ok(WaveSource { frame_rate_hz, num_channels, interleaved_samples, position: 0 })
    }
}

} // verus!
