//! The uncompressed 16-bit PCM wave container.
//!
//! A rendered waveform is carried between the renderer, the decoder and the
//! asset pipeline as a byte buffer in the canonical little-endian WAV layout:
//! a 44-byte header followed by the interleaved 16-bit samples.  The layout
//! is pinned down byte by byte by [`wav16_byte`], and the parser
//! [`wav16_parse`] accepts exactly the buffers that [`wav16_encode`]
//! produces.

use vstd::prelude::*;

verus! {

broadcast use vstd::std_specs::vec::group_vec_axioms;

/// The mathematical model of a waveform: a sample rate, a channel count,
/// and the interleaved 16-bit samples in file order.
pub ghost struct WaveModel {
    /// Frames per second.
    pub sample_rate: u32,
    /// Number of channels; frame `f` holds samples `f * channels ..< (f + 1) * channels`.
    pub channels: u16,
    /// Interleaved samples, `frames * channels` in all.
    pub samples: Seq<i16>,
}

impl WaveModel {
    /// A waveform that the wave container can carry: at least one channel,
    /// whole frames only, and sizes that fit the header's 32-bit fields.
    pub open spec fn wf(self) -> bool {
        &&& 1 <= self.channels <= 0x7FFF
        &&& 1 <= self.sample_rate
        &&& (self.samples.len() as int) % (self.channels as int) == 0
        &&& 2 * self.samples.len() + 44 <= 0xFFFF_FFFF
        &&& 2 * (self.sample_rate as int) * (self.channels as int) <= 0xFFFF_FFFF
    }

    /// Frames per channel.
    pub open spec fn frames(self) -> int {
        self.samples.len() as int / self.channels as int
    }
}

/// A waveform held in memory: interleaved 16-bit samples at a sample rate.
pub struct WaveData {
    /// Frames per second.
    pub sample_rate: u32,
    /// Number of channels; samples are interleaved frame by frame.
    pub channels: u16,
    /// Interleaved samples, `frames * channels` in all.
    pub samples: Vec<i16>,
}

impl View for WaveData {
    type V = WaveModel;

    open spec fn view(&self) -> WaveModel {
        WaveModel {
            sample_rate: self.sample_rate,
            channels: self.channels,
            samples: self.samples@,
        }
    }
}

/// Low byte of a 16-bit value.
pub open spec fn u16_lo(x: u16) -> u8 {
    (x & 0xff) as u8
}

/// High byte of a 16-bit value.
pub open spec fn u16_hi(x: u16) -> u8 {
    ((x >> 8) & 0xff) as u8
}

/// Byte `k` (0 = least significant) of a 32-bit value.
pub open spec fn u32_b(x: u32, k: int) -> u8 {
    if k == 0 {
        (x & 0xff) as u8
    } else if k == 1 {
        ((x >> 8) & 0xff) as u8
    } else if k == 2 {
        ((x >> 16) & 0xff) as u8
    } else {
        ((x >> 24) & 0xff) as u8
    }
}

/// Byte `k` (0 = least significant) of a 16-bit value.
pub open spec fn u16_b(x: u16, k: int) -> u8 {
    if k == 0 {
        u16_lo(x)
    } else {
        u16_hi(x)
    }
}

/// A 16-bit value read little-endian from two bytes.
pub open spec fn u16_of(lo: u8, hi: u8) -> u16 {
    (lo as u16) | ((hi as u16) << 8)
}

/// A 32-bit value read little-endian from four bytes.
pub open spec fn u32_of(b0: u8, b1: u8, b2: u8, b3: u8) -> u32 {
    (b0 as u32) | ((b1 as u32) << 8) | ((b2 as u32) << 16) | ((b3 as u32) << 24)
}

/// Splitting a 16-bit value into bytes and reading them back is the identity.
proof fn lemma_u16_round_trip(x: u16)
    ensures
        u16_of(u16_lo(x), u16_hi(x)) == x,
{
    assert(((x & 0xff) as u8 as u16) | ((((x >> 8) & 0xff) as u8 as u16) << 8) == x)
        by (bit_vector);
}

/// Splitting a 32-bit value into bytes and reading them back is the identity.
proof fn lemma_u32_round_trip(x: u32)
    ensures
        u32_of(u32_b(x, 0), u32_b(x, 1), u32_b(x, 2), u32_b(x, 3)) == x,
{
    assert(((x & 0xff) as u8 as u32) | ((((x >> 8) & 0xff) as u8 as u32) << 8)
        | ((((x >> 16) & 0xff) as u8 as u32) << 16) | ((((x >> 24) & 0xff) as u8 as u32) << 24)
        == x) by (bit_vector);
}

/// Byte `k` of one of the four-byte tags ("RIFF", "WAVE", "fmt ", "data").
pub open spec fn tag_byte(a: u8, b: u8, c: u8, d: u8, k: int) -> u8 {
    if k == 0 {
        a
    } else if k == 1 {
        b
    } else if k == 2 {
        c
    } else {
        d
    }
}

/// Byte `i` of the encoded wave container for waveform `m`.
///
/// The layout is the canonical 44-byte PCM header — "RIFF", the chunk size,
/// "WAVE", the "fmt " block (PCM, channel count, sample rate, byte rate,
/// frame size, 16 bits per sample), "data" and the data length — followed
/// by each sample as two little-endian bytes.
pub open spec fn wav16_byte(m: WaveModel, i: int) -> u8 {
    let data_len = (2 * m.samples.len()) as u32;
    let riff_size = (2 * m.samples.len() + 36) as u32;
    let byte_rate = (2 * (m.sample_rate as int) * (m.channels as int)) as u32;
    let block_align = (2 * m.channels) as u16;
    if i < 4 {
        tag_byte(0x52, 0x49, 0x46, 0x46, i)
    } else if i < 8 {
        u32_b(riff_size, i - 4)
    } else if i < 12 {
        tag_byte(0x57, 0x41, 0x56, 0x45, i - 8)
    } else if i < 16 {
        tag_byte(0x66, 0x6d, 0x74, 0x20, i - 12)
    } else if i < 20 {
        u32_b(16, i - 16)
    } else if i < 22 {
        u16_b(1, i - 20)
    } else if i < 24 {
        u16_b(m.channels, i - 22)
    } else if i < 28 {
        u32_b(m.sample_rate, i - 24)
    } else if i < 32 {
        u32_b(byte_rate, i - 28)
    } else if i < 34 {
        u16_b(block_align, i - 32)
    } else if i < 36 {
        u16_b(16, i - 34)
    } else if i < 40 {
        tag_byte(0x64, 0x61, 0x74, 0x61, i - 36)
    } else if i < 44 {
        u32_b(data_len, i - 40)
    } else {
        u16_b(m.samples[(i - 44) / 2] as u16, (i - 44) % 2)
    }
}

/// The encoded wave container for waveform `m`: 44 header bytes plus two
/// bytes per sample.
pub open spec fn wav16_encode(m: WaveModel) -> Seq<u8> {
    Seq::new((44 + 2 * m.samples.len()) as nat, |i: int| wav16_byte(m, i))
}

/// The 16-bit field at byte offset `p`.
pub open spec fn r16(b: Seq<u8>, p: int) -> u16 {
    u16_of(b[p], b[p + 1])
}

/// The 32-bit field at byte offset `p`.
pub open spec fn r32(b: Seq<u8>, p: int) -> u32 {
    u32_of(b[p], b[p + 1], b[p + 2], b[p + 3])
}

/// Whether `b` begins with a well-formed header of the canonical layout
/// and has exactly the length the header announces.
pub open spec fn wav16_header_ok(b: Seq<u8>) -> bool {
    &&& 44 <= b.len() <= 0xFFFF_FFFF
    &&& b[0] == 0x52 && b[1] == 0x49 && b[2] == 0x46 && b[3] == 0x46
    &&& b[8] == 0x57 && b[9] == 0x41 && b[10] == 0x56 && b[11] == 0x45
    &&& b[12] == 0x66 && b[13] == 0x6d && b[14] == 0x74 && b[15] == 0x20
    &&& r32(b, 16) == 16
    &&& r16(b, 20) == 1
    &&& 1 <= r16(b, 22) <= 0x7FFF
    &&& 1 <= r32(b, 24)
    &&& r32(b, 28) as int == 2 * (r32(b, 24) as int) * (r16(b, 22) as int)
    &&& r16(b, 32) as int == 2 * (r16(b, 22) as int)
    &&& r16(b, 34) == 16
    &&& b[36] == 0x64 && b[37] == 0x61 && b[38] == 0x74 && b[39] == 0x61
    &&& r32(b, 40) as int == b.len() - 44
    &&& r32(b, 4) as int == b.len() - 8
    &&& (b.len() - 44) % 2 == 0
    &&& ((b.len() - 44) / 2) % (r16(b, 22) as int) == 0
}

/// The waveform encoded in `b`, if `b` is a well-formed wave container of
/// the canonical layout; absent otherwise.
pub open spec fn wav16_parse(b: Seq<u8>) -> Option<WaveModel> {
    if wav16_header_ok(b) {
        Some(
            WaveModel {
                sample_rate: r32(b, 24),
                channels: r16(b, 22),
                samples: Seq::new(
                    ((b.len() - 44) / 2) as nat,
                    |j: int| u16_of(b[44 + 2 * j], b[45 + 2 * j]) as i16,
                ),
            },
        )
    } else {
        None
    }
}

/// Round trip: parsing an encoded waveform gives the waveform back.
/// Encoding loses nothing but the 16-bit quantization already present
/// in the samples.
pub proof fn lemma_wav16_round_trip(m: WaveModel)
    requires
        m.wf(),
    ensures
        wav16_parse(wav16_encode(m)) == Some(m),
{
    let b = wav16_encode(m);
    let data_len = (2 * m.samples.len()) as u32;
    let riff_size = (2 * m.samples.len() + 36) as u32;
    let byte_rate = (2 * (m.sample_rate as int) * (m.channels as int)) as u32;
    let block_align = (2 * m.channels) as u16;
    lemma_u32_round_trip(16);
    lemma_u16_round_trip(1);
    lemma_u16_round_trip(16);
    lemma_u16_round_trip(m.channels);
    lemma_u32_round_trip(m.sample_rate);
    lemma_u32_round_trip(byte_rate);
    lemma_u16_round_trip(block_align);
    lemma_u32_round_trip(data_len);
    lemma_u32_round_trip(riff_size);
    assert(r32(b, 16) == 16);
    assert(r16(b, 20) == 1);
    assert(r16(b, 22) == m.channels);
    assert(r32(b, 24) == m.sample_rate);
    assert(r32(b, 28) == byte_rate);
    assert(r16(b, 32) == block_align);
    assert(r16(b, 34) == 16);
    assert(r32(b, 40) == data_len);
    assert(r32(b, 4) == riff_size);
    assert(wav16_header_ok(b));
    let parsed = wav16_parse(b)->Some_0;
    assert forall|j: int| 0 <= j < m.samples.len() implies parsed.samples[j] == m.samples[j] by {
        let s = m.samples[j];
        lemma_u16_round_trip(s as u16);
        assert(b[44 + 2 * j] == u16_lo(s as u16));
        assert(b[45 + 2 * j] == u16_hi(s as u16));
        assert((s as u16) as i16 == s) by (bit_vector);
    }
    assert(parsed.samples =~= m.samples);
}

/// Byte `i` of the encoded wave container for `w`.
fn wav16_byte_at(w: &WaveData, i: usize) -> (r: u8)
    requires
        w@.wf(),
        i < 44 + 2 * w.samples@.len(),
    ensures
        r == wav16_byte(w@, i as int),
{
    proof {
        let r = w.sample_rate as int;
        let c = w.channels as int;
        assert(2 * r <= 2 * r * c && (2 * r) * c == 2 * r * c) by (nonlinear_arith)
            requires
                1 <= c,
                1 <= r,
        ;
    }
    let n = w.samples.len();
    let data_len: u32 = 2 * (n as u32);
    let riff_size: u32 = data_len + 36;
    let byte_rate: u32 = 2 * w.sample_rate * (w.channels as u32);
    let block_align: u16 = 2 * w.channels;
    if i < 4 {
        if i == 0 { 0x52 } else if i == 1 { 0x49 } else if i == 2 { 0x46 } else { 0x46 }
    } else if i < 8 {
        u32_byte_at(riff_size, i - 4)
    } else if i < 12 {
        if i == 8 { 0x57 } else if i == 9 { 0x41 } else if i == 10 { 0x56 } else { 0x45 }
    } else if i < 16 {
        if i == 12 { 0x66 } else if i == 13 { 0x6d } else if i == 14 { 0x74 } else { 0x20 }
    } else if i < 20 {
        u32_byte_at(16, i - 16)
    } else if i < 22 {
        u16_byte_at(1, i - 20)
    } else if i < 24 {
        u16_byte_at(w.channels, i - 22)
    } else if i < 28 {
        u32_byte_at(w.sample_rate, i - 24)
    } else if i < 32 {
        u32_byte_at(byte_rate, i - 28)
    } else if i < 34 {
        u16_byte_at(block_align, i - 32)
    } else if i < 36 {
        u16_byte_at(16, i - 34)
    } else if i < 40 {
        if i == 36 { 0x64 } else if i == 37 { 0x61 } else if i == 38 { 0x74 } else { 0x61 }
    } else if i < 44 {
        u32_byte_at(data_len, i - 40)
    } else {
        let j = i - 44;
        u16_byte_at(#[verifier::truncate] (w.samples[j / 2] as u16), j % 2)
    }
}

/// Byte `k` (0 = least significant) of a 32-bit value.
fn u32_byte_at(x: u32, k: usize) -> (r: u8)
    requires
        k < 4,
    ensures
        r == u32_b(x, k as int),
{
    if k == 0 {
        (x & 0xff) as u8
    } else if k == 1 {
        ((x >> 8) & 0xff) as u8
    } else if k == 2 {
        ((x >> 16) & 0xff) as u8
    } else {
        ((x >> 24) & 0xff) as u8
    }
}

/// Byte `k` (0 = least significant) of a 16-bit value.
fn u16_byte_at(x: u16, k: usize) -> (r: u8)
    requires
        k < 2,
    ensures
        r == u16_b(x, k as int),
{
    if k == 0 {
        (x & 0xff) as u8
    } else {
        ((x >> 8) & 0xff) as u8
    }
}

/// Encode a waveform into the wave container.
pub fn encode_wav16(w: &WaveData) -> (r: Vec<u8>)
    requires
        w@.wf(),
    ensures
        r@ == wav16_encode(w@),
{
    let n = w.samples.len();
    let total = 44 + 2 * n;
    let mut out: Vec<u8> = Vec::new();
    let mut i: usize = 0;
    while i < total
        invariant
            w@.wf(),
            n == w.samples@.len(),
            total == 44 + 2 * n,
            i <= total,
            out@.len() == i as int,
            forall|k: int| 0 <= k < i ==> out@[k] == wav16_byte(w@, k),
        decreases total - i,
    {
        let b = wav16_byte_at(w, i);
        out.push(b);
        i = i + 1;
    }
    assert(out@ =~= wav16_encode(w@));
    out
}

/// The 16-bit field read little-endian at byte offset `p`.
fn read_u16_at(b: &Vec<u8>, p: usize) -> (r: u16)
    requires
        p + 2 <= b.len(),
    ensures
        r == r16(b@, p as int),
{
    (b[p] as u16) | ((b[p + 1] as u16) << 8)
}

/// The 32-bit field read little-endian at byte offset `p`.
fn read_u32_at(b: &Vec<u8>, p: usize) -> (r: u32)
    requires
        p + 4 <= b.len(),
    ensures
        r == r32(b@, p as int),
{
    (b[p] as u32) | ((b[p + 1] as u32) << 8) | ((b[p + 2] as u32) << 16) | ((b[p + 3] as u32)
        << 24)
}

/// Decode a wave container.  Yields the waveform it encodes, or absent if
/// the buffer is not a well-formed container of the canonical layout.
pub fn decode_wav16(b: &Vec<u8>) -> (r: Option<WaveData>)
    ensures
        match r {
            Some(w) => wav16_parse(b@) == Some(w@) && w@.wf(),
            None => wav16_parse(b@) is None,
        },
{
    if b.len() < 44 {
        return None;
    }
    if (b.len() as u64) > 0xFFFF_FFFF {
        return None;
    }
    if !(b[0] == 0x52 && b[1] == 0x49 && b[2] == 0x46 && b[3] == 0x46) {
        return None;
    }
    if !(b[8] == 0x57 && b[9] == 0x41 && b[10] == 0x56 && b[11] == 0x45) {
        return None;
    }
    if !(b[12] == 0x66 && b[13] == 0x6d && b[14] == 0x74 && b[15] == 0x20) {
        return None;
    }
    if !(b[36] == 0x64 && b[37] == 0x61 && b[38] == 0x74 && b[39] == 0x61) {
        return None;
    }
    let fmt_len = read_u32_at(b, 16);
    let format = read_u16_at(b, 20);
    let channels = read_u16_at(b, 22);
    let sample_rate = read_u32_at(b, 24);
    let byte_rate = read_u32_at(b, 28);
    let block_align = read_u16_at(b, 32);
    let bits = read_u16_at(b, 34);
    let data_len = read_u32_at(b, 40);
    let riff_size = read_u32_at(b, 4);
    if fmt_len != 16 || format != 1 {
        return None;
    }
    if channels == 0 || channels > 0x7FFF {
        return None;
    }
    if sample_rate == 0 {
        return None;
    }
    proof {
        let r = sample_rate as int;
        let c = channels as int;
        assert(0 <= 2 * r * c < 0x4000000000000i64 && (2 * r) * c == 2 * r * c)
            by (nonlinear_arith)
            requires
                0 <= c < 0x10000,
                0 <= r < 0x100000000i64,
        ;
    }
    if (byte_rate as u64) != 2 * (sample_rate as u64) * (channels as u64) {
        return None;
    }
    if (block_align as u64) != 2 * (channels as u64) {
        return None;
    }
    if bits != 16 {
        return None;
    }
    if (data_len as u64) != (b.len() as u64) - 44 {
        return None;
    }
    if (riff_size as u64) != (b.len() as u64) - 8 {
        return None;
    }
    if data_len % 2 != 0 {
        return None;
    }
    let sample_count = (data_len / 2) as usize;
    if (sample_count as u64) % (channels as u64) != 0 {
        return None;
    }
    assert(wav16_header_ok(b@));
    let mut samples: Vec<i16> = Vec::new();
    let mut j: usize = 0;
    while j < sample_count
        invariant
            b@.len() == 44 + 2 * sample_count,
            sample_count <= 0x7FFF_FFE9,
            j <= sample_count,
            samples@.len() == j as int,
            forall|k: int|
                0 <= k < j ==> samples@[k] == u16_of(b@[44 + 2 * k], b@[45 + 2 * k]) as i16,
        decreases sample_count - j,
    {
        let s = read_u16_at(b, 44 + 2 * j);
        samples.push(#[verifier::truncate] (s as i16));
        j = j + 1;
    }
    let w = WaveData { sample_rate, channels, samples };
    proof {
        let parsed = wav16_parse(b@)->Some_0;
        assert(w@.samples =~= parsed.samples);
        assert(2 * w@.samples.len() + 36 <= 0xFFFF_FFFF);
    }
    Some(w)
}

/// Frames per channel held by a waveform.
pub fn wave_frames(w: &WaveData) -> (r: usize)
    requires
        w@.wf(),
    ensures
        r as int == w@.frames(),
{
    w.samples.len() / (w.channels as usize)
}

} // verus!
