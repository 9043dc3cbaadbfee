//! The gain stage: volume scaling of 16-bit signed little-endian PCM.
//!
//! The stage is a stateless map over a chunk of bytes. Every complete pair of
//! bytes is one sample; it is multiplied by `volume / 100` in a wider integer
//! and rounded to the nearest integer, toward zero where two are equally
//! near. A trailing single byte carries no sample and comes out as zero.

use vstd::prelude::*;

verus! {

/// The volume at which the gain stage leaves every sample unchanged.
pub const FULL_VOLUME: u8 = 100;

/// The signed sample that the little-endian byte pair `lo`, `hi` encodes.
pub open spec fn sample_of(lo: u8, hi: u8) -> int {
    let raw = lo as int + 256 * (hi as int);
    if raw >= 32768 {
        raw - 65536
    } else {
        raw
    }
}

/// The low byte of the two's-complement encoding of `sample`.
pub open spec fn low_byte(sample: int) -> u8 {
    (sample % 256) as u8
}

/// The high byte of the two's-complement encoding of `sample`.
pub open spec fn high_byte(sample: int) -> u8 {
    ((sample % 65536) / 256) as u8
}

/// `magnitude * volume / 100` for a magnitude that is not negative, rounded
/// to the nearest integer, and down where two are equally near.
pub open spec fn scaled_magnitude(magnitude: int, volume: int) -> int {
    (magnitude * volume + 49) / 100
}

/// `sample * volume / 100`, rounded to the nearest integer, and toward zero
/// where two are equally near.
pub open spec fn scaled_sample(sample: int, volume: int) -> int {
    if sample >= 0 {
        scaled_magnitude(sample, volume)
    } else {
        -scaled_magnitude(-sample, volume)
    }
}

/// Byte `i` of the chunk that the gain stage makes of `chunk`: a byte of the
/// scaled sample where `i` lies in a complete pair, zero behind the last
/// complete pair.
pub open spec fn scaled_byte(chunk: Seq<u8>, volume: int, i: int) -> u8 {
    let first = i - i % 2;
    if first + 1 < chunk.len() {
        let scaled = scaled_sample(sample_of(chunk[first], chunk[first + 1]), volume);
        if i % 2 == 0 {
            low_byte(scaled)
        } else {
            high_byte(scaled)
        }
    } else {
        0u8
    }
}

/// The chunk that the gain stage makes of `chunk` at `volume`.
pub open spec fn scaled_chunk(chunk: Seq<u8>, volume: int) -> Seq<u8> {
    Seq::new(chunk.len(), |i: int| scaled_byte(chunk, volume, i))
}

/// A scaled sample is the integer nearest to `sample * volume / 100`: a
/// hundred times the one is within fifty of the product. Where the product
/// lies half-way between two integers, the scaled sample is the one nearer
/// to zero.
pub proof fn scaled_sample_is_nearest(sample: int, volume: int)
    requires
        0 <= volume,
    ensures
        -50 <= 100 * scaled_sample(sample, volume) - sample * volume <= 50,
        sample >= 0 ==> 100 * scaled_sample(sample, volume) - sample * volume <= 49,
        sample <= 0 ==> -49 <= 100 * scaled_sample(sample, volume) - sample * volume,
{
    if sample < 0 {
        assert((-sample) * volume == -(sample * volume)) by (nonlinear_arith);
    }
}

/// A scaled sample is never larger in magnitude than the sample, and keeps
/// its sign or becomes zero.
pub proof fn scaled_sample_is_bounded(sample: int, volume: int)
    requires
        0 <= volume <= 100,
    ensures
        sample >= 0 ==> 0 <= scaled_sample(sample, volume) <= sample,
        sample <= 0 ==> sample <= scaled_sample(sample, volume) <= 0,
{
    if sample >= 0 {
        assert(0 <= sample * volume <= sample * 100) by (nonlinear_arith)
            requires
                sample >= 0,
                0 <= volume <= 100,
        ;
    } else {
        assert(0 <= (-sample) * volume <= (-sample) * 100) by (nonlinear_arith)
            requires
                sample < 0,
                0 <= volume <= 100,
        ;
    }
}

/// At full volume every sample comes out as it went in.
pub proof fn full_volume_is_identity(sample: int)
    ensures
        scaled_sample(sample, 100) == sample,
{
}

/// At volume zero every sample comes out as zero.
pub proof fn zero_volume_is_silence(sample: int)
    ensures
        scaled_sample(sample, 0) == 0,
{
}

/// Encoding the sample that a byte pair encodes gives the pair back.
pub proof fn encoding_round_trip(lo: u8, hi: u8)
    ensures
        low_byte(sample_of(lo, hi)) == lo,
        high_byte(sample_of(lo, hi)) == hi,
        -32768 <= sample_of(lo, hi) <= 32767,
{
}

/// At full volume a chunk of whole samples passes through the gain stage
/// unchanged.
pub proof fn full_volume_keeps_chunk(chunk: Seq<u8>)
    requires
        chunk.len() % 2 == 0,
    ensures
        scaled_chunk(chunk, 100) == chunk,
{
    assert forall|i: int| 0 <= i < chunk.len() implies scaled_byte(chunk, 100, i) == chunk[i] by {
        let first = i - i % 2;
        encoding_round_trip(chunk[first], chunk[first + 1]);
        full_volume_is_identity(sample_of(chunk[first], chunk[first + 1]));
    }
    assert(scaled_chunk(chunk, 100) =~= chunk);
}

/// At volume zero every byte that leaves the gain stage is zero.
pub proof fn zero_volume_silences_chunk(chunk: Seq<u8>)
    ensures
        scaled_chunk(chunk, 0) == Seq::new(chunk.len(), |i: int| 0u8),
{
    assert forall|i: int| 0 <= i < chunk.len() implies scaled_byte(chunk, 0, i) == 0u8 by {
        let first = i - i % 2;
        if first + 1 < chunk.len() {
            zero_volume_is_silence(sample_of(chunk[first], chunk[first + 1]));
        }
    }
    assert(scaled_chunk(chunk, 0) =~= Seq::new(chunk.len(), |i: int| 0u8));
}

/// Decodes a little-endian byte pair into its signed sample.
pub fn decode_sample(lo: u8, hi: u8) -> (sample: i16)
    ensures
        sample == sample_of(lo, hi),
{
    let raw: i32 = lo as i32 + 256 * (hi as i32);
    if raw >= 32768 {
        (raw - 65536) as i16
    } else {
        raw as i16
    }
}

/// Encodes a signed sample as its little-endian byte pair.
pub fn encode_sample(sample: i16) -> (bytes: (u8, u8))
    ensures
        bytes.0 == low_byte(sample as int),
        bytes.1 == high_byte(sample as int),
{
    let raw: u32 = if sample < 0 {
        (sample as i32 + 65536) as u32
    } else {
        sample as u32
    };
    ((raw % 256) as u8, (raw / 256) as u8)
}

/// Scales one sample by `volume / 100`, rounding to the nearest integer, and
/// toward zero where two are equally near.
pub fn scale_sample(sample: i16, volume: u8) -> (scaled: i16)
    requires
        volume <= 100,
    ensures
        scaled == scaled_sample(sample as int, volume as int),
        -50 <= 100 * scaled - sample * volume <= 50,
{
    let gain: u32 = volume as u32;
    proof {
        scaled_sample_is_bounded(sample as int, volume as int);
        scaled_sample_is_nearest(sample as int, volume as int);
    }
    if sample >= 0 {
        let magnitude: u32 = sample as u32;
        assert(magnitude * gain <= 3276800) by (nonlinear_arith)
            requires
                magnitude <= 32768,
                gain <= 100,
        ;
        ((magnitude * gain + 49) / 100) as i16
    } else {
        let magnitude: u32 = (-(sample as i32)) as u32;
        assert(magnitude * gain <= 3276800) by (nonlinear_arith)
            requires
                magnitude <= 32768,
                gain <= 100,
        ;
        let quotient: i32 = ((magnitude * gain + 49) / 100) as i32;
        (-quotient) as i16
    }
}

/// Applies the gain stage to one chunk of raw PCM bytes.
///
/// The result has the length of `chunk`. It carries no state from one chunk
/// to the next.
pub fn apply_gain(chunk: &[u8], volume: u8) -> (scaled: Vec<u8>)
    requires
        volume <= 100,
    ensures
        scaled@ == scaled_chunk(chunk@, volume as int),
{
    let len: usize = chunk.len();
    let mut scaled: Vec<u8> = Vec::new();
    let mut i: usize = 0;
    while i < len && len - i >= 2
        invariant
            len == chunk@.len(),
            volume <= 100,
            i <= len,
            i % 2 == 0,
            scaled@.len() == i,
            forall|j: int| 0 <= j < i ==> scaled@[j] == scaled_byte(chunk@, volume as int, j),
        decreases len - i,
    {
        let sample: i16 = decode_sample(chunk[i], chunk[i + 1]);
        let (lo, hi) = encode_sample(scale_sample(sample, volume));
        scaled.push(lo);
        scaled.push(hi);
        i = i + 2;
    }
    if i < len {
        scaled.push(0u8);
    }
    assert(scaled@ =~= scaled_chunk(chunk@, volume as int));
    scaled
}

} // verus!
