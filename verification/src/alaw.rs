//! G.711 A-law companding of the media path: 16-bit samples to 8-bit A-law
//! bytes and back, one byte per sample at 8 kHz.
//!
//! The conversion itself is done by the `ezk_g711` crate; the spec functions
//! here state exactly what it computes, and the round-trip law bounds the
//! quantization error.

use vstd::prelude::*;

verus! {

/// Magnitude of a sample as the A-law coder folds it: negative samples go
/// through bitwise not, so the magnitude of `x < 0` is `-x - 1`.
pub open spec fn alaw_mag(x: int) -> int {
    if x < 0 {
        -x - 1
    } else {
        x
    }
}

/// The 7-bit A-law code of a magnitude in `[0, 32767]`: the magnitude is cut
/// to 12 bits, then coded as a segment exponent (high three bits) and a
/// 4-bit mantissa taken right below the leading one of the segment.
pub open spec fn alaw_code(mag: int) -> int {
    let ix = mag / 16;
    if ix <= 15 {
        ix
    } else if ix < 32 {
        ix
    } else if ix < 64 {
        ix / 2 + 16
    } else if ix < 128 {
        ix / 4 + 32
    } else if ix < 256 {
        ix / 8 + 48
    } else if ix < 512 {
        ix / 16 + 64
    } else if ix < 1024 {
        ix / 32 + 80
    } else {
        ix / 64 + 96
    }
}

/// The magnitude that a 7-bit A-law code expands back to: the midpoint of
/// the quantization interval the code stands for.
pub open spec fn alaw_expand(iy: int) -> int {
    let e = iy / 16;
    let m = iy % 16;
    if e == 0 {
        16 * m + 8
    } else if e == 1 {
        16 * (m + 16) + 8
    } else if e == 2 {
        (16 * (m + 16) + 8) * 2
    } else if e == 3 {
        (16 * (m + 16) + 8) * 4
    } else if e == 4 {
        (16 * (m + 16) + 8) * 8
    } else if e == 5 {
        (16 * (m + 16) + 8) * 16
    } else if e == 6 {
        (16 * (m + 16) + 8) * 32
    } else {
        (16 * (m + 16) + 8) * 64
    }
}

/// The A-law byte of a sample: the 7-bit code, the sign in the top bit
/// (set for non-negative samples), the whole XORed with 0x55.
pub open spec fn spec_alaw_encode(x: i16) -> u8 {
    let code = alaw_code(alaw_mag(x as int));
    let w: u8 = if x >= 0 {
        (code + 128) as u8
    } else {
        code as u8
    };
    w ^ 0x55
}

/// The sample an A-law byte decodes to: undo the XOR, expand the 7-bit code,
/// apply the sign from the top bit.
pub open spec fn spec_alaw_decode(y: u8) -> i16 {
    let iy = ((y ^ 0x55) & 0x7f) as int;
    let mant = alaw_expand(iy);
    if y >= 128 {
        mant as i16
    } else {
        (-mant) as i16
    }
}

/// Relies on `ezk_g711::alaw::encode`: folds the sample through bitwise not
/// when negative, compresses the magnitude to a segment/mantissa code, sets
/// the sign bit for non-negative samples and XORs with 0x55 — exactly
/// `spec_alaw_encode`.
#[verifier::external_body]
fn alaw_encode_sample(x: i16) -> (r: u8)
    ensures
        r == spec_alaw_encode(x),
{
    ezk_g711::alaw::encode(x)
}

/// Relies on `ezk_g711::alaw::decode`: undoes the XOR with 0x55, expands the
/// segment/mantissa code to the interval midpoint and applies the sign bit —
/// exactly `spec_alaw_decode`.
#[verifier::external_body]
fn alaw_decode_sample(y: u8) -> (r: i16)
    ensures
        r == spec_alaw_decode(y),
{
    ezk_g711::alaw::decode(y)
}

/// Encodes a frame of 16-bit samples into A-law bytes, one byte per sample.
pub fn encode_g711_alaw(samples: &Vec<i16>) -> (r: Vec<u8>)
    ensures
        r@.len() == samples@.len(),
        forall|i: int| 0 <= i < samples@.len() ==> r@[i] == spec_alaw_encode(samples@[i]),
{
    let mut out: Vec<u8> = Vec::new();
    let mut k: usize = 0;
    while k < samples.len()
        invariant
            k <= samples@.len(),
            out@.len() == k,
            forall|i: int| 0 <= i < k ==> out@[i] == spec_alaw_encode(samples@[i]),
        decreases samples@.len() - k,
    {
        out.push(alaw_encode_sample(samples[k]));
        k = k + 1;
    }
    out
}

/// Decodes a frame of A-law bytes into 16-bit samples, one sample per byte.
pub fn decode_g711_alaw(data: &Vec<u8>) -> (r: Vec<i16>)
    ensures
        r@.len() == data@.len(),
        forall|i: int| 0 <= i < data@.len() ==> r@[i] == spec_alaw_decode(data@[i]),
{
    let mut out: Vec<i16> = Vec::new();
    let mut k: usize = 0;
    while k < data.len()
        invariant
            k <= data@.len(),
            out@.len() == k,
            forall|i: int| 0 <= i < k ==> out@[i] == spec_alaw_decode(data@[i]),
        decreases data@.len() - k,
    {
        out.push(alaw_decode_sample(data[k]));
        k = k + 1;
    }
    out
}

/// The compressed code of a legal magnitude is a 7-bit value, and expanding
/// it lands within half a quantization step of the magnitude it came from: at
/// most 8 below or 7 above for the linear segment, at most 512 either way for
/// the largest one.
proof fn lemma_code_expand(mag: int)
    requires
        0 <= mag <= 32767,
    ensures
        0 <= alaw_code(mag) <= 127,
        alaw_expand(alaw_code(mag)) - mag <= 512,
        mag - alaw_expand(alaw_code(mag)) <= 511,
        alaw_expand(alaw_code(mag)) >= 8,
        mag < 256 ==> alaw_expand(alaw_code(mag)) - mag <= 8 && mag - alaw_expand(alaw_code(mag))
            <= 7,
{
    let ix = mag / 16;
    assert(mag == 16 * ix + mag % 16);
    if ix <= 15 {
    } else if ix < 32 {
    } else if ix < 64 {
        assert(ix == 2 * (ix / 2) + ix % 2);
    } else if ix < 128 {
        assert(ix == 4 * (ix / 4) + ix % 4);
    } else if ix < 256 {
        assert(ix == 8 * (ix / 8) + ix % 8);
    } else if ix < 512 {
        assert(ix == 16 * (ix / 16) + ix % 16);
    } else if ix < 1024 {
        assert(ix == 32 * (ix / 32) + ix % 32);
    } else {
        assert(ix == 64 * (ix / 64) + ix % 64);
    }
}

/// Encoding a sample to an A-law byte and decoding the byte again gives a
/// sample within the A-law quantization bounds: off by at most 8 for samples
/// of magnitude below 256, and by at most 512 in the largest segment; the
/// sign of the sample is preserved (a non-negative sample comes back
/// positive, a negative one negative).
pub proof fn lemma_alaw_round_trip(x: i16)
    ensures
        -511 <= spec_alaw_decode(spec_alaw_encode(x)) - x <= 512,
        x >= 0 ==> spec_alaw_decode(spec_alaw_encode(x)) > 0,
        x < 0 ==> spec_alaw_decode(spec_alaw_encode(x)) < 0,
        -256 <= x < 256 ==> -8 <= spec_alaw_decode(spec_alaw_encode(x)) - x <= 8,
{
    let mag = alaw_mag(x as int);
    lemma_code_expand(mag);
    let code = alaw_code(mag);
    let c: u8 = code as u8;
    let y = spec_alaw_encode(x);
    if x >= 0 {
        let w: u8 = (code + 128) as u8;
        assert(w == c + 128);
        assert((((w ^ 0x55) ^ 0x55) & 0x7f) == c && (w ^ 0x55) >= 128) by (bit_vector)
            requires
                c < 128,
                w == c + 128,
        ;
        assert(y == w ^ 0x55);
        assert(spec_alaw_decode(y) == alaw_expand(c as int));
    } else {
        let w: u8 = c;
        assert((((w ^ 0x55) ^ 0x55) & 0x7f) == c && (w ^ 0x55) < 128) by (bit_vector)
            requires
                c < 128,
                w == c,
        ;
        assert(y == w ^ 0x55);
        assert(spec_alaw_decode(y) == -alaw_expand(c as int));
    }
}

} // verus!
