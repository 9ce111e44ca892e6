//! The pure audio-format conversions.
//!
//! Two transformations, with no engine involvement. Integer-to-float
//! rescales 16-bit mono samples to 32-bit floats in [-1.0, 1.0] by dividing
//! by 32768; every such quotient is exactly representable, and the
//! conversion is carried out here on IEEE-754 bit patterns with integer
//! arithmetic alone, so the produced word equals `(x as f32 / 32768.0)`
//! bit for bit. Stereo-to-mono averages interleaved pairs; the averaging
//! itself is floating-point arithmetic and stays outside this crate, but
//! the decision it is gated on — which inputs are rejected, with which
//! error, and how many pairs a valid input has — is made here.

use vstd::arithmetic::mul::{lemma_mul_inequality, lemma_mul_strict_inequality};
use vstd::arithmetic::power2::{
    lemma2_to64, lemma_pow2_adds, lemma_pow2_strictly_increases, pow2,
};
use vstd::bits::lemma_u32_shl_is_mul;
use vstd::prelude::*;

use crate::error::WhisperError;

verus! {

/// The position of the highest set bit of a positive integer.
pub open spec fn spec_ilog2(m: int) -> int
    recommends
        1 <= m,
    decreases m,
{
    if m < 2 {
        0
    } else {
        1 + spec_ilog2(m / 2)
    }
}

/// The highest set bit is the exponent that brackets the integer between
/// two consecutive powers of two.
proof fn lemma_ilog2_bounds(m: int, e: int)
    requires
        0 <= e,
        pow2(e as nat) <= m,
        m < pow2((e + 1) as nat),
    ensures
        spec_ilog2(m) == e,
    decreases e,
{
    lemma2_to64();
    if e == 0 {
    } else {
        assert(pow2((e - 1) as nat) * 2 == pow2(e as nat)) by {
            lemma_pow2_adds((e - 1) as nat, 1);
        };
        assert(pow2(e as nat) * 2 == pow2((e + 1) as nat)) by {
            lemma_pow2_adds(e as nat, 1);
        };
        assert(pow2(e as nat) >= 2) by {
            if e > 1 {
                lemma_pow2_strictly_increases(1, e as nat);
            }
        };
        lemma_ilog2_bounds(m / 2, e - 1);
    }
}

/// The IEEE-754 single-precision word whose value is `m / 32768`, for a
/// magnitude `m` between 1 and 32768: the exponent field places the
/// highest set bit, and the remaining bits, shifted up to the 24-bit
/// significand, form the fraction.
pub open spec fn spec_magnitude_bits(m: int) -> int
    recommends
        1 <= m <= 32768,
{
    let e = spec_ilog2(m);
    (e + 112) * 0x0080_0000 + (m * pow2((23 - e) as nat) - 0x0080_0000)
}

/// The IEEE-754 single-precision word whose value is `x / 32768`, for a
/// 16-bit sample `x`.
pub open spec fn spec_sample_to_bits(x: int) -> u32
    recommends
        -32768 <= x < 32768,
{
    if x == 0 {
        0u32
    } else if x > 0 {
        spec_magnitude_bits(x) as u32
    } else {
        (0x8000_0000 + spec_magnitude_bits(-x)) as u32
    }
}

/// Rescale one 16-bit sample to the bit pattern of the 32-bit float
/// `x / 32768.0`.
pub fn sample_to_bits(x: i16) -> (r: u32)
    ensures
        r == spec_sample_to_bits(x as int),
{
    if x == 0 {
        return 0u32;
    }
    let negative = x < 0;
    let wide: i32 = x as i32;
    let m: u32 = if negative {
        (-wide) as u32
    } else {
        wide as u32
    };
    proof {
        lemma2_to64();
    }
    let ghost mag: int = if x < 0 {
        -(x as int)
    } else {
        x as int
    };
    assert(m == mag);
    assert(1 <= mag <= 32768);
    let mut e: u32 = 0;
    let mut p: u32 = 1;
    while 2 * p <= m
        invariant
            p == pow2(e as nat),
            p <= m,
            m == mag,
            1 <= mag <= 32768,
            e <= 15,
        decreases 16 - e,
    {
        proof {
            lemma_pow2_adds(e as nat, 1);
            lemma2_to64();
            if e + 1 > 15 {
                lemma_pow2_strictly_increases(15, (e + 1) as nat);
                assert(false);
            }
        }
        p = 2 * p;
        e = e + 1;
    }
    proof {
        lemma_pow2_adds(e as nat, 1);
        lemma2_to64();
        assert(m < pow2((e + 1) as nat));
        lemma_ilog2_bounds(m as int, e as int);
    }
    let shift: u32 = 23 - e;
    proof {
        assert(m * pow2(shift as nat) < pow2((e + 1) as nat) * pow2(shift as nat)) by {
            lemma_mul_strict_inequality(
                m as int,
                pow2((e + 1) as nat) as int,
                pow2(shift as nat) as int,
            );
        };
        assert(pow2((e + 1) as nat) * pow2(shift as nat) == pow2(24)) by {
            lemma_pow2_adds((e + 1) as nat, shift as nat);
        };
        assert(pow2(e as nat) * pow2(shift as nat) == pow2(23)) by {
            lemma_pow2_adds(e as nat, shift as nat);
        };
        assert(pow2(e as nat) * pow2(shift as nat) <= m * pow2(shift as nat)) by {
            lemma_mul_inequality(pow2(e as nat) as int, m as int, pow2(shift as nat) as int);
        };
        lemma_u32_shl_is_mul(m, shift);
    }
    let scaled: u32 = m << shift;
    assert(0x0080_0000 <= scaled < 0x0100_0000);
    let exponent_field: u32 = e + 112;
    let bits: u32 = exponent_field * 0x0080_0000 + (scaled - 0x0080_0000);
    if negative {
        let r = 0x8000_0000u32 + bits;
        assert(r == spec_sample_to_bits(x as int));
        r
    } else {
        assert(bits == spec_sample_to_bits(x as int));
        bits
    }
}

/// Rescale 16-bit mono samples to 32-bit floats in [-1.0, 1.0], written
/// into `output` as IEEE-754 bit patterns.
///
/// Requires equal lengths; fails with `InputOutputLengthMismatch` carrying
/// both lengths otherwise, leaving the output untouched. On success every
/// output word is exactly the bit pattern of `samples[i] as f32 / 32768.0`.
pub fn convert_integer_to_float_audio(samples: &[i16], output: &mut Vec<u32>) -> (r: Result<
    (),
    WhisperError,
>)
    ensures
        r is Ok <==> samples@.len() == old(output)@.len(),
        samples@.len() != old(output)@.len() ==> r == Err::<(), WhisperError>(
            WhisperError::InputOutputLengthMismatch {
                input_len: samples@.len() as usize,
                output_len: old(output)@.len() as usize,
            },
        ) && final(output)@ == old(output)@,
        r is Ok ==> final(output)@.len() == samples@.len() && (forall|i: int|
            0 <= i < samples@.len() ==> final(output)@[i] == spec_sample_to_bits(
                samples@[i] as int,
            )),
{
    let n = samples.len();
    if n != output.len() {
        return Err(
            WhisperError::InputOutputLengthMismatch { input_len: n, output_len: output.len() },
        );
    }
    let mut i: usize = 0;
    while i < n
        invariant
            n == samples@.len(),
            output@.len() == n,
            i <= n,
            forall|j: int| 0 <= j < i ==> output@[j] == spec_sample_to_bits(samples@[j] as int),
        decreases n - i,
    {
        output[i] = sample_to_bits(samples[i]);
        i = i + 1;
    }
    Ok(())
}

/// What the stereo-to-mono conversion decides from its buffer lengths:
/// an odd interleaved input misses half a sample and is rejected first;
/// then the output must hold exactly one sample per input pair. A valid
/// pair of lengths yields the pair count.
pub open spec fn spec_stereo_to_mono_check(input_len: usize, output_len: usize) -> Result<
    usize,
    WhisperError,
> {
    if input_len % 2 != 0 {
        Err(WhisperError::HalfSampleMissing(input_len))
    } else if output_len != input_len / 2 {
        Err(
            WhisperError::InputOutputLengthMismatch {
                input_len: (input_len / 2) as usize,
                output_len,
            },
        )
    } else {
        Ok((input_len / 2) as usize)
    }
}

/// Decide whether interleaved stereo of the given length may be averaged
/// into mono of the given length, and into how many pairs.
///
/// Fails with `HalfSampleMissing` carrying the input length when the input
/// length is odd, and with `InputOutputLengthMismatch` carrying the pair
/// count and the output length when the output is not half the input.
/// Nothing may be written to the output buffer unless the decision is
/// `Ok`.
pub fn convert_stereo_to_mono_check(input_len: usize, output_len: usize) -> (r: Result<
    usize,
    WhisperError,
>)
    ensures
        r == spec_stereo_to_mono_check(input_len, output_len),
{
    if input_len % 2 != 0 {
        Err(WhisperError::HalfSampleMissing(input_len))
    } else {
        let pairs = input_len / 2;
        if output_len != pairs {
            Err(WhisperError::InputOutputLengthMismatch { input_len: pairs, output_len })
        } else {
            Ok(pairs)
        }
    }
}

} // verus!
