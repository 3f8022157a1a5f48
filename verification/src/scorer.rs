use crate::audio_segment::{AudioSegment, Probability, Sample};
use crate::error::ConfigurationError;
use vstd::arithmetic::div_mod::lemma_basic_div;
use vstd::arithmetic::power2::{
    lemma2_to64, lemma2_to64_rest, lemma_pow2_pos, lemma_pow2_strictly_increases,
    lemma_pow2_unfold, pow2,
};
use vstd::bits::{lemma_u64_pow2_no_overflow, lemma_u64_shl_is_mul};
use vstd::prelude::*;

verus! {

/// How many samples the speech scorer takes at a time.
pub const SCORER_CHUNK_LEN: usize = 1024;

/// The bit pattern of the single-precision number one.
pub const SCORE_ONE_BITS: u32 = 0x3f80_0000;

/// The bit pattern of the single-precision number minus zero.
pub const SCORE_MINUS_ZERO_BITS: u32 = 0x8000_0000;

/// The sign of the single-precision number with the bit pattern `bits`: the
/// top bit.
pub open spec fn sign_of(bits: u32) -> int {
    bits as int / 0x8000_0000
}

/// The exponent field of `bits`: the eight bits under the sign.
pub open spec fn exponent_of(bits: u32) -> int {
    (bits as int / 0x80_0000) % 0x100
}

/// The fraction field of `bits`: the low 23 bits.
pub open spec fn fraction_of(bits: u32) -> int {
    bits as int % 0x80_0000
}

/// The magnitude of a finite number `bits` is `significand_of(bits)` over two
/// to the power `binary_places_of(bits)`. A subnormal number, of exponent
/// field zero, has no leading one.
pub open spec fn significand_of(bits: u32) -> int {
    if exponent_of(bits) == 0 {
        fraction_of(bits)
    } else {
        0x80_0000 + fraction_of(bits)
    }
}

/// See [`significand_of`]. At least 23 for a magnitude of at most one.
pub open spec fn binary_places_of(bits: u32) -> int {
    if exponent_of(bits) == 0 {
        149
    } else {
        150 - exponent_of(bits)
    }
}

/// Whether the single-precision number `bits` is a number from zero to one:
/// not negative but for minus zero, not above one, and neither infinite nor
/// not a number.
pub open spec fn is_probability_score(bits: u32) -> bool {
    ||| bits == SCORE_MINUS_ZERO_BITS
    ||| sign_of(bits) == 0 && (exponent_of(bits) < 127 || bits == SCORE_ONE_BITS)
}

/// The number `bits`, of magnitude at most one, in millionths, rounded to the
/// nearest whole and up from the middle: the whole part of
/// `significand * 1_000_000 / 2^places + 1/2`.
pub open spec fn score_millionths(bits: u32) -> int {
    let places = binary_places_of(bits);
    (significand_of(bits) * 1_000_000 + pow2((places - 1) as nat)) / (pow2(places as nat) as int)
}

proof fn lemma_rounds_to_at_most_one(significand: int, half: int)
    by (nonlinear_arith)
    requires
        0 <= significand <= 2 * half,
        0 < half,
    ensures
        0 <= (significand * 1_000_000 + half) / (2 * half) <= 1_000_000,
{
}

/// The probability that the scorer's result stands for, unless the result is
/// no number from zero to one. `bits` is the bit pattern of the
/// single-precision number that the scorer returned; the probability is that
/// number rounded to millionths.
pub fn probability_of_score(bits: u32) -> (p: Option<Probability>)
    ensures
        p is Some <==> is_probability_score(bits),
        p matches Some(q) ==> q@ == score_millionths(bits),
{
    let exponent: u32 = (bits / 0x80_0000) % 0x100;
    let fraction: u32 = bits % 0x80_0000;
    if bits >= 0x8000_0000 && bits != SCORE_MINUS_ZERO_BITS {
        return None;
    }
    if exponent > 127 || (exponent == 127 && fraction != 0) {
        return None;
    }
    let significand: u64 = if exponent == 0 {
        fraction as u64
    } else {
        0x80_0000 + fraction as u64
    };
    let places: u32 = if exponent == 0 {
        149
    } else {
        150 - exponent
    };
    let scaled: u64 = significand * 1_000_000;
    proof {
        lemma2_to64();
        lemma2_to64_rest();
        lemma_pow2_unfold(places as nat);
        lemma_pow2_pos((places - 1) as nat);
    }
    let millionths: u64 = if places > 44 {
        proof {
            if places > 45 {
                lemma_pow2_strictly_increases(44, (places - 1) as nat);
            }
            lemma_basic_div(
                scaled as int + pow2((places - 1) as nat) as int,
                pow2(places as nat) as int,
            );
        }
        0
    } else {
        proof {
            if places > 24 {
                lemma_pow2_strictly_increases(23, (places - 1) as nat);
            }
            lemma_u64_pow2_no_overflow((places - 1) as nat);
            if places < 44 {
                lemma_pow2_strictly_increases((places - 1) as nat, 43);
            }
            lemma_u64_shl_is_mul(1, (places - 1) as u64);
            lemma_rounds_to_at_most_one(significand as int, pow2((places - 1) as nat) as int);
        }
        let half: u64 = 1u64 << (places - 1);
        (scaled + half) / (2 * half)
    };
    Probability::new(millionths as u32)
}

/// Whether a conditioned chunk of `len` samples is one the scorer can take:
/// it must have exactly the `chunk_len` samples that the scorer works on.
pub fn check_chunk_len(len: usize, chunk_len: usize) -> (checked: Result<(), ConfigurationError>)
    ensures
        len == chunk_len ==> checked is Ok,
        len != chunk_len ==> checked == Err::<(), ConfigurationError>(
            ConfigurationError::ChunkSizeMismatch,
        ),
{
    if len == chunk_len {
        Ok(())
    } else {
        Err(ConfigurationError::ChunkSizeMismatch)
    }
}

/// Joins a conditioned chunk and what the scorer returned for it, unless
/// that is no number from zero to one. `score_bits` is the bit pattern of the
/// scorer's single-precision result.
pub fn scored_segment(audio_data: Vec<Sample>, score_bits: u32) -> (scored: Option<AudioSegment>)
    ensures
        scored is Some <==> is_probability_score(score_bits),
        scored matches Some(segment) ==> {
            &&& segment.audio_data == audio_data
            &&& segment.speech_probability@ == score_millionths(score_bits)
        },
{
    match probability_of_score(score_bits) {
        Some(probability) => Some(AudioSegment::new(audio_data, probability)),
        None => None,
    }
}

} // verus!
