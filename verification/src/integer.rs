use vstd::prelude::*;

use vstd::arithmetic::div_mod::{lemma_basic_div, lemma_mod_multiples_basic};
use vstd::arithmetic::mul::{lemma_mul_inequality, lemma_mul_is_associative};
use vstd::arithmetic::power2::{
    lemma2_to64, lemma_pow2_adds, lemma_pow2_strictly_increases, pow2,
};
use vstd::bits::{lemma_low_bits_mask_values, lemma_u16_shr_is_div, lemma_u32_shl_is_mul};

use crate::mask;
use crate::VmError;

verus! {

/// A 16-bit cell read in sign-magnitude form: bit 15 is the sign
/// (set means negative), bits 14..0 are the magnitude.
#[derive(Clone, Copy, Debug, PartialEq, Eq, Structural)]
pub struct Integer {
    pub w: u16,
}

/// True when a word's sign bit (bit 15) is set.
pub open spec fn sign_set(w: u16) -> bool {
    w >= 0x8000
}

/// The 15-bit magnitude field of a word.
pub open spec fn mag_part(w: u16) -> u16 {
    (w % 0x8000) as u16
}

/// The word whose sign bit is `sign` and whose magnitude field is `mag`.
pub open spec fn word_of(sign: bool, mag: u16) -> u16
    recommends
        mag < 0x8000,
{
    if sign {
        (mag + 0x8000) as u16
    } else {
        mag
    }
}

/// The word that encodes the native signed value `ii`.
pub open spec fn spec_new(ii: i16) -> Integer
    recommends
        ii != i16::MIN,
{
    Integer {
        w: word_of(ii < 0, (if ii < 0 { -(ii as int) } else { ii as int }) as u16),
    }
}

/// `a` flipped bit-for-bit in its sign bit, magnitude untouched; a zero
/// magnitude is not normalized, so flipping a positive zero yields the
/// "negative zero" word.
pub open spec fn spec_flip(a: Integer) -> Integer {
    Integer { w: word_of(!sign_set(a.w), mag_part(a.w)) }
}

/// Sign-magnitude addition. Operands of one sign add their magnitudes and
/// keep it; a magnitude sum above 15 bits fails with `ArithmeticOverflow`.
/// Operands of different signs subtract the smaller magnitude from the
/// larger and take the sign of the larger; equal magnitudes leave a
/// non-negative zero.
pub open spec fn spec_add(a: Integer, b: Integer) -> Result<Integer, VmError> {
    if sign_set(a.w) == sign_set(b.w) {
        if mag_part(a.w) + mag_part(b.w) > 0x7FFF {
            Err(VmError::ArithmeticOverflow)
        } else {
            Ok(Integer { w: word_of(sign_set(a.w), (mag_part(a.w) + mag_part(b.w)) as u16) })
        }
    } else {
        let p = if sign_set(a.w) { mag_part(b.w) } else { mag_part(a.w) };
        let n = if sign_set(a.w) { mag_part(a.w) } else { mag_part(b.w) };
        if p >= n {
            Ok(Integer { w: word_of(false, (p - n) as u16) })
        } else {
            Ok(Integer { w: word_of(true, (n - p) as u16) })
        }
    }
}

/// `a - b` is `a` plus `b` with its sign bit flipped.
pub open spec fn spec_sub(a: Integer, b: Integer) -> Result<Integer, VmError> {
    spec_add(a, spec_flip(b))
}

/// Bitwise OR over the full 16-bit patterns, sign bits included.
pub open spec fn spec_or(a: Integer, b: Integer) -> Integer {
    Integer { w: a.w | b.w }
}

/// Bitwise AND over the full 16-bit patterns, sign bits included.
pub open spec fn spec_and(a: Integer, b: Integer) -> Integer {
    Integer { w: a.w & b.w }
}

/// The magnitude divided by 2^n, the sign bit reapplied unchanged.
pub open spec fn spec_shr(a: Integer, n: u16) -> Integer {
    Integer { w: word_of(sign_set(a.w), (mag_part(a.w) as nat / pow2(n as nat)) as u16) }
}

/// The magnitude multiplied by 2^n and truncated to 15 bits, the sign bit
/// reapplied unchanged.
pub open spec fn spec_shl(a: Integer, n: u16) -> Integer {
    Integer { w: word_of(sign_set(a.w), ((mag_part(a.w) * pow2(n as nat)) % 0x8000) as u16) }
}

/// `(m | s) == m + s` for a 15-bit magnitude and a sign word.
proof fn lemma_or_sign(m: u16, s: u16)
    by (bit_vector)
    requires
        m <= 0x7FFF,
        s == 0 || s == 0x8000,
    ensures
        (m | s) == m + s,
{
}

/// Reading the fields back out of a packed sign-magnitude word.
pub proof fn lemma_word_of_fields(sign: bool, mag: u16)
    by (bit_vector)
    requires
        mag < 0x8000,
    ensures
        sign_set(word_of(sign, mag)) == sign,
        mag_part(word_of(sign, mag)) == mag,
{
}

impl Integer {
    /// The signed value this word denotes; both zero words denote 0.
    pub open spec fn val(self) -> int {
        if sign_set(self.w) {
            -(mag_part(self.w) as int)
        } else {
            mag_part(self.w) as int
        }
    }

    /// Encodes a native signed value; reading the result back yields the
    /// same value, and zero always encodes as the non-negative zero word.
    pub fn new(ii: i16) -> (r: Integer)
        requires
            ii != i16::MIN,
        ensures
            r == spec_new(ii),
            r.val() == ii as int,
            sign_set(r.w) == (ii < 0),
    {
        if ii >= 0 {
            proof {
                lemma_word_of_fields(false, ii as u16);
            }
            Integer { w: ii as u16 }
        } else {
            let mag: u16 = (-(ii as i32)) as u16;
            proof {
                assert(0 < -(ii as int) < 0x8000);
                assert(mag == -(ii as int));
                assert(1u16 << 15 == 0x8000) by (bit_vector);
                lemma_or_sign(mag, 0x8000);
                lemma_word_of_fields(true, mag);
            }
            Integer { w: mag | (1u16 << 15) }
        }
    }

    /// Reads the cell at `index` as a sign-magnitude integer.
    pub fn load(index: u16, mem: &Vec<u16>) -> (r: Integer)
        requires
            (index as int) < mem@.len(),
        ensures
            r.w == mem@[index as int],
    {
        Integer { w: mem[index as usize] }
    }

    /// True iff the sign bit is clear; a "negative zero" word is not
    /// positive by this test.
    pub fn is_positive(&self) -> (r: bool)
        ensures
            r == !sign_set(self.w),
    {
        let w = self.w;
        proof {
            assert((w & (1u16 << 15) == 0) == (w < 0x8000)) by (bit_vector);
        }
        w & (1u16 << 15) == 0
    }

    /// The 15-bit magnitude.
    pub fn abs(&self) -> (r: u16)
        ensures
            r == mag_part(self.w),
    {
        let w = self.w;
        let m = mask(15);
        proof {
            lemma_low_bits_mask_values();
            assert(w & 0x7FFF == w % 0x8000) by (bit_vector);
        }
        w & m
    }

    /// The sign bit in place: 0x8000 when set, 0 when clear.
    pub fn sign(&self) -> (r: u16)
        ensures
            r == (if sign_set(self.w) { 0x8000u16 } else { 0u16 }),
    {
        let w = self.w;
        proof {
            assert(w >= 0x8000 ==> w & (1u16 << 15) == 0x8000) by (bit_vector);
            assert(w < 0x8000 ==> w & (1u16 << 15) == 0) by (bit_vector);
        }
        w & (1u16 << 15)
    }

    /// True only when the sign bit is set and the magnitude is not zero:
    /// a signed zero is never negative for comparison purposes.
    pub fn less_than_zero(&self) -> (r: bool)
        ensures
            r == (self.val() < 0),
    {
        !self.is_positive() && self.abs() != 0
    }

    /// Sign-magnitude addition; see `spec_add` for the full case split.
    pub fn add(self, other: Integer) -> (r: Result<Integer, VmError>)
        ensures
            r == spec_add(self, other),
    {
        if self.is_positive() == other.is_positive() {
            let sum: u32 = self.abs() as u32 + other.abs() as u32;
            if sum > 0x7FFF {
                Err(VmError::ArithmeticOverflow)
            } else {
                let s = self.sign();
                proof {
                    assert(sum as u16 == sum);
                    lemma_or_sign(sum as u16, s);
                    lemma_word_of_fields(sign_set(self.w), sum as u16);
                }
                Ok(Integer { w: (sum as u16) | s })
            }
        } else {
            let pos = if self.is_positive() { self.abs() } else { other.abs() };
            let neg = if self.is_positive() { other.abs() } else { self.abs() };
            if pos >= neg {
                Ok(Integer { w: pos - neg })
            } else {
                let d = neg - pos;
                proof {
                    assert(1u16 << 15 == 0x8000) by (bit_vector);
                    lemma_or_sign(d, 0x8000);
                    lemma_word_of_fields(true, d);
                }
                Ok(Integer { w: d | (1u16 << 15) })
            }
        }
    }

    /// `self - other`, as `self` plus `other` with its sign bit flipped.
    pub fn sub(self, other: Integer) -> (r: Result<Integer, VmError>)
        ensures
            r == spec_sub(self, other),
    {
        let b = other.w;
        proof {
            assert((b ^ (1u16 << 15)) == (if b >= 0x8000 {
                (b - 0x8000) as u16
            } else {
                (b + 0x8000) as u16
            })) by (bit_vector);
        }
        self.add(Integer { w: b ^ (1u16 << 15) })
    }

    /// Bitwise OR of the full 16-bit patterns.
    pub fn bitor(self, other: Integer) -> (r: Integer)
        ensures
            r == spec_or(self, other),
    {
        Integer { w: self.w | other.w }
    }

    /// Bitwise AND of the full 16-bit patterns.
    pub fn bitand(self, other: Integer) -> (r: Integer)
        ensures
            r == spec_and(self, other),
    {
        Integer { w: self.w & other.w }
    }

    /// Shifts the magnitude right by `n`, reapplying the sign bit; any
    /// count of 15 or more clears the magnitude.
    pub fn shr(self, n: u16) -> (r: Integer)
        ensures
            r == spec_shr(self, n),
    {
        let mag = self.abs();
        let s = self.sign();
        let m: u16 = if n >= 15 {
            proof {
                lemma2_to64();
                if n > 15 {
                    lemma_pow2_strictly_increases(15, n as nat);
                }
                lemma_basic_div(mag as int, pow2(n as nat) as int);
            }
            0
        } else {
            proof {
                lemma_u16_shr_is_div(mag, n);
                assert(mag >> n <= mag) by (bit_vector);
            }
            mag >> n
        };
        proof {
            lemma_or_sign(m, s);
        }
        Integer { w: m | s }
    }

    /// Shifts the magnitude left by `n` and truncates it to 15 bits,
    /// reapplying the sign bit; any count of 15 or more clears the
    /// magnitude.
    pub fn shl(self, n: u16) -> (r: Integer)
        ensures
            r == spec_shl(self, n),
    {
        let mag = self.abs();
        let s = self.sign();
        let m: u16 = if n >= 15 {
            proof {
                lemma_pow2_adds((n - 15) as nat, 15);
                lemma2_to64();
                lemma_mul_is_associative(mag as int, pow2((n - 15) as nat) as int, pow2(15) as int);
                lemma_mod_multiples_basic(mag as int * pow2((n - 15) as nat) as int, 0x8000);
            }
            0
        } else {
            let wide: u32 = (mag as u32) << n;
            proof {
                lemma2_to64();
                if n > 0 {
                    lemma_pow2_strictly_increases(n as nat, 15);
                }
                lemma_mul_inequality(pow2(n as nat) as int, 0x8000, mag as int);
                assert(mag as int * pow2(n as nat) <= 0x7FFF * 0x8000) by {
                    lemma_mul_inequality(mag as int, 0x7FFF, pow2(n as nat) as int);
                }
                lemma_u32_shl_is_mul(mag as u32, n as u32);
                assert(wide & 0x7FFF == wide % 0x8000) by (bit_vector);
            }
            (wide & 0x7FFF) as u16
        };
        proof {
            lemma_or_sign(m, s);
        }
        Integer { w: m | s }
    }
}

/// Whenever sign-magnitude addition succeeds, its result denotes the sum
/// of the operands' signed values; it fails, with `ArithmeticOverflow`,
/// exactly when the operands share a sign and their magnitudes sum above
/// 15 bits.
pub proof fn lemma_add_value(a: Integer, b: Integer)
    ensures
        spec_add(a, b) is Err <==> (sign_set(a.w) == sign_set(b.w) && mag_part(a.w) + mag_part(
            b.w,
        ) > 0x7FFF),
        spec_add(a, b) is Err ==> spec_add(a, b) == Err::<Integer, VmError>(
            VmError::ArithmeticOverflow,
        ),
        spec_add(a, b) matches Ok(r) ==> r.val() == a.val() + b.val(),
{
}

/// Subtracting any representable value from itself succeeds and yields
/// the non-negative zero word.
pub proof fn lemma_sub_self_zero(a: Integer)
    ensures
        spec_sub(a, a) == Ok::<Integer, VmError>(Integer { w: 0 }),
{
}

} // verus!
