//! Wide unsigned integers for the fixed-point price formulas.
//!
//! The pricing formulas multiply three 128-bit quantities before dividing,
//! so their intermediate values need up to 192 bits. `U192` carries such an
//! intermediate value in three 64-bit words; `U256` carries the remainder
//! register of the division algorithm and the product of two 128-bit values.
//! Every operation is checked: multiplication reports overflow, division
//! reports a zero divisor, and narrowing back to `u128` or `u64` reports a
//! value that does not fit. Nothing wraps or truncates.

use vstd::arithmetic::div_mod::{
    lemma_basic_div, lemma_div_basics, lemma_div_denominator, lemma_div_multiples_vanish_fancy,
    lemma_div_nonincreasing, lemma_fundamental_div_mod, lemma_fundamental_div_mod_converse_div,
    lemma_fundamental_div_mod_converse_mod, lemma_hoist_over_denominator,
    lemma_mod_multiples_vanish, lemma_multiply_divide_lt, lemma_small_mod,
};
use vstd::arithmetic::mul::lemma_mul_upper_bound;
use vstd::arithmetic::power2::{
    lemma2_to64, lemma_pow2_adds, lemma_pow2_pos, lemma_pow2_strictly_increases, pow2,
};
use vstd::bits::lemma_u64_shl_is_mul;
use vstd::prelude::*;

use crate::errors::{ClearingHouseResult, Errors};

verus! {

/// Radix of one 64-bit word: 2^64.
pub const WORD_BASE: u128 = 0x1_0000_0000_0000_0000;

/// 2^64 as a mathematical integer.
#[verifier::inline]
pub open spec fn word_base() -> int {
    0x1_0000_0000_0000_0000
}

/// 2^128 as a mathematical integer.
#[verifier::inline]
pub open spec fn word_base_2() -> int {
    0x1_0000_0000_0000_0000_0000_0000_0000_0000int
}

/// 2^192 as a mathematical integer, one past the largest `U192` value.
#[verifier::inline]
pub open spec fn word_base_3() -> int {
    0x1_0000_0000_0000_0000_0000_0000_0000_0000_0000_0000_0000_0000int
}

/// 2^256 as a mathematical integer, one past the largest `U256` value.
#[verifier::inline]
pub open spec fn word_base_4() -> int {
    0x1_0000_0000_0000_0000_0000_0000_0000_0000_0000_0000_0000_0000_0000_0000_0000_0000int
}

/// The word radix and its powers are the matching powers of two.
proof fn lemma_word_base_pow2()
    ensures
        word_base() == pow2(64),
        word_base_2() == pow2(128),
        word_base_3() == pow2(192),
        word_base_4() == pow2(256),
{
    lemma2_to64();
    lemma_pow2_adds(64, 64);
    lemma_pow2_adds(128, 64);
    lemma_pow2_adds(192, 64);
}

/// An unsigned 192-bit integer as three 64-bit words, least significant
/// first.
#[derive(Clone, Copy, Debug, PartialEq, Eq, Structural)]
pub struct U192 {
    /// Least significant word.
    pub w0: u64,
    /// Middle word.
    pub w1: u64,
    /// Most significant word.
    pub w2: u64,
}

/// An unsigned 256-bit integer as four 64-bit words, least significant
/// first.
#[derive(Clone, Copy, Debug, PartialEq, Eq, Structural)]
pub struct U256 {
    /// Least significant word.
    pub w0: u64,
    /// Second word.
    pub w1: u64,
    /// Third word.
    pub w2: u64,
    /// Most significant word.
    pub w3: u64,
}

/// Splits a 128-bit value into its low and high 64-bit words.
fn split_u128(v: u128) -> (r: (u64, u64))
    ensures
        r.0 + r.1 * word_base() == v,
{
    proof {
        lemma_fundamental_div_mod(v as int, word_base());
        assert(v / (WORD_BASE as u128) < WORD_BASE) by {
            lemma_multiply_divide_lt(v as int, word_base(), word_base());
        }
    }
    ((v % WORD_BASE) as u64, (v / WORD_BASE) as u64)
}

/// Multiply-accumulate on words: returns `(lo, hi)` with
/// `lo + 2^64 * hi == a * b + acc + carry`. This never overflows because
/// `(2^64-1)^2 + 2*(2^64-1) == 2^128 - 1`.
fn mac(a: u64, b: u64, acc: u64, carry: u64) -> (r: (u64, u64))
    ensures
        r.0 + r.1 * word_base() == a * b + acc + carry,
{
    proof {
        lemma_mul_upper_bound(a as int, 0xffff_ffff_ffff_ffff, b as int, 0xffff_ffff_ffff_ffff);
    }
    let t: u128 = (a as u128) * (b as u128) + (acc as u128) + (carry as u128);
    split_u128(t)
}

/// Add with carry on words: returns `(sum, carry_out)` with
/// `sum + 2^64 * carry_out == a + b + carry` and `carry_out <= 1`.
fn adc(a: u64, b: u64, carry: u64) -> (r: (u64, u64))
    requires
        carry <= 1,
    ensures
        r.0 + r.1 * word_base() == a + b + carry,
        r.1 <= 1,
{
    let t: u128 = (a as u128) + (b as u128) + (carry as u128);
    split_u128(t)
}

/// Subtract with borrow on words: returns `(diff, borrow_out)` with
/// `diff == a - b - borrow + 2^64 * borrow_out` and `borrow_out <= 1`.
fn sbb(a: u64, b: u64, borrow: u64) -> (r: (u64, u64))
    requires
        borrow <= 1,
    ensures
        r.0 == a - b - borrow + r.1 * word_base(),
        r.1 <= 1,
{
    if (a as u128) >= (b as u128) + (borrow as u128) {
        (((a as u128) - (b as u128) - (borrow as u128)) as u64, 0)
    } else {
        (((WORD_BASE + a as u128) - (b as u128) - (borrow as u128)) as u64, 1)
    }
}
/// Doubles a 256-bit remainder register and adds one bit.
fn shl1_add_u256(r: U256, bit: u64) -> (s: U256)
    requires
        bit <= 1,
        2 * r.as_int() + bit < word_base_4(),
    ensures
        s.as_int() == 2 * r.as_int() + bit,
{
    let (s0, c0) = adc(r.w0, r.w0, bit);
    let (s1, c1) = adc(r.w1, r.w1, c0);
    let (s2, c2) = adc(r.w2, r.w2, c1);
    let (s3, c3) = adc(r.w3, r.w3, c2);
    proof {
        assert(c3 == 0);
    }
    U256 { w0: s0, w1: s1, w2: s2, w3: s3 }
}

/// Doubles a 192-bit quotient register and adds one bit.
fn shl1_add_u192(r: U192, bit: u64) -> (s: U192)
    requires
        bit <= 1,
        2 * r.as_int() + bit < word_base_3(),
    ensures
        s.as_int() == 2 * r.as_int() + bit,
{
    let (s0, c0) = adc(r.w0, r.w0, bit);
    let (s1, c1) = adc(r.w1, r.w1, c0);
    let (s2, c2) = adc(r.w2, r.w2, c1);
    proof {
        assert(c2 == 0);
    }
    U192 { w0: s0, w1: s1, w2: s2 }
}

/// Compares a 256-bit register against a 192-bit value.
fn ge_u256_u192(r: &U256, d: &U192) -> (ge: bool)
    ensures
        ge == (r.as_int() >= d.as_int()),
{
    if r.w3 > 0 {
        true
    } else if r.w2 != d.w2 {
        r.w2 > d.w2
    } else if r.w1 != d.w1 {
        r.w1 > d.w1
    } else {
        r.w0 >= d.w0
    }
}

/// Subtracts a 192-bit value from a 256-bit register that is at least as
/// large.
fn sub_u256_u192(r: U256, d: &U192) -> (s: U256)
    requires
        r.as_int() >= d.as_int(),
    ensures
        s.as_int() == r.as_int() - d.as_int(),
{
    let (s0, b0) = sbb(r.w0, d.w0, 0);
    let (s1, b1) = sbb(r.w1, d.w1, b0);
    let (s2, b2) = sbb(r.w2, d.w2, b1);
    let (s3, b3) = sbb(r.w3, 0, b2);
    proof {
        assert(b3 == 0);
    }
    U256 { w0: s0, w1: s1, w2: s2, w3: s3 }
}

/// The power of two `2^sh` as a word, for `sh < 64`.
fn pow2_u64(sh: usize) -> (r: u64)
    requires
        sh < 64,
    ensures
        r == pow2(sh as nat),
{
    proof {
        lemma2_to64();
        lemma_pow2_strictly_increases(sh as nat, 64);
        lemma_u64_shl_is_mul(1u64, sh as u64);
    }
    1u64 << (sh as u64)
}

/// Bit `t64 + sh` of `n` equals bit `sh` of the word `w` when `n`
/// decomposes as `low + 2^t64 * (w + 2^64 * hi)` with `low < 2^t64`.
proof fn lemma_bit_extract(n: int, w: u64, hi: int, low: int, t64: nat, sh: nat)
    requires
        sh < 64,
        0 <= low < pow2(t64),
        0 <= hi,
        n == low + pow2(t64) * (w + 0x1_0000_0000_0000_0000 * hi),
    ensures
        (n / pow2((t64 + sh) as nat) as int) % 2 == ((w as int) / pow2(sh) as int) % 2,
{
    let p = pow2(t64) as int;
    let ps = pow2(sh) as int;
    let x: int = w + 0x1_0000_0000_0000_0000 * hi;
    lemma_pow2_pos(t64);
    lemma_pow2_pos(sh);
    assert(n / p == x) by {
        lemma_div_multiples_vanish_fancy(x, low, p);
        assert(p * x + low == n) by (nonlinear_arith)
            requires
                n == low + p * x;
    }
    assert(n / pow2((t64 + sh) as nat) as int == x / ps) by {
        lemma_div_denominator(n, p, ps);
        lemma_pow2_adds(t64, sh);
    }
    let m = pow2((64 - sh) as nat) as int;
    assert(ps * m == 0x1_0000_0000_0000_0000) by {
        lemma_pow2_adds(sh, (64 - sh) as nat);
        lemma2_to64();
    }
    assert(x == w + (m * hi) * ps) by (nonlinear_arith)
        requires
            ps * m == 0x1_0000_0000_0000_0000int,
            x == w + 0x1_0000_0000_0000_0000 * hi;
    assert(x / ps == (w as int) / ps + m * hi) by {
        lemma_hoist_over_denominator(w as int, m * hi, ps as nat);
    }
    let m2 = pow2((63 - sh) as nat) as int;
    assert(m == 2 * m2) by {
        lemma_pow2_adds(1, (63 - sh) as nat);
        lemma2_to64();
    }
    assert(m * hi == 2 * (m2 * hi)) by (nonlinear_arith)
        requires
            m == 2 * m2;
    assert((2 * (m2 * hi) + (w as int) / ps) % 2 == ((w as int) / ps) % 2) by {
        lemma_mod_multiples_vanish(m2 * hi, (w as int) / ps, 2);
    }
}

/// One schoolbook row: a single word times a `U192`, as four words.
fn mul_word(a: u64, b: &U192) -> (r: (u64, u64, u64, u64))
    ensures
        r.0 + r.1 * word_base() + r.2 * word_base_2() + r.3 * word_base_3() == a * b.as_int(),
{
    let (p0, c1) = mac(a, b.w0, 0, 0);
    let (p1, c2) = mac(a, b.w1, 0, c1);
    let (p2, c3) = mac(a, b.w2, 0, c2);
    proof {
        assert(a * b.as_int() == a * b.w0 + (a * b.w1) * word_base() + (a * b.w2) * word_base_2())
            by (nonlinear_arith)
            requires
                b.as_int() == b.w0 + b.w1 * word_base() + b.w2 * word_base_2();
    }
    (p0, p1, p2, c3)
}

impl U192 {
    /// The mathematical value of this wide integer.
    pub open spec fn as_int(self) -> int {
        self.w0 + self.w1 * word_base() + self.w2 * word_base_2()
    }

    /// Every `U192` value lies below 2^192.
    pub proof fn lemma_value_bounds(self)
        ensures
            0 <= self.as_int() < word_base_3(),
    {
    }

    /// The zero value.
    pub fn zero() -> (r: U192)
        ensures
            r.as_int() == 0,
    {
        U192 { w0: 0, w1: 0, w2: 0 }
    }

    /// Widens a 64-bit value.
    pub fn from_u64(v: u64) -> (r: U192)
        ensures
            r.as_int() == v,
    {
        U192 { w0: v, w1: 0, w2: 0 }
    }

    /// Widens a 128-bit value.
    pub fn from_u128(v: u128) -> (r: U192)
        ensures
            r.as_int() == v,
    {
        let (lo, hi) = split_u128(v);
        U192 { w0: lo, w1: hi, w2: 0 }
    }

    /// Checked multiplication: the exact product, or `None` when it does
    /// not fit in 192 bits.
    pub fn checked_mul(self, rhs: U192) -> (r: Option<U192>)
        ensures
            match r {
                Some(p) => p.as_int() == self.as_int() * rhs.as_int(),
                None => self.as_int() * rhs.as_int() >= word_base_3(),
            },
    {
        let (m00, m01, m02, m03) = mul_word(self.w0, &rhs);
        let (m10, m11, m12, m13) = mul_word(self.w1, &rhs);
        let (m20, m21, m22, m23) = mul_word(self.w2, &rhs);

        // Row 0 fills the low four words of the accumulator.
        let k0 = m00;
        // Row 1 is added at an offset of one word.
        let (k1, c1a) = adc(m01, m10, 0);
        let (k2, c1b) = adc(m02, m11, c1a);
        let (k3, c1c) = adc(m03, m12, c1b);
        let (k4, c1d) = adc(0, m13, c1c);
        let k5 = c1d;
        // Row 2 is added at an offset of two words.
        let (k2, c2a) = adc(k2, m20, 0);
        let (k3, c2b) = adc(k3, m21, c2a);
        let (k4, c2c) = adc(k4, m22, c2b);
        let (k5, c2d) = adc(k5, m23, c2c);

        proof {
            // The full product fits in six words, so the last carry is clear.
            assert(self.as_int() * rhs.as_int() == self.w0 * rhs.as_int() + (self.w1
                * rhs.as_int()) * word_base() + (self.w2 * rhs.as_int()) * word_base_2())
                by (nonlinear_arith)
                requires
                    self.as_int() == self.w0 + self.w1 * word_base() + self.w2 * word_base_2();
            assert(self.as_int() * rhs.as_int() <= (word_base_3() - 1) * (word_base_3() - 1)) by {
                rhs.lemma_value_bounds();
                self.lemma_value_bounds();
                lemma_mul_upper_bound(
                    self.as_int(),
                    word_base_3() - 1,
                    rhs.as_int(),
                    word_base_3() - 1,
                );
            }
            assert(k0 + k1 * word_base() + k2 * word_base_2() + k3 * word_base_3() + k4
                * word_base_4() + k5 * word_base_4() * word_base() + c2d * word_base_4()
                * word_base_2() == self.as_int() * rhs.as_int());
            assert(c2d == 0);
        }

        if k3 == 0 && k4 == 0 && k5 == 0 {
            Some(U192 { w0: k0, w1: k1, w2: k2 })
        } else {
            None
        }
    }


    /// Bit `j` of the value, counting from the least significant bit.
    fn bit_at(&self, j: usize) -> (bit: u64)
        requires
            j < 192,
        ensures
            bit <= 1,
            bit == (self.as_int() / pow2(j as nat) as int) % 2,
    {
        let (w, sh): (u64, usize) = if j < 64 {
            (self.w0, j)
        } else if j < 128 {
            (self.w1, j - 64)
        } else {
            (self.w2, j - 128)
        };
        let p = pow2_u64(sh);
        proof {
            lemma_pow2_pos(sh as nat);
            lemma2_to64();
            lemma_word_base_pow2();
            if j < 64 {
                lemma_bit_extract(
                    self.as_int(),
                    self.w0,
                    self.w1 + self.w2 * word_base(),
                    0,
                    0,
                    j as nat,
                );
            } else if j < 128 {
                lemma_bit_extract(
                    self.as_int(),
                    self.w1,
                    self.w2 as int,
                    self.w0 as int,
                    64,
                    (j - 64) as nat,
                );
            } else {
                lemma_bit_extract(
                    self.as_int(),
                    self.w2,
                    0,
                    self.w0 + self.w1 * word_base(),
                    128,
                    (j - 128) as nat,
                );
            }
        }
        (w / p) % 2
    }

    /// Checked division: the exact quotient, or `None` for a zero divisor.
    pub fn checked_div(self, rhs: U192) -> (r: Option<U192>)
        ensures
            match r {
                Some(q) => rhs.as_int() != 0 && q.as_int() == self.as_int() / rhs.as_int(),
                None => rhs.as_int() == 0,
            },
    {
        if rhs.w0 == 0 && rhs.w1 == 0 && rhs.w2 == 0 {
            return None;
        }
        let mut quo = U192 { w0: 0, w1: 0, w2: 0 };
        let mut rem = U256 { w0: 0, w1: 0, w2: 0, w3: 0 };
        let mut i: usize = 0;
        proof {
            lemma_word_base_pow2();
            self.lemma_value_bounds();
            lemma_basic_div(self.as_int(), pow2(192) as int);
            lemma_div_basics(rhs.as_int());
            lemma_small_mod(0, rhs.as_int() as nat);
        }
        while i < 192
            invariant
                i <= 192,
                0 < rhs.as_int() < word_base_3(),
                quo.as_int() == self.as_int() / pow2((192 - i) as nat) as int / rhs.as_int(),
                rem.as_int() == self.as_int() / pow2((192 - i) as nat) as int % rhs.as_int(),
                rem.as_int() < rhs.as_int(),
            decreases 192 - i,
        {
            let ghost n = self.as_int();
            let ghost d = rhs.as_int();
            let ghost pref = n / pow2((192 - i) as nat) as int;
            let ghost prefn = n / pow2((191 - i) as nat) as int;
            let bit = self.bit_at(191 - i);
            proof {
                lemma_pow2_pos((191 - i) as nat);
                lemma_pow2_adds((191 - i) as nat, 1);
                lemma2_to64();
                lemma_div_denominator(n, pow2((191 - i) as nat) as int, 2);
                assert(prefn / 2 == pref);
                lemma_fundamental_div_mod(prefn, 2);
                assert(prefn == 2 * pref + bit);
                self.lemma_value_bounds();
                lemma_div_nonincreasing(n, pow2((191 - i) as nat) as int);
                assert(prefn < word_base_3());
            }
            let rem2 = shl1_add_u256(rem, bit);
            let (rem3, s) = if ge_u256_u192(&rem2, &rhs) {
                (sub_u256_u192(rem2, &rhs), 1u64)
            } else {
                (rem2, 0u64)
            };
            proof {
                lemma_fundamental_div_mod(pref, d);
                if s == 1 {
                    assert(prefn == (2 * quo.as_int() + 1) * d + rem3.as_int()) by (nonlinear_arith)
                        requires
                            prefn == 2 * pref + bit,
                            pref == d * quo.as_int() + rem.as_int(),
                            rem3.as_int() == 2 * rem.as_int() + bit - d;
                } else {
                    assert(prefn == (2 * quo.as_int() + 0) * d + rem3.as_int()) by (nonlinear_arith)
                        requires
                            prefn == 2 * pref + bit,
                            pref == d * quo.as_int() + rem.as_int(),
                            rem3.as_int() == 2 * rem.as_int() + bit;
                }
                assert(0 <= rem3.as_int() < d);
                lemma_fundamental_div_mod_converse_div(prefn, d, 2 * quo.as_int() + s, rem3.as_int());
                lemma_fundamental_div_mod_converse_mod(prefn, d, 2 * quo.as_int() + s, rem3.as_int());
                assert(2 * quo.as_int() + s <= (2 * quo.as_int() + s) * d) by (nonlinear_arith)
                    requires
                        d >= 1,
                        0 <= 2 * quo.as_int() + s;
                assert(2 * quo.as_int() + s < word_base_3());
            }
            quo = shl1_add_u192(quo, s);
            rem = rem3;
            i = i + 1;
        }
        proof {
            lemma2_to64();
            lemma_div_basics(self.as_int());
        }
        Some(quo)
    }

    /// Narrows to `u64`, or fails with `BnConversionError`.
    pub fn try_to_u64(self) -> (r: ClearingHouseResult<u64>)
        ensures
            self.as_int() <= u64::MAX ==> r == Ok::<u64, Errors>(self.w0),
            self.as_int() > u64::MAX ==> r == Err::<u64, Errors>(Errors::BnConversionError),
            r matches Ok(v) ==> v == self.as_int(),
    {
        if self.w1 == 0 && self.w2 == 0 {
            Ok(self.w0)
        } else {
            Err(Errors::BnConversionError)
        }
    }

    /// Narrows to `u64`, or `None` when the value does not fit.
    pub fn to_u64(self) -> (r: Option<u64>)
        ensures
            self.as_int() <= u64::MAX ==> r == Some(self.w0),
            self.as_int() > u64::MAX ==> r is None,
            r matches Some(v) ==> v == self.as_int(),
    {
        match self.try_to_u64() {
            Ok(v) => Some(v),
            Err(_) => None,
        }
    }

    /// Narrows to `u128`, or fails with `BnConversionError`.
    pub fn try_to_u128(self) -> (r: ClearingHouseResult<u128>)
        ensures
            self.as_int() <= u128::MAX ==> (r matches Ok(v) && v == self.as_int()),
            self.as_int() > u128::MAX ==> r == Err::<u128, Errors>(Errors::BnConversionError),
    {
        if self.w2 == 0 {
            Ok((self.w0 as u128) + (self.w1 as u128) * WORD_BASE)
        } else {
            Err(Errors::BnConversionError)
        }
    }

    /// Narrows to `u128`, or `None` when the value does not fit.
    pub fn to_u128(self) -> (r: Option<u128>)
        ensures
            self.as_int() <= u128::MAX ==> (r matches Some(v) && v == self.as_int()),
            self.as_int() > u128::MAX ==> r is None,
    {
        match self.try_to_u128() {
            Ok(v) => Some(v),
            Err(_) => None,
        }
    }
}

impl U256 {
    /// The mathematical value of this wide integer.
    pub open spec fn as_int(self) -> int {
        self.w0 + self.w1 * word_base() + self.w2 * word_base_2() + self.w3 * word_base_3()
    }

    /// The zero value.
    pub fn zero() -> (r: U256)
        ensures
            r.as_int() == 0,
    {
        U256 { w0: 0, w1: 0, w2: 0, w3: 0 }
    }

    /// Widens a 128-bit value.
    pub fn from_u128(v: u128) -> (r: U256)
        ensures
            r.as_int() == v,
    {
        let (lo, hi) = split_u128(v);
        U256 { w0: lo, w1: hi, w2: 0, w3: 0 }
    }

    /// The exact 256-bit product of two 128-bit values; this never fails.
    pub fn from_mul_u128(a: u128, b: u128) -> (r: U256)
        ensures
            r.as_int() == a * b,
    {
        let (a0, a1) = split_u128(a);
        let (b0, b1) = split_u128(b);
        let (p00l, p00h) = mac(a0, b0, 0, 0);
        let (p01l, p01h) = mac(a0, b1, p00h, 0);
        let (p10l, p10h) = mac(a1, b0, p01l, 0);
        let (p11l, p11h) = mac(a1, b1, p01h, p10h);
        proof {
            assert(a * b == a0 * b0 + (a0 * b1) * word_base() + (a1 * b0) * word_base() + (a1 * b1)
                * word_base_2()) by (nonlinear_arith)
                requires
                    a == a0 + a1 * word_base(),
                    b == b0 + b1 * word_base();
        }
        U256 { w0: p00l, w1: p10l, w2: p11l, w3: p11h }
    }

    /// Whether this value is at most the other.
    pub fn le(&self, other: &U256) -> (r: bool)
        ensures
            r == (self.as_int() <= other.as_int()),
    {
        if self.w3 != other.w3 {
            self.w3 < other.w3
        } else if self.w2 != other.w2 {
            self.w2 < other.w2
        } else if self.w1 != other.w1 {
            self.w1 < other.w1
        } else {
            self.w0 <= other.w0
        }
    }

    /// Narrows to `u64`, or fails with `BnConversionError`.
    pub fn try_to_u64(self) -> (r: ClearingHouseResult<u64>)
        ensures
            self.as_int() <= u64::MAX ==> r == Ok::<u64, Errors>(self.w0),
            self.as_int() > u64::MAX ==> r == Err::<u64, Errors>(Errors::BnConversionError),
            r matches Ok(v) ==> v == self.as_int(),
    {
        if self.w1 == 0 && self.w2 == 0 && self.w3 == 0 {
            Ok(self.w0)
        } else {
            Err(Errors::BnConversionError)
        }
    }

    /// Narrows to `u64`, or `None` when the value does not fit.
    pub fn to_u64(self) -> (r: Option<u64>)
        ensures
            self.as_int() <= u64::MAX ==> r == Some(self.w0),
            self.as_int() > u64::MAX ==> r is None,
            r matches Some(v) ==> v == self.as_int(),
    {
        match self.try_to_u64() {
            Ok(v) => Some(v),
            Err(_) => None,
        }
    }

    /// Narrows to `u128`, or fails with `BnConversionError`.
    pub fn try_to_u128(self) -> (r: ClearingHouseResult<u128>)
        ensures
            self.as_int() <= u128::MAX ==> (r matches Ok(v) && v == self.as_int()),
            self.as_int() > u128::MAX ==> r == Err::<u128, Errors>(Errors::BnConversionError),
    {
        if self.w2 == 0 && self.w3 == 0 {
            Ok((self.w0 as u128) + (self.w1 as u128) * WORD_BASE)
        } else {
            Err(Errors::BnConversionError)
        }
    }

    /// Narrows to `u128`, or `None` when the value does not fit.
    pub fn to_u128(self) -> (r: Option<u128>)
        ensures
            self.as_int() <= u128::MAX ==> (r matches Some(v) && v == self.as_int()),
            self.as_int() > u128::MAX ==> r is None,
    {
        match self.try_to_u128() {
            Ok(v) => Some(v),
            Err(_) => None,
        }
    }
}

} // verus!
