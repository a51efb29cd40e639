//! A signed fixed-point decimal number.
//!
//! A [`Fixed`] stores a decimal value as a scaled `i64`: the mathematical
//! value is `inner / DIV`, giving three fractional digits. Every arithmetic
//! operation is checked: an operation whose true mathematical result is not
//! representable in the underlying integer range, or a division by zero,
//! returns `None` rather than wrapping, truncating the sign, or panicking.
//!
//! Multiplication and division compute their results exactly over a wide
//! (128-bit) intermediate and then truncate toward zero to the fixed scale,
//! the same rounding that hardware integer division performs.
//!
//! The scale keeps three fractional digits. A coarser scale than usual is
//! a deliberate trade: the inverse of the bonding curve squares the
//! curve's slope divisor, and the headroom left above the scale keeps
//! that squared term representable for realistic configurations.

use vstd::prelude::*;

verus! {

/// Scale factor of the fixed-point representation: three decimal digits.
pub const DIV: i64 = 1_000;

/// Absolute value of a mathematical integer.
pub open spec fn abs_val(x: int) -> int {
    if x < 0 {
        -x
    } else {
        x
    }
}

/// Division truncated toward zero, the rounding of Rust's `/` on signed
/// integers: the quotient of the absolute values, negated when the signs
/// of the operands differ.
pub open spec fn tdiv(x: int, d: int) -> int
    recommends
        d != 0,
{
    if (x < 0) == (d < 0) {
        abs_val(x) / abs_val(d)
    } else {
        -(abs_val(x) / abs_val(d))
    }
}

/// Whether a mathematical integer is representable as a scaled `i64`.
pub open spec fn in_fixed_range(v: int) -> bool {
    i64::MIN <= v && v <= i64::MAX
}

/// A decimal value stored as a scaled integer with three fractional digits.
#[derive(Clone, Copy, PartialEq, Eq, Structural, Debug)]
pub struct Fixed {
    /// The scaled representation; the value denoted is `inner / DIV`.
    pub inner: i64,
}

/// Division truncated toward zero on machine integers, computed through
/// the unsigned quotient of the absolute values.
fn tdiv_i128(w: i128, d: i128) -> (q: i128)
    requires
        d != 0,
        w > i128::MIN,
        d > i128::MIN,
    ensures
        q == tdiv(w as int, d as int),
        abs_val(q as int) <= abs_val(w as int),
{
    let neg = (w < 0) != (d < 0);
    let wa: u128 = if w < 0 {
        (-w) as u128
    } else {
        w as u128
    };
    let da: u128 = if d < 0 {
        (-d) as u128
    } else {
        d as u128
    };
    assert(wa == abs_val(w as int));
    assert(da == abs_val(d as int));
    let qa: u128 = wa / da;
    assert(qa <= wa) by {
        vstd::arithmetic::div_mod::lemma_fundamental_div_mod(wa as int, da as int);
        assert(qa * da >= qa * 1) by (nonlinear_arith)
            requires
                qa >= 0,
                da >= 1,
        ;
    }
    if neg {
        -(qa as i128)
    } else {
        qa as i128
    }
}

impl Fixed {
    /// The zero value.
    pub fn zero() -> (r: Fixed)
        ensures
            r.inner == 0,
    {
        Fixed { inner: 0 }
    }

    /// The largest representable value.
    pub fn max_value() -> (r: Fixed)
        ensures
            r.inner == i64::MAX,
    {
        Fixed { inner: i64::MAX }
    }

    /// Exact conversion of an integer into the fixed scale.
    pub fn from_integer(i: i64) -> (r: Fixed)
        requires
            in_fixed_range(i * DIV),
        ensures
            r.inner == i * DIV,
    {
        Fixed { inner: i * DIV }
    }

    /// Conversion of a ratio of two integers into the fixed scale,
    /// truncated toward zero at the third fractional digit.
    pub fn from_ratio(n: i64, d: i64) -> (r: Fixed)
        requires
            d != 0,
            in_fixed_range(tdiv(n * DIV, d as int)),
        ensures
            r.inner == tdiv(n * DIV, d as int),
    {
        assert((n as i128) * (DIV as i128) <= i128::MAX && (n as i128) * (DIV as i128)
            > i128::MIN) by (nonlinear_arith)
            requires
                i64::MIN <= n <= i64::MAX,
        ;
        let w = (n as i128) * (DIV as i128);
        let q = tdiv_i128(w, d as i128);
        Fixed { inner: q as i64 }
    }

    /// Exact conversion of a whole percentage into the fixed scale.
    pub fn from_percentage(p: u8) -> (r: Fixed)
        ensures
            r.inner == p * (DIV / 100),
    {
        Fixed { inner: (p as i64) * 10 }
    }

    /// Overflow-checked addition.
    pub fn checked_add(self, rhs: Fixed) -> (r: Option<Fixed>)
        ensures
            match r {
                Some(f) => in_fixed_range(self.inner + rhs.inner) && f.inner == self.inner
                    + rhs.inner,
                None => !in_fixed_range(self.inner + rhs.inner),
            },
    {
        match self.inner.checked_add(rhs.inner) {
            Some(v) => Some(Fixed { inner: v }),
            None => None,
        }
    }

    /// Overflow-checked subtraction.
    pub fn checked_sub(self, rhs: Fixed) -> (r: Option<Fixed>)
        ensures
            match r {
                Some(f) => in_fixed_range(self.inner - rhs.inner) && f.inner == self.inner
                    - rhs.inner,
                None => !in_fixed_range(self.inner - rhs.inner),
            },
    {
        match self.inner.checked_sub(rhs.inner) {
            Some(v) => Some(Fixed { inner: v }),
            None => None,
        }
    }

    /// Overflow-checked multiplication: the exact product of the two
    /// values, truncated toward zero at the fixed scale.
    pub fn checked_mul(self, rhs: Fixed) -> (r: Option<Fixed>)
        ensures
            match r {
                Some(f) => in_fixed_range(tdiv(self.inner * rhs.inner, DIV as int)) && f.inner
                    == tdiv(self.inner * rhs.inner, DIV as int),
                None => !in_fixed_range(tdiv(self.inner * rhs.inner, DIV as int)),
            },
    {
        assert((self.inner as i128) * (rhs.inner as i128) < i128::MAX && (self.inner as i128) * (
        rhs.inner as i128) > i128::MIN) by (nonlinear_arith)
            requires
                i64::MIN <= self.inner <= i64::MAX,
                i64::MIN <= rhs.inner <= i64::MAX,
        ;
        let w = (self.inner as i128) * (rhs.inner as i128);
        let q = tdiv_i128(w, DIV as i128);
        if q >= i64::MIN as i128 && q <= i64::MAX as i128 {
            Some(Fixed { inner: q as i64 })
        } else {
            None
        }
    }

    /// Zero- and overflow-checked division: the exact quotient of the two
    /// values, truncated toward zero at the fixed scale.
    pub fn checked_div(self, rhs: Fixed) -> (r: Option<Fixed>)
        ensures
            match r {
                Some(f) => rhs.inner != 0 && in_fixed_range(
                    tdiv(self.inner * DIV, rhs.inner as int),
                ) && f.inner == tdiv(self.inner * DIV, rhs.inner as int),
                None => rhs.inner == 0 || !in_fixed_range(
                    tdiv(self.inner * DIV, rhs.inner as int),
                ),
            },
    {
        if rhs.inner == 0 {
            return None;
        }
        assert((self.inner as i128) * (DIV as i128) < i128::MAX && (self.inner as i128) * (
        DIV as i128) > i128::MIN) by (nonlinear_arith)
            requires
                i64::MIN <= self.inner <= i64::MAX,
        ;
        let w = (self.inner as i128) * (DIV as i128);
        let q = tdiv_i128(w, rhs.inner as i128);
        if q >= i64::MIN as i128 && q <= i64::MAX as i128 {
            Some(Fixed { inner: q as i64 })
        } else {
            None
        }
    }
}

} // verus!
