//! A possibly-failed wrapper around [`Fixed`] for safe chained math.
//!
//! A [`FixedWrapper`] is logically a value or a failure mark. Every
//! operation on a failed operand, and every checked operation on the
//! underlying type that cannot represent its true result, yields the
//! failure mark again, so a whole formula can be written as one chain and
//! inspected once at the end with [`FixedWrapper::get`].
//!
//! Equality and ordering require both sides to hold a value: two failed
//! wrappers are deliberately not equal to each other.

use vstd::prelude::*;

use crate::fixed::{in_fixed_range, tdiv, Fixed, DIV};

verus! {

/// Failure-propagating addition on the models of two wrappers.
pub open spec fn chk_add(a: Option<int>, b: Option<int>) -> Option<int> {
    match (a, b) {
        (Some(x), Some(y)) => if in_fixed_range(x + y) {
            Some(x + y)
        } else {
            None
        },
        _ => None,
    }
}

/// Failure-propagating subtraction on the models of two wrappers.
pub open spec fn chk_sub(a: Option<int>, b: Option<int>) -> Option<int> {
    match (a, b) {
        (Some(x), Some(y)) => if in_fixed_range(x - y) {
            Some(x - y)
        } else {
            None
        },
        _ => None,
    }
}

/// Failure-propagating multiplication on the models of two wrappers:
/// the exact product, truncated toward zero at the fixed scale.
pub open spec fn chk_mul(a: Option<int>, b: Option<int>) -> Option<int> {
    match (a, b) {
        (Some(x), Some(y)) => if in_fixed_range(tdiv(x * y, DIV as int)) {
            Some(tdiv(x * y, DIV as int))
        } else {
            None
        },
        _ => None,
    }
}

/// Failure-propagating division on the models of two wrappers: fails on a
/// zero divisor, otherwise the exact quotient truncated toward zero at
/// the fixed scale.
pub open spec fn chk_div(a: Option<int>, b: Option<int>) -> Option<int> {
    match (a, b) {
        (Some(x), Some(y)) => if y != 0 && in_fixed_range(tdiv(x * (DIV as int), y)) {
            Some(tdiv(x * (DIV as int), y))
        } else {
            None
        },
        _ => None,
    }
}

/// Whether `r` is the integer square root of `n`, rounded down.
pub open spec fn is_sqrt_floor(n: int, r: int) -> bool {
    0 <= r && r * r <= n && n < (r + 1) * (r + 1)
}

/// The integer square root of `n`, rounded down.
pub open spec fn sqrt_floor(n: int) -> int {
    choose|r: int| is_sqrt_floor(n, r)
}

/// The rounded-down integer square root is unique.
pub proof fn lemma_sqrt_floor_unique(n: int, r: int)
    requires
        is_sqrt_floor(n, r),
    ensures
        sqrt_floor(n) == r,
{
    assert(exists|x: int| is_sqrt_floor(n, x)) by {
        assert(is_sqrt_floor(n, r));
    }
    let r2 = sqrt_floor(n);
    assert(is_sqrt_floor(n, r2));
    assert(r == r2) by (nonlinear_arith)
        requires
            0 <= r,
            r * r <= n,
            n < (r + 1) * (r + 1),
            0 <= r2,
            r2 * r2 <= n,
            n < (r2 + 1) * (r2 + 1),
    ;
}

/// Failure-propagating square root on the model of a wrapper: fails on a
/// negative value, otherwise the square root of the value, rounded down
/// to the fixed scale.
pub open spec fn chk_sqrt(a: Option<int>) -> Option<int> {
    match a {
        Some(x) => if x >= 0 {
            Some(sqrt_floor(x * (DIV as int)))
        } else {
            None
        },
        None => None,
    }
}

/// One step of a chained formula: an operator together with its
/// right-hand operand.
pub enum ChainOp {
    Plus,
    Minus,
    Times,
    Over,
}

/// Applies one chain step to an accumulated value.
pub open spec fn apply_op(op: ChainOp, a: Option<int>, b: Option<int>) -> Option<int> {
    match op {
        ChainOp::Plus => chk_add(a, b),
        ChainOp::Minus => chk_sub(a, b),
        ChainOp::Times => chk_mul(a, b),
        ChainOp::Over => chk_div(a, b),
    }
}

/// Folds a whole chain of operations over an initial value, as a
/// left-to-right formula would.
pub open spec fn eval_chain(init: Option<int>, steps: Seq<(ChainOp, Option<int>)>) -> Option<int>
    decreases steps.len(),
{
    if steps.len() == 0 {
        init
    } else {
        eval_chain(apply_op(steps[0].0, init, steps[0].1), steps.drop_first())
    }
}

/// Failure propagation: if any operand feeding a chain of the four
/// operators is failed, the final result is failed, regardless of the
/// chain's length or of which operators it uses.
pub proof fn lemma_failed_operand_propagates(init: Option<int>, steps: Seq<(ChainOp, Option<int>)>)
    requires
        init is None || exists|i: int| 0 <= i < steps.len() && (#[trigger] steps[i]).1 is None,
    ensures
        eval_chain(init, steps) is None,
    decreases steps.len(),
{
    if init is None {
        if steps.len() > 0 {
            assert(apply_op(steps[0].0, init, steps[0].1) is None);
            lemma_failed_operand_propagates(
                apply_op(steps[0].0, init, steps[0].1),
                steps.drop_first(),
            );
        }
    } else {
        let i = choose|i: int| 0 <= i < steps.len() && (#[trigger] steps[i]).1 is None;
        let next = apply_op(steps[0].0, init, steps[0].1);
        if i == 0 {
            assert(next is None);
            lemma_failed_operand_propagates(next, steps.drop_first());
        } else {
            assert((steps.drop_first()[i - 1]).1 is None);
            lemma_failed_operand_propagates(next, steps.drop_first());
        }
    }
}

/// Overflow containment: an addition, subtraction or multiplication
/// whose true mathematical result is not representable yields the
/// failure mark, never a wrapped or truncated value; a division by zero
/// does the same.
pub proof fn lemma_overflow_yields_failed(x: int, y: int)
    ensures
        !in_fixed_range(x + y) ==> chk_add(Some(x), Some(y)) is None,
        !in_fixed_range(x - y) ==> chk_sub(Some(x), Some(y)) is None,
        !in_fixed_range(tdiv(x * y, DIV as int)) ==> chk_mul(Some(x), Some(y)) is None,
        chk_div(Some(x), Some(0)) is None,
{
}

/// A convenient wrapper around the [`Fixed`] type for safe math.
#[derive(Clone, Copy)]
pub struct FixedWrapper {
    /// The computed value so far, or `None` after any failed step.
    pub inner: Option<Fixed>,
}

impl View for FixedWrapper {
    type V = Option<int>;

    open spec fn view(&self) -> Option<int> {
        match self.inner {
            Some(f) => Some(f.inner as int),
            None => None,
        }
    }
}

/// The rounded-down integer square root, by bisection.
fn isqrt(n: u128) -> (r: u64)
    ensures
        is_sqrt_floor(n as int, r as int),
{
    let mut lo: u128 = 0;
    let mut hi: u128 = 0xffff_ffff_ffff_ffffu128;
    assert((hi + 1) * (hi + 1) > n) by (nonlinear_arith)
        requires
            hi == 0xffff_ffff_ffff_ffffu128,
            n <= u128::MAX,
    ;
    while lo < hi
        invariant
            lo <= hi,
            hi <= 0xffff_ffff_ffff_ffffu128,
            lo * lo <= n,
            n < (hi + 1) * (hi + 1),
        decreases hi - lo,
    {
        let mid: u128 = lo + (hi - lo + 1) / 2;
        assert(lo < mid && mid <= hi);
        assert(mid * mid <= u128::MAX) by (nonlinear_arith)
            requires
                mid <= 0xffff_ffff_ffff_ffffu128,
        ;
        if mid * mid <= n {
            lo = mid;
        } else {
            hi = mid - 1;
        }
    }
    lo as u64
}

impl FixedWrapper {
    /// A wrapper already holding the failure mark.
    pub fn failed() -> (r: FixedWrapper)
        ensures
            r@ is None,
    {
        FixedWrapper { inner: None }
    }

    /// Wraps a valid fixed-point value.
    pub fn from_fixed(f: Fixed) -> (r: FixedWrapper)
        ensures
            r@ == Some(f.inner as int),
    {
        FixedWrapper { inner: Some(f) }
    }

    /// Wraps the outcome of an earlier checked computation.
    pub fn from_option(o: Option<Fixed>) -> (r: FixedWrapper)
        ensures
            r@ == match o {
                Some(f) => Some(f.inner as int),
                None => None::<int>,
            },
    {
        FixedWrapper { inner: o }
    }

    /// Wraps the fixed-point value a balance carries.
    pub fn from_balance(b: crate::primitives::Balance) -> (r: FixedWrapper)
        ensures
            r@ == Some(b.0.inner as int),
    {
        FixedWrapper { inner: Some(b.0) }
    }

    /// Converts an integer into the fixed scale, failing where it is not
    /// representable.
    pub fn from_integer(i: i64) -> (r: FixedWrapper)
        ensures
            r@ == (if in_fixed_range(i * DIV) {
                Some(i * (DIV as int))
            } else {
                None::<int>
            }),
    {
        assert((i as i128) * (DIV as i128) < i128::MAX && (i as i128) * (DIV as i128)
            > i128::MIN) by (nonlinear_arith)
            requires
                i64::MIN <= i <= i64::MAX,
        ;
        let w = (i as i128) * (DIV as i128);
        if w >= i64::MIN as i128 && w <= i64::MAX as i128 {
            FixedWrapper { inner: Some(Fixed { inner: w as i64 }) }
        } else {
            FixedWrapper { inner: None }
        }
    }

    /// Retrieve the result.
    ///
    /// If the returned value is `None`, then an error occurred during the
    /// calculation.
    pub fn get(self) -> (r: Option<Fixed>)
        ensures
            match r {
                Some(f) => self@ == Some(f.inner as int),
                None => self@ is None,
            },
    {
        self.inner
    }

    /// Failure-propagating addition.
    pub fn add(self, rhs: FixedWrapper) -> (r: FixedWrapper)
        ensures
            r@ == chk_add(self@, rhs@),
    {
        match (self.inner, rhs.inner) {
            (Some(a), Some(b)) => FixedWrapper { inner: a.checked_add(b) },
            _ => FixedWrapper { inner: None },
        }
    }

    /// Failure-propagating subtraction.
    pub fn sub(self, rhs: FixedWrapper) -> (r: FixedWrapper)
        ensures
            r@ == chk_sub(self@, rhs@),
    {
        match (self.inner, rhs.inner) {
            (Some(a), Some(b)) => FixedWrapper { inner: a.checked_sub(b) },
            _ => FixedWrapper { inner: None },
        }
    }

    /// Failure-propagating multiplication.
    pub fn mul(self, rhs: FixedWrapper) -> (r: FixedWrapper)
        ensures
            r@ == chk_mul(self@, rhs@),
    {
        match (self.inner, rhs.inner) {
            (Some(a), Some(b)) => FixedWrapper { inner: a.checked_mul(b) },
            _ => FixedWrapper { inner: None },
        }
    }

    /// Failure-propagating division.
    pub fn div(self, rhs: FixedWrapper) -> (r: FixedWrapper)
        ensures
            r@ == chk_div(self@, rhs@),
    {
        match (self.inner, rhs.inner) {
            (Some(a), Some(b)) => FixedWrapper { inner: a.checked_div(b) },
            _ => FixedWrapper { inner: None },
        }
    }

    /// Failure-propagating square root, rounded down to the fixed scale,
    /// computed by a deterministic integer bisection rather than any
    /// floating-point round-trip.
    pub fn sqrt(self) -> (r: FixedWrapper)
        ensures
            r@ == chk_sqrt(self@),
    {
        match self.inner {
            None => FixedWrapper { inner: None },
            Some(f) => {
                if f.inner < 0 {
                    FixedWrapper { inner: None }
                } else {
                    assert((f.inner as u128) * (DIV as u128) < 0x2000_0000_0000_0000_0000_0000u128)
                        by (nonlinear_arith)
                        requires
                            0 <= f.inner <= i64::MAX,
                    ;
                    let m: u128 = (f.inner as u128) * (DIV as u128);
                    let root = isqrt(m);
                    assert(root <= i64::MAX) by (nonlinear_arith)
                        requires
                            (root as int) * (root as int) <= (m as int),
                            (m as int) < 0x2000_0000_0000_0000_0000_0000,
                            root >= 0,
                    ;
                    proof {
                        lemma_sqrt_floor_unique(m as int, root as int);
                    }
                    FixedWrapper { inner: Some(Fixed { inner: root as i64 }) }
                }
            },
        }
    }
}

impl PartialEq for FixedWrapper {
    /// Two wrappers are equal only when both hold a value and the values
    /// agree; a failed wrapper equals nothing, not even itself.
    fn eq(&self, other: &Self) -> (r: bool) {
        match (self.inner, other.inner) {
            (Some(a), Some(b)) => a.inner == b.inner,
            _ => false,
        }
    }
}

impl vstd::std_specs::cmp::PartialEqSpecImpl for FixedWrapper {
    open spec fn obeys_eq_spec() -> bool {
        true
    }

    open spec fn eq_spec(&self, other: &Self) -> bool {
        self@ is Some && other@ is Some && self@ == other@
    }
}

impl PartialOrd for FixedWrapper {
    /// Ordering requires both sides to hold a value.
    fn partial_cmp(&self, other: &Self) -> (r: Option<core::cmp::Ordering>) {
        match (self.inner, other.inner) {
            (Some(a), Some(b)) => if a.inner < b.inner {
                Some(core::cmp::Ordering::Less)
            } else if a.inner == b.inner {
                Some(core::cmp::Ordering::Equal)
            } else {
                Some(core::cmp::Ordering::Greater)
            },
            _ => None,
        }
    }
}

impl vstd::std_specs::cmp::PartialOrdSpecImpl for FixedWrapper {
    open spec fn obeys_partial_cmp_spec() -> bool {
        true
    }

    open spec fn partial_cmp_spec(&self, other: &Self) -> Option<core::cmp::Ordering> {
        match (self@, other@) {
            (Some(a), Some(b)) => if a < b {
                Some(core::cmp::Ordering::Less)
            } else if a == b {
                Some(core::cmp::Ordering::Equal)
            } else {
                Some(core::cmp::Ordering::Greater)
            },
            _ => None,
        }
    }
}

} // verus!
