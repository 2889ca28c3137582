//! Exact operations on IEEE-754 binary64 values held as their bit patterns.
//!
//! A bit pattern `b` has its sign in the top bit and its magnitude (exponent
//! and mantissa) in the lower 63 bits. Finite values and the infinities of
//! one sign are ordered as their magnitudes; a magnitude above that of
//! infinity is a NaN.
use vstd::prelude::*;

verus! {

/// The sign bit.
pub const SIGN_BIT: u64 = 0x8000_0000_0000_0000;

/// Magnitude of positive infinity; every larger magnitude is a NaN.
pub const INFINITY_MAGNITUDE: u64 = 0x7FF0_0000_0000_0000;

/// Bits of `0.0`.
pub const ZERO: u64 = 0;

/// Bits of `1.0`.
pub const ONE: u64 = 0x3FF0_0000_0000_0000;

/// The sign bit is set.
pub open spec fn sign_set(b: u64) -> bool {
    b >= SIGN_BIT
}

/// The lower 63 bits.
pub open spec fn magnitude(b: u64) -> int {
    if sign_set(b) {
        b - SIGN_BIT
    } else {
        b as int
    }
}

pub open spec fn is_nan(b: u64) -> bool {
    magnitude(b) > INFINITY_MAGNITUDE
}

/// Position of a non-NaN value on the real line: both zeros sit at 0, and the
/// ordering of positions is the ordering of the values.
pub open spec fn value_rank(b: u64) -> int {
    if sign_set(b) {
        -magnitude(b)
    } else {
        magnitude(b)
    }
}

/// `a < b` on the values: false whenever either is a NaN.
pub open spec fn value_lt(a: u64, b: u64) -> bool {
    !is_nan(a) && !is_nan(b) && value_rank(a) < value_rank(b)
}

/// `a <= b` on the values: false whenever either is a NaN.
pub open spec fn value_le(a: u64, b: u64) -> bool {
    !is_nan(a) && !is_nan(b) && value_rank(a) <= value_rank(b)
}

/// Position in the IEEE-754 total order (`f64::total_cmp`): every bit
/// pattern has its own place, `-0.0` just below `+0.0`, negative NaNs first
/// and positive NaNs last.
pub open spec fn total_rank(b: u64) -> int {
    if sign_set(b) {
        -magnitude(b) - 1
    } else {
        magnitude(b)
    }
}

/// Place of an event time: the IEEE-754 total order, except that `-0.0`
/// shares the place of `+0.0`, so that equal times tie. On values that are
/// not NaN it orders as `<` does.
pub open spec fn time_rank(b: u64) -> int {
    if b == SIGN_BIT {
        0
    } else {
        total_rank(b)
    }
}

/// Sign of a value as the comparisons with zero see it.
#[derive(Clone, Copy, Debug, PartialEq, Eq, Structural)]
pub enum Sign {
    Negative,
    Zero,
    Positive,
}

/// `a < b` on the values the bit patterns hold.
pub fn float_lt(a: u64, b: u64) -> (r: bool)
    ensures
        r == value_lt(a, b),
{
    let ma: u64 = if a >= SIGN_BIT { a - SIGN_BIT } else { a };
    let mb: u64 = if b >= SIGN_BIT { b - SIGN_BIT } else { b };
    if ma > INFINITY_MAGNITUDE || mb > INFINITY_MAGNITUDE {
        false
    } else if a >= SIGN_BIT {
        if b >= SIGN_BIT {
            mb < ma
        } else {
            ma != 0 || mb != 0
        }
    } else if b >= SIGN_BIT {
        false
    } else {
        ma < mb
    }
}

/// `a <= b` on the values the bit patterns hold.
pub fn float_le(a: u64, b: u64) -> (r: bool)
    ensures
        r == value_le(a, b),
{
    let ma: u64 = if a >= SIGN_BIT { a - SIGN_BIT } else { a };
    let mb: u64 = if b >= SIGN_BIT { b - SIGN_BIT } else { b };
    if ma > INFINITY_MAGNITUDE || mb > INFINITY_MAGNITUDE {
        false
    } else if a >= SIGN_BIT {
        if b >= SIGN_BIT {
            mb <= ma
        } else {
            true
        }
    } else if b >= SIGN_BIT {
        ma == 0 && mb == 0
    } else {
        ma <= mb
    }
}

/// Sign of the value: `Positive` when `0.0 < v`, `Negative` when `v < 0.0`,
/// `Zero` otherwise (either zero, or a NaN).
pub open spec fn value_sign(v: u64) -> Sign {
    if value_lt(ZERO, v) {
        Sign::Positive
    } else if value_lt(v, ZERO) {
        Sign::Negative
    } else {
        Sign::Zero
    }
}

/// Sign of the value, as `value_sign` states it.
pub fn sign_of(v: u64) -> (r: Sign)
    ensures
        r == value_sign(v),
{
    if float_lt(ZERO, v) {
        Sign::Positive
    } else if float_lt(v, ZERO) {
        Sign::Negative
    } else {
        Sign::Zero
    }
}

/// The same magnitude with the other sign.
pub open spec fn negated(b: u64) -> u64 {
    if sign_set(b) {
        (b - SIGN_BIT) as u64
    } else {
        (b + SIGN_BIT) as u64
    }
}

/// Negation: the same magnitude with the other sign.
pub fn negate(v: u64) -> (r: u64)
    ensures
        r == negated(v),
        magnitude(r) == magnitude(v),
        sign_set(r) != sign_set(v),
        !is_nan(v) ==> value_rank(r) == -value_rank(v),
{
    if v >= SIGN_BIT {
        v - SIGN_BIT
    } else {
        v + SIGN_BIT
    }
}

/// A key whose unsigned order is the IEEE-754 total order of the values.
pub fn order_key(v: u64) -> (r: u64)
    ensures
        r == total_rank(v) + SIGN_BIT,
{
    if v >= SIGN_BIT {
        u64::MAX - v
    } else {
        v + SIGN_BIT
    }
}

/// A key whose unsigned order is the order of event times (`time_rank`):
/// the total order with both zeros equal.
pub fn time_key(v: u64) -> (r: u64)
    ensures
        r == time_rank(v) + SIGN_BIT,
{
    if v == SIGN_BIT {
        SIGN_BIT
    } else {
        order_key(v)
    }
}

/// Ordering event times by `time_rank` agrees with comparing their values
/// wherever neither is a NaN; in particular `-0.0` and `+0.0` tie.
pub proof fn lemma_time_rank_orders_values(a: u64, b: u64)
    requires
        !is_nan(a),
        !is_nan(b),
    ensures
        (time_rank(a) < time_rank(b)) == value_lt(a, b),
        (time_rank(a) <= time_rank(b)) == value_le(a, b),
{
}

} // verus!
