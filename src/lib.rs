//! Addition of two signed 64-bit integers, the one operation that the
//! extension module exposes to its host interpreter.
//!
//! Overflow policy: `add` is defined only where the exact sum is itself a
//! signed 64-bit integer. Callers outside the verifier check that bound first
//! and fail as Rust's own overflow check would.
use vstd::prelude::*;

verus! {

/// The mathematical sum of two signed 64-bit integers.
pub open spec fn sum_of(a: i64, b: i64) -> int {
    a + b
}

/// Whether the sum of `a` and `b` can be represented as an `i64`.
pub open spec fn sum_fits(a: i64, b: i64) -> bool {
    i64::MIN <= sum_of(a, b) <= i64::MAX
}

/// Returns `a + b`. The sum must not overflow.
pub fn add(a: i64, b: i64) -> (r: i64)
    requires
        sum_fits(a, b),
    ensures
        r == sum_of(a, b),
{
    a + b
}

/// Commutativity: whenever `a + b` fits, so does `b + a`, and the two sums
/// are the same value.
pub proof fn lemma_add_commutative(a: i64, b: i64)
    requires
        sum_fits(a, b),
    ensures
        sum_fits(b, a),
        sum_of(a, b) == sum_of(b, a),
{
}

/// Identity: adding zero always fits and gives back the other operand.
pub proof fn lemma_add_zero(a: i64)
    ensures
        sum_fits(a, 0),
        sum_of(a, 0) == a,
{
}

} // verus!
