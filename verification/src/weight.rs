//! The two-dimensional cost of a transaction, and the saturating arithmetic on it.
//!
//! The arithmetic itself is done by `frame_support::weights::Weight`; the
//! functions that call it state what it returns and are not verified against
//! its code.

use vstd::prelude::*;

verus! {

/// Resource cost of a transaction.
#[derive(Clone, Copy, Debug, PartialEq, Eq, Structural)]
pub struct Weight {
    /// Computation time on reference hardware.
    pub ref_time: u64,
    /// Storage space taken by the proof of validity.
    pub proof_size: u64,
}

/// The `u64` nearest to `x`.
pub open spec fn clamp_u64(x: int) -> u64 {
    if x < 0 {
        0
    } else if x > u64::MAX {
        u64::MAX
    } else {
        x as u64
    }
}

impl Weight {
    /// The weight with both components clamped into `u64`.
    pub open spec fn clamped(ref_time: int, proof_size: int) -> Weight {
        Weight { ref_time: clamp_u64(ref_time), proof_size: clamp_u64(proof_size) }
    }

    /// The weight that costs nothing.
    pub open spec fn spec_zero() -> Weight {
        Weight { ref_time: 0, proof_size: 0 }
    }

    /// Componentwise sum, clamped at `u64::MAX`.
    pub open spec fn spec_saturating_add(self, rhs: Weight) -> Weight {
        Weight::clamped(self.ref_time + rhs.ref_time, self.proof_size + rhs.proof_size)
    }

    /// Componentwise difference, clamped at zero.
    pub open spec fn spec_saturating_sub(self, rhs: Weight) -> Weight {
        Weight::clamped(self.ref_time - rhs.ref_time, self.proof_size - rhs.proof_size)
    }

    /// Both components multiplied by `scalar`, clamped at `u64::MAX`.
    pub open spec fn spec_saturating_mul(self, scalar: u64) -> Weight {
        Weight::clamped(self.ref_time * scalar, self.proof_size * scalar)
    }

    /// Both components divided by `scalar`, rounding down.
    pub open spec fn spec_div(self, scalar: u64) -> Weight
        recommends
            scalar != 0,
    {
        Weight {
            ref_time: (self.ref_time as int / scalar as int) as u64,
            proof_size: (self.proof_size as int / scalar as int) as u64,
        }
    }

    /// Whether no component of `self` exceeds that of `other`.
    pub open spec fn spec_all_lte(self, other: Weight) -> bool {
        self.ref_time <= other.ref_time && self.proof_size <= other.proof_size
    }

    /// Calls `frame_support::weights::Weight::zero`, whose two components are zero.
    #[verifier::external_body]
    pub(crate) fn zero() -> (zero: Weight)
        ensures
            zero == Weight::spec_zero(),
    {
        let zero = frame_support::weights::Weight::zero();
        Weight { ref_time: zero.ref_time(), proof_size: zero.proof_size() }
    }

    /// Calls `frame_support::weights::Weight::saturating_add`, which adds each
    /// component with `u64::saturating_add`.
    #[verifier::external_body]
    pub(crate) fn saturating_add(self, rhs: Weight) -> (sum: Weight)
        ensures
            sum == self.spec_saturating_add(rhs),
    {
        let sum = frame_support::weights::Weight::from_parts(self.ref_time, self.proof_size)
            .saturating_add(frame_support::weights::Weight::from_parts(rhs.ref_time, rhs.proof_size));
        Weight { ref_time: sum.ref_time(), proof_size: sum.proof_size() }
    }

    /// Calls `frame_support::weights::Weight::saturating_sub`, which subtracts
    /// each component with `u64::saturating_sub`.
    #[verifier::external_body]
    pub(crate) fn saturating_sub(self, rhs: Weight) -> (difference: Weight)
        ensures
            difference == self.spec_saturating_sub(rhs),
    {
        let difference = frame_support::weights::Weight::from_parts(self.ref_time, self.proof_size)
            .saturating_sub(frame_support::weights::Weight::from_parts(rhs.ref_time, rhs.proof_size));
        Weight { ref_time: difference.ref_time(), proof_size: difference.proof_size() }
    }

    /// Calls `frame_support::weights::Weight::saturating_mul`, which multiplies
    /// each component by the scalar with `u64::saturating_mul`.
    #[verifier::external_body]
    pub(crate) fn saturating_mul(self, scalar: u64) -> (product: Weight)
        ensures
            product == self.spec_saturating_mul(scalar),
    {
        let product = frame_support::weights::Weight::from_parts(self.ref_time, self.proof_size)
            .saturating_mul(scalar);
        Weight { ref_time: product.ref_time(), proof_size: product.proof_size() }
    }

    /// Calls `Div::div` of `frame_support::weights::Weight` with a `u64`
    /// divisor, which divides each component by the scalar, rounding down,
    /// and panics when the scalar is zero.
    #[verifier::external_body]
    pub(crate) fn div(self, scalar: u64) -> (quotient: Weight)
        requires
            scalar != 0,
        ensures
            quotient == self.spec_div(scalar),
    {
        let quotient = frame_support::weights::Weight::from_parts(self.ref_time, self.proof_size)
            / scalar;
        Weight { ref_time: quotient.ref_time(), proof_size: quotient.proof_size() }
    }

    /// Calls `frame_support::weights::Weight::all_lte`, which holds when each
    /// component of the first weight is at most that of the second.
    #[verifier::external_body]
    pub(crate) fn all_lte(self, other: Weight) -> (fits: bool)
        ensures
            fits == self.spec_all_lte(other),
    {
        frame_support::weights::Weight::from_parts(self.ref_time, self.proof_size)
            .all_lte(frame_support::weights::Weight::from_parts(other.ref_time, other.proof_size))
    }
}

/// A quantity that is not negative, times a larger count, is no smaller, and
/// is not negative either.
pub proof fn lemma_product_is_monotonic(unit: int, fewer: int, more: int)
    requires
        0 <= unit,
        0 <= fewer <= more,
    ensures
        0 <= unit * fewer <= unit * more,
{
    assert(0 <= unit * fewer <= unit * more) by (nonlinear_arith)
        requires
            0 <= unit,
            0 <= fewer <= more,
    ;
}

} // verus!
