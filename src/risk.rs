use vstd::prelude::*;

verus! {

/// A risk-of-harm value in millionths: `1_000_000` is 1.0.
pub type RohScore = u32;

/// 1.0 in millionths.
pub const ROH_SCALE: RohScore = 1_000_000;

/// The usual ceiling in human-coupled tiers, 0.30.
pub const ROH_CEILING_DEFAULT: RohScore = 300_000;

/// Monotonic part of the risk invariant: risk does not rise, and falls
/// strictly when the transition claims to be risk-reducing.
pub open spec fn monotone_spec(before: RohScore, after: RohScore, risk_reducing: bool) -> bool {
    if risk_reducing {
        after < before
    } else {
        after <= before
    }
}

/// The full risk invariant: bounded by the ceiling and monotone.
pub open spec fn risk_holds_spec(before: RohScore, after: RohScore, ceiling: RohScore, risk_reducing: bool) -> bool {
    after <= ceiling && monotone_spec(before, after, risk_reducing)
}

/// Whether risk stays monotone across a transition.
pub fn risk_monotone(before: RohScore, after: RohScore, risk_reducing: bool) -> (r: bool)
    ensures
        r == monotone_spec(before, after, risk_reducing),
{
    if risk_reducing {
        after < before
    } else {
        after <= before
    }
}

/// Whether `after` is within `ceiling` and risk stays monotone.
pub fn risk_invariant_holds(before: RohScore, after: RohScore, ceiling: RohScore, risk_reducing: bool) -> (r: bool)
    ensures
        r == risk_holds_spec(before, after, ceiling, risk_reducing),
{
    after <= ceiling && risk_monotone(before, after, risk_reducing)
}

} // verus!
