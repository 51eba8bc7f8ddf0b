use vstd::prelude::*;

use crate::policy_stack::stack_satisfied;
use crate::risk::{RohScore, monotone_spec, risk_holds_spec, risk_invariant_holds, risk_monotone};
use crate::roles::{neuromorph_god_satisfied, sovereignty_spec, RoleSet};
use crate::tier::{is_downgrade, is_downgrade_spec, is_human_coupled_spec};
use crate::transition::{validate_spec, CapabilityTransition, ValidationError};

verus! {

/// Why a decision came out as it did. Every denial names its cause.
#[derive(Clone, Copy, Debug, PartialEq, Eq, Hash, Structural)]
pub enum DecisionReason {
    Allowed,
    DeniedInsufficientConsent,
    DeniedConsentRevoked,
    DeniedPolicyStackFailure,
    DeniedMissingEvidence,
    DeniedIllegalDowngradeByNonRegulator,
    DeniedNoSaferAlternativeNotProved,
    DeniedReversalNotAllowedInTier,
    DeniedRoHViolation,
    DeniedNeuromorphReversalProhibited,
    DeniedIllegalTransition,
    DeniedMissingRoles,
    DeniedUnknown,
}

/// The outcome of an evaluation: allowed or not, with exactly one reason.
#[derive(Clone, Copy, Debug, PartialEq, Eq, Structural)]
pub struct Decision {
    pub allowed: bool,
    pub reason: DecisionReason,
}

pub open spec fn allow_spec() -> Decision {
    Decision { allowed: true, reason: DecisionReason::Allowed }
}

pub open spec fn deny_spec(reason: DecisionReason) -> Decision {
    Decision { allowed: false, reason }
}

impl Decision {
    /// An allowing decision.
    pub fn allow() -> (r: Decision)
        ensures
            r == allow_spec(),
    {
        Decision { allowed: true, reason: DecisionReason::Allowed }
    }

    /// A denial for the given reason.
    pub fn deny(reason: DecisionReason) -> (r: Decision)
        ensures
            r == deny_spec(reason),
    {
        Decision { allowed: false, reason }
    }
}

/// Configuration-level reversal switches.
#[derive(Clone, Copy, Debug, PartialEq, Eq, Structural)]
pub struct ReversalPolicyFlags {
    /// Non-waivable default-deny switch: when false no downgrade proceeds.
    pub allow_neuromorph_reversal: bool,
    /// An explicit, signed owner/quorum order for the reversal exists.
    pub explicit_reversal_order: bool,
    /// The single channel through which diagnostics reach the decision:
    /// every non-reversal mitigation has been exhausted.
    pub no_safer_alternative: bool,
}

/// Advisory envelope signals: they may recommend a downgrade, never force one.
#[derive(Clone, Copy, Debug, PartialEq, Eq, Structural)]
pub struct EnvelopeContextView {
    pub requires_downgrade: bool,
    pub request_capability_downgrade: bool,
    pub balance_maintained: bool,
}

/// Risk and origin of one evaluation. Risk values are in millionths.
#[derive(Clone, Copy, Debug, PartialEq, Eq, Structural)]
pub struct ReversalContext {
    pub roh_before: RohScore,
    pub roh_after: RohScore,
    /// Ceiling that applies in human-coupled tiers.
    pub roh_ceiling: RohScore,
    /// The transition claims to reduce both capability and risk.
    pub risk_reducing_downgrade: bool,
    /// The request comes from a diagnostic or advisory context.
    pub is_diag_event: bool,
}

/// Number of guards in the downgrade chain.
pub const GUARD_COUNT: u8 = 7;

/// The risk guard: ceiling and monotonicity when leaving a human-coupled
/// tier, monotonicity alone otherwise.
pub open spec fn risk_guard_ok(base: CapabilityTransition, ctx: ReversalContext) -> bool {
    if is_human_coupled_spec(base.from) {
        risk_holds_spec(ctx.roh_before, ctx.roh_after, ctx.roh_ceiling, ctx.risk_reducing_downgrade)
    } else {
        monotone_spec(ctx.roh_before, ctx.roh_after, ctx.risk_reducing_downgrade)
    }
}

/// Whether guard `i` (1 to 7, in chain order) fails.
pub open spec fn guard_fails(
    i: int,
    base: CapabilityTransition,
    flags: ReversalPolicyFlags,
    ctx: ReversalContext,
    env: EnvelopeContextView,
    roles: RoleSet,
) -> bool {
    if i == 1 {
        ctx.is_diag_event
    } else if i == 2 {
        !risk_guard_ok(base, ctx)
    } else if i == 3 {
        !flags.allow_neuromorph_reversal
    } else if i == 4 {
        !sovereignty_spec(roles)
    } else if i == 5 {
        !(flags.explicit_reversal_order && flags.no_safer_alternative)
    } else if i == 6 {
        !stack_satisfied(base.policy_stack)
    } else if i == 7 {
        !env.request_capability_downgrade
    } else {
        false
    }
}

/// The reason that guard `i` reports.
pub open spec fn guard_reason(i: int) -> DecisionReason {
    if i == 2 {
        DecisionReason::DeniedRoHViolation
    } else if i == 3 {
        DecisionReason::DeniedReversalNotAllowedInTier
    } else if i == 5 {
        DecisionReason::DeniedNoSaferAlternativeNotProved
    } else if i == 6 {
        DecisionReason::DeniedPolicyStackFailure
    } else {
        DecisionReason::DeniedIllegalDowngradeByNonRegulator
    }
}

/// The first failing guard, or 8 when all seven pass.
pub open spec fn first_failing_guard(
    base: CapabilityTransition,
    flags: ReversalPolicyFlags,
    ctx: ReversalContext,
    env: EnvelopeContextView,
    roles: RoleSet,
) -> int {
    if guard_fails(1, base, flags, ctx, env, roles) {
        1
    } else if guard_fails(2, base, flags, ctx, env, roles) {
        2
    } else if guard_fails(3, base, flags, ctx, env, roles) {
        3
    } else if guard_fails(4, base, flags, ctx, env, roles) {
        4
    } else if guard_fails(5, base, flags, ctx, env, roles) {
        5
    } else if guard_fails(6, base, flags, ctx, env, roles) {
        6
    } else if guard_fails(7, base, flags, ctx, env, roles) {
        7
    } else {
        8
    }
}

/// The decision reason for a state-machine rejection.
pub open spec fn validation_reason(e: ValidationError) -> DecisionReason {
    match e {
        ValidationError::IllegalTierJump => DecisionReason::DeniedIllegalTransition,
        ValidationError::MissingEvidence => DecisionReason::DeniedMissingEvidence,
        ValidationError::MissingConsent => DecisionReason::DeniedInsufficientConsent,
        ValidationError::MissingRoles => DecisionReason::DeniedMissingRoles,
        ValidationError::PolicyStackNotSatisfied => DecisionReason::DeniedPolicyStackFailure,
    }
}

/// The baseline decision of the state machine for a transition that is not a downgrade.
pub open spec fn baseline_decision(base: CapabilityTransition) -> Decision {
    match validate_spec(base) {
        Ok(_) => allow_spec(),
        Err(e) => deny_spec(validation_reason(e)),
    }
}

/// The kernel's decision. A diagnostic context never changes the tier. A
/// transition that is not a downgrade goes to the state machine. A downgrade
/// is allowed only when all seven guards pass; otherwise the first failing
/// guard gives the reason.
pub open spec fn decide(
    base: CapabilityTransition,
    flags: ReversalPolicyFlags,
    ctx: ReversalContext,
    env: EnvelopeContextView,
    roles: RoleSet,
) -> Decision {
    if !is_downgrade_spec(base.from, base.to) {
        if ctx.is_diag_event && base.from != base.to {
            deny_spec(DecisionReason::DeniedIllegalDowngradeByNonRegulator)
        } else {
            baseline_decision(base)
        }
    } else {
        let k = first_failing_guard(base, flags, ctx, env, roles);
        if k == 8 {
            allow_spec()
        } else {
            deny_spec(guard_reason(k))
        }
    }
}

/// Maps a state-machine rejection to its decision reason.
pub fn reason_for_validation_error(e: ValidationError) -> (r: DecisionReason)
    ensures
        r == validation_reason(e),
{
    match e {
        ValidationError::IllegalTierJump => DecisionReason::DeniedIllegalTransition,
        ValidationError::MissingEvidence => DecisionReason::DeniedMissingEvidence,
        ValidationError::MissingConsent => DecisionReason::DeniedInsufficientConsent,
        ValidationError::MissingRoles => DecisionReason::DeniedMissingRoles,
        ValidationError::PolicyStackNotSatisfied => DecisionReason::DeniedPolicyStackFailure,
    }
}

/// The state machine's verdict as a decision.
pub fn evaluate_baseline(base: &CapabilityTransition) -> (r: Decision)
    ensures
        r == baseline_decision(*base),
{
    match base.validate() {
        Ok(()) => Decision::allow(),
        Err(e) => Decision::deny(reason_for_validation_error(e)),
    }
}

/// Evaluates a capability transition. Pure: no I/O and no mutation, so the
/// same inputs always give the same decision.
pub fn evaluate_reversal(
    base: &CapabilityTransition,
    rev_flags: ReversalPolicyFlags,
    ctx: ReversalContext,
    envelope: EnvelopeContextView,
    role_set: &RoleSet,
) -> (r: Decision)
    ensures
        r == decide(*base, rev_flags, ctx, envelope, *role_set),
{
    if !is_downgrade(base.from, base.to) {
        if ctx.is_diag_event && base.from != base.to {
            return Decision::deny(DecisionReason::DeniedIllegalDowngradeByNonRegulator);
        }
        return evaluate_baseline(base);
    }
    // 1. Diagnostics never change capability.
    if ctx.is_diag_event {
        return Decision::deny(DecisionReason::DeniedIllegalDowngradeByNonRegulator);
    }
    // 2. Risk invariant, with the ceiling in human-coupled tiers.
    let risk_ok = if base.from.is_human_coupled() {
        risk_invariant_holds(ctx.roh_before, ctx.roh_after, ctx.roh_ceiling, ctx.risk_reducing_downgrade)
    } else {
        risk_monotone(ctx.roh_before, ctx.roh_after, ctx.risk_reducing_downgrade)
    };
    if !risk_ok {
        return Decision::deny(DecisionReason::DeniedRoHViolation);
    }
    // 3. Default-deny switch.
    if !rev_flags.allow_neuromorph_reversal {
        return Decision::deny(DecisionReason::DeniedReversalNotAllowedInTier);
    }
    // 4. Sovereignty composite and regulator quorum.
    if !neuromorph_god_satisfied(role_set) {
        return Decision::deny(DecisionReason::DeniedIllegalDowngradeByNonRegulator);
    }
    // 5. Explicit order and no safer alternative.
    if !(rev_flags.explicit_reversal_order && rev_flags.no_safer_alternative) {
        return Decision::deny(DecisionReason::DeniedNoSaferAlternativeNotProved);
    }
    // 6. Policy stack.
    if !base.policy_stack.is_satisfied() {
        return Decision::deny(DecisionReason::DeniedPolicyStackFailure);
    }
    // 7. The advisory layer must itself request the downgrade.
    if !envelope.request_capability_downgrade {
        return Decision::deny(DecisionReason::DeniedIllegalDowngradeByNonRegulator);
    }
    Decision::allow()
}

/// The kernel as a value, for callers that hold an evaluator.
#[derive(Clone, Copy, Debug)]
pub struct KernelEvaluator;

impl KernelEvaluator {
    /// Same as the free function [`evaluate_reversal`].
    pub fn evaluate_reversal(
        &self,
        base: &CapabilityTransition,
        rev_flags: ReversalPolicyFlags,
        ctx: ReversalContext,
        envelope: EnvelopeContextView,
        role_set: &RoleSet,
    ) -> (r: Decision)
        ensures
            r == decide(*base, rev_flags, ctx, envelope, *role_set),
    {
        evaluate_reversal(base, rev_flags, ctx, envelope, role_set)
    }
}

/// An accepted downgrade never raises risk; when it is flagged risk-reducing,
/// risk falls strictly; leaving a human-coupled tier, risk ends within the ceiling.
pub proof fn lemma_accepted_downgrade_monotone(
    base: CapabilityTransition,
    flags: ReversalPolicyFlags,
    ctx: ReversalContext,
    env: EnvelopeContextView,
    roles: RoleSet,
)
    requires
        is_downgrade_spec(base.from, base.to),
        decide(base, flags, ctx, env, roles).allowed,
    ensures
        ctx.roh_after <= ctx.roh_before,
        ctx.risk_reducing_downgrade ==> ctx.roh_after < ctx.roh_before,
        is_human_coupled_spec(base.from) ==> ctx.roh_after <= ctx.roh_ceiling,
{
}

/// With the reversal switch off, a downgrade is denied as not allowed in the
/// tier, whatever the roles, orders, policy stack and envelope say; only the
/// two guards ahead of the switch (a diagnostic origin, a broken risk
/// invariant) report first.
pub proof fn lemma_default_deny(
    base: CapabilityTransition,
    flags: ReversalPolicyFlags,
    ctx: ReversalContext,
    env: EnvelopeContextView,
    roles: RoleSet,
)
    requires
        is_downgrade_spec(base.from, base.to),
        !flags.allow_neuromorph_reversal,
        !ctx.is_diag_event,
        risk_guard_ok(base, ctx),
    ensures
        decide(base, flags, ctx, env, roles) == deny_spec(DecisionReason::DeniedReversalNotAllowedInTier),
{
}

/// When a downgrade fails guards `i` and `j` with `i < j`, the reported reason
/// is that of the earliest failing guard, which comes no later than `i`; when
/// no guard before `i` fails, it is guard `i`'s own reason.
pub proof fn lemma_earliest_guard_wins(
    base: CapabilityTransition,
    flags: ReversalPolicyFlags,
    ctx: ReversalContext,
    env: EnvelopeContextView,
    roles: RoleSet,
    i: int,
    j: int,
)
    requires
        is_downgrade_spec(base.from, base.to),
        1 <= i < j <= GUARD_COUNT,
        guard_fails(i, base, flags, ctx, env, roles),
        guard_fails(j, base, flags, ctx, env, roles),
    ensures
        ({
            let k = first_failing_guard(base, flags, ctx, env, roles);
            &&& 1 <= k <= i
            &&& guard_fails(k, base, flags, ctx, env, roles)
            &&& forall|m: int| 1 <= m < k ==> !guard_fails(m, base, flags, ctx, env, roles)
            &&& decide(base, flags, ctx, env, roles) == deny_spec(guard_reason(k))
        }),
        (forall|m: int| 1 <= m < i ==> !guard_fails(m, base, flags, ctx, env, roles)) ==> decide(
            base,
            flags,
            ctx,
            env,
            roles,
        ) == deny_spec(guard_reason(i)),
{
    let k = first_failing_guard(base, flags, ctx, env, roles);
    assert forall|m: int| 1 <= m < k implies !guard_fails(m, base, flags, ctx, env, roles) by {
        assert(m == 1 || m == 2 || m == 3 || m == 4 || m == 5 || m == 6 || m == 7);
    }
    if forall|m: int| 1 <= m < i ==> !guard_fails(m, base, flags, ctx, env, roles) {
        if k < i {
            assert(!guard_fails(k, base, flags, ctx, env, roles));
        }
    }
}

/// A request from a diagnostic context that would change the tier is always denied.
pub proof fn lemma_diagnostic_isolation(
    base: CapabilityTransition,
    flags: ReversalPolicyFlags,
    ctx: ReversalContext,
    env: EnvelopeContextView,
    roles: RoleSet,
)
    requires
        ctx.is_diag_event,
        base.to != base.from,
    ensures
        !decide(base, flags, ctx, env, roles).allowed,
{
}

} // verus!
