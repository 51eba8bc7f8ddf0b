use vstd::prelude::*;

use crate::policy_stack::{stack_satisfied, PolicyStack};
use crate::tier::{is_human_coupled_spec, tier_index, CapabilityState, ConsentState, Role};

verus! {

/// A requested change of capability tier with its prerequisites. It is built
/// by the caller and never changed by evaluation.
#[derive(Clone, Debug)]
pub struct CapabilityTransition {
    pub from: CapabilityState,
    pub to: CapabilityState,
    /// Evidence identifiers (hashes, content ids).
    pub required_evidence: Vec<String>,
    pub required_consent: ConsentState,
    pub required_roles: Vec<Role>,
    pub policy_stack: PolicyStack,
    /// Optional temporal-logic property identifier.
    pub ltl_property: Option<String>,
}

/// Why the state machine rejected a transition.
#[derive(Clone, Copy, Debug, PartialEq, Eq, Structural)]
pub enum ValidationError {
    /// A forward move that skips a tier.
    IllegalTierJump,
    /// No evidence for a target above ModelOnly.
    MissingEvidence,
    /// Consent is `NoConsent` for a target above ModelOnly.
    MissingConsent,
    /// No role for a target of ControlledHuman or GeneralUse.
    MissingRoles,
    /// Some policy-stack group is empty.
    PolicyStackNotSatisfied,
}

/// The transition graph: self-loops, one step up, or any step down.
pub open spec fn edge_legal(from: CapabilityState, to: CapabilityState) -> bool {
    tier_index(to) <= tier_index(from) + 1
}

/// The state machine's verdict, checks taken in order.
pub open spec fn validate_spec(t: CapabilityTransition) -> Result<(), ValidationError> {
    if !edge_legal(t.from, t.to) {
        Err(ValidationError::IllegalTierJump)
    } else if t.to != CapabilityState::ModelOnly && t.required_evidence@.len() == 0 {
        Err(ValidationError::MissingEvidence)
    } else if t.to != CapabilityState::ModelOnly && t.required_consent == ConsentState::NoConsent {
        Err(ValidationError::MissingConsent)
    } else if is_human_coupled_spec(t.to) && t.required_roles@.len() == 0 {
        Err(ValidationError::MissingRoles)
    } else if !stack_satisfied(t.policy_stack) {
        Err(ValidationError::PolicyStackNotSatisfied)
    } else {
        Ok(())
    }
}

impl ValidationError {
    /// A human-readable account of the error.
    pub fn message(&self) -> (r: &'static str) {
        match self {
            ValidationError::IllegalTierJump => "forward transitions may rise by one tier at most",
            ValidationError::MissingEvidence => "evidence objects required for transition to non-ModelOnly state",
            ValidationError::MissingConsent => "consent cannot be absent for transition to non-ModelOnly state",
            ValidationError::MissingRoles => "at least one role is required for transitions to ControlledHuman or GeneralUse",
            ValidationError::PolicyStackNotSatisfied => "policy stack not satisfied: a jurisdiction group is empty",
        }
    }
}

impl CapabilityTransition {
    /// Checks the transition against the tier graph and its prerequisites.
    pub fn validate(&self) -> (r: Result<(), ValidationError>)
        ensures
            r == validate_spec(*self),
    {
        if self.to.index() > self.from.index() + 1 {
            return Err(ValidationError::IllegalTierJump);
        }
        if self.to != CapabilityState::ModelOnly && self.required_evidence.is_empty() {
            return Err(ValidationError::MissingEvidence);
        }
        if self.to != CapabilityState::ModelOnly && self.required_consent == ConsentState::NoConsent {
            return Err(ValidationError::MissingConsent);
        }
        if self.to.is_human_coupled() && self.required_roles.is_empty() {
            return Err(ValidationError::MissingRoles);
        }
        if !self.policy_stack.is_satisfied() {
            return Err(ValidationError::PolicyStackNotSatisfied);
        }
        Ok(())
    }
}

} // verus!
