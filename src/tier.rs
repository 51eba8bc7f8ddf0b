use vstd::prelude::*;

verus! {

/// Operating capability tier, ordered from least to most capable.
#[derive(Clone, Copy, Debug, PartialEq, Eq, Hash, Structural)]
pub enum CapabilityState {
    /// Simulation only: models, proofs, algorithm design.
    ModelOnly,
    /// Synthetic tissue, phantom models, non-biological rigs.
    LabBench,
    /// Bounded human studies under ethics and regulator oversight.
    ControlledHuman,
    /// Routine deployment under applicable regulation.
    GeneralUse,
}

/// Position of a tier in the lattice `ModelOnly < LabBench < ControlledHuman < GeneralUse`.
pub open spec fn tier_index(s: CapabilityState) -> nat {
    match s {
        CapabilityState::ModelOnly => 0,
        CapabilityState::LabBench => 1,
        CapabilityState::ControlledHuman => 2,
        CapabilityState::GeneralUse => 3,
    }
}

/// A downgrade strictly lowers the tier.
pub open spec fn is_downgrade_spec(from: CapabilityState, to: CapabilityState) -> bool {
    tier_index(to) < tier_index(from)
}

/// Tiers in which a human is coupled to the device.
pub open spec fn is_human_coupled_spec(s: CapabilityState) -> bool {
    s == CapabilityState::ControlledHuman || s == CapabilityState::GeneralUse
}

impl CapabilityState {
    /// Position of the tier in the lattice.
    pub fn index(self) -> (r: u8)
        ensures
            r as nat == tier_index(self),
    {
        match self {
            CapabilityState::ModelOnly => 0,
            CapabilityState::LabBench => 1,
            CapabilityState::ControlledHuman => 2,
            CapabilityState::GeneralUse => 3,
        }
    }

    /// True for ControlledHuman and GeneralUse.
    pub fn is_human_coupled(self) -> (r: bool)
        ensures
            r == is_human_coupled_spec(self),
    {
        self == CapabilityState::ControlledHuman || self == CapabilityState::GeneralUse
    }
}

/// Whether moving from `from` to `to` strictly lowers the tier.
pub fn is_downgrade(from: CapabilityState, to: CapabilityState) -> (r: bool)
    ensures
        r == is_downgrade_spec(from, to),
{
    to.index() < from.index()
}

/// Depth of consent held for a subject. `Revoked` is an absorbing denial state.
#[derive(Clone, Copy, Debug, PartialEq, Eq, Hash, Structural)]
pub enum ConsentState {
    /// No consent granted: all live coupling is denied.
    NoConsent,
    /// Non-invasive, low-risk observation only.
    Minimal,
    /// Higher-intensity interaction under strict scope.
    Extended,
    /// Consent withdrawn: all live coupling must halt.
    Revoked,
}

/// Consent that permits live coupling: at least minimal and not revoked.
pub open spec fn consent_ok_spec(c: ConsentState) -> bool {
    c == ConsentState::Minimal || c == ConsentState::Extended
}

/// Basic consent check for live coupling.
pub fn consent_ok(c: ConsentState) -> (r: bool)
    ensures
        r == consent_ok_spec(c),
{
    match c {
        ConsentState::Minimal | ConsentState::Extended => true,
        ConsentState::NoConsent | ConsentState::Revoked => false,
    }
}

/// A role held by a participant in a transition.
#[derive(Clone, Copy, Debug, PartialEq, Eq, Hash, Structural)]
pub enum Role {
    Learner,
    Teacher,
    Mentor,
    Operator,
    Regulator,
    Host,
    OrganicCpuOwner,
    SovereignKernel,
}

/// A jurisdiction or standards tag that a policy stack may carry.
#[derive(Clone, Copy, Debug, PartialEq, Eq, Hash, Structural)]
pub enum JurisdictionTag {
    Fda,
    EuMdr,
    IsoIec60601_1,
    IsoIec60601_2_57,
    IsoIec60601_1_2,
    JurisLocal,
    QuantumAiSafety,
}

} // verus!
