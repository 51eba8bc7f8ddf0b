use policyengine::aln_policy::ALNPolicy;
use policyengine::policy_stack::PolicyStack;
use policyengine::tier::{CapabilityState, ConsentState, JurisdictionTag, Role};
use policyengine::transition::{CapabilityTransition, ValidationError};

#[test]
fn test_policy_stack_satisfied() {
    let stack = PolicyStack::new();
    assert!(stack.is_satisfied());
}

#[test]
fn test_policy_stack_not_satisfied() {
    let stack = PolicyStack {
        base_medical: vec![],
        base_engineering: vec![JurisdictionTag::IsoIec60601_1],
        juris_local: vec![],
        quantum_ai_safety: vec![JurisdictionTag::QuantumAiSafety],
    };
    assert!(!stack.is_satisfied());
}

#[test]
fn test_capability_transition_valid() {
    let mut policy = ALNPolicy::new();
    let transition = CapabilityTransition {
        from: CapabilityState::ModelOnly,
        to: CapabilityState::LabBench,
        required_evidence: vec!["cid:QmZ4HHEJgpNmDcc4yfqPQUjpA8nkMpN2JuaKPfsZKscbqR".to_string()],
        required_consent: ConsentState::Minimal,
        required_roles: vec![Role::Teacher],
        policy_stack: PolicyStack::new(),
        ltl_property: Some("G (capability_state != controlled_human)".to_string()),
    };
    assert!(transition.validate().is_ok());
    policy.add_transition(transition).unwrap();
}

#[test]
fn test_capability_transition_invalid_direct_model_to_controlled() {
    let transition = CapabilityTransition {
        from: CapabilityState::ModelOnly,
        to: CapabilityState::ControlledHuman,
        required_evidence: vec![],
        required_consent: ConsentState::Extended,
        required_roles: vec![Role::Teacher],
        policy_stack: PolicyStack::new(),
        ltl_property: None,
    };
    assert!(transition.validate().is_err());
}

#[test]
fn test_action_permitted_model_only() {
    let policy = ALNPolicy::new();
    assert!(policy.is_action_permitted(
        CapabilityState::ModelOnly,
        ConsentState::NoConsent,
        &[],
        "simulation_only_analysis"
    ));
}

#[test]
fn test_action_permitted_controlled_human_no_consent() {
    let policy = ALNPolicy::new();
    assert!(!policy.is_action_permitted(
        CapabilityState::ControlledHuman,
        ConsentState::NoConsent,
        &[Role::Learner],
        "live_coupling"
    ));
}

#[test]
fn test_prohibited_harms_blocked() {
    let policy = ALNPolicy::new();
    assert!(!policy.is_action_permitted(
        CapabilityState::GeneralUse,
        ConsentState::Extended,
        &[Role::Learner],
        "coercive neuromodulation"
    ));
}

#[test]
fn test_default_policy_structure() {
    let policy = ALNPolicy::new();
    assert_eq!(policy.default_capability, CapabilityState::ModelOnly);
    assert_eq!(policy.default_consent, ConsentState::NoConsent);
    assert_eq!(policy.default_roles.len(), 1);
    assert_eq!(policy.default_roles[0], Role::Learner);
}

fn transition(from: CapabilityState, to: CapabilityState) -> CapabilityTransition {
    CapabilityTransition {
        from,
        to,
        required_evidence: vec!["cid:evidence".to_string()],
        required_consent: ConsentState::Minimal,
        required_roles: vec![Role::Operator],
        policy_stack: PolicyStack::new(),
        ltl_property: None,
    }
}

#[test]
fn validate_reports_each_error() {
    assert_eq!(
        transition(CapabilityState::LabBench, CapabilityState::GeneralUse).validate(),
        Err(ValidationError::IllegalTierJump)
    );
    let mut t = transition(CapabilityState::ModelOnly, CapabilityState::LabBench);
    t.required_evidence.clear();
    assert_eq!(t.validate(), Err(ValidationError::MissingEvidence));
    let mut t = transition(CapabilityState::ModelOnly, CapabilityState::LabBench);
    t.required_consent = ConsentState::NoConsent;
    assert_eq!(t.validate(), Err(ValidationError::MissingConsent));
    let mut t = transition(CapabilityState::LabBench, CapabilityState::ControlledHuman);
    t.required_roles.clear();
    assert_eq!(t.validate(), Err(ValidationError::MissingRoles));
    let mut t = transition(CapabilityState::LabBench, CapabilityState::LabBench);
    t.policy_stack.juris_local.clear();
    assert_eq!(t.validate(), Err(ValidationError::PolicyStackNotSatisfied));
}

#[test]
fn validate_allows_rollback_edges_and_self_loops() {
    assert_eq!(transition(CapabilityState::GeneralUse, CapabilityState::ModelOnly).validate(), Ok(()));
    assert_eq!(transition(CapabilityState::ControlledHuman, CapabilityState::ControlledHuman).validate(), Ok(()));
    assert_eq!(transition(CapabilityState::ControlledHuman, CapabilityState::GeneralUse).validate(), Ok(()));
    let mut t = transition(CapabilityState::LabBench, CapabilityState::ModelOnly);
    t.required_evidence.clear();
    t.required_consent = ConsentState::NoConsent;
    t.required_roles.clear();
    assert_eq!(t.validate(), Ok(()));
}

#[test]
fn add_transition_rejects_and_keeps_list() {
    let mut policy = ALNPolicy::new();
    let bad = transition(CapabilityState::ModelOnly, CapabilityState::GeneralUse);
    assert_eq!(policy.add_transition(bad), Err(ValidationError::IllegalTierJump));
    assert!(policy.transitions.is_empty());
    policy.add_transition(transition(CapabilityState::ModelOnly, CapabilityState::LabBench)).unwrap();
    policy.add_transition(transition(CapabilityState::LabBench, CapabilityState::ControlledHuman)).unwrap();
    policy.add_transition(transition(CapabilityState::ModelOnly, CapabilityState::ModelOnly)).unwrap();
    let from_model = policy.valid_transitions_from(CapabilityState::ModelOnly);
    assert_eq!(from_model.len(), 2);
    assert_eq!(from_model[0].to, CapabilityState::LabBench);
    assert_eq!(from_model[1].to, CapabilityState::ModelOnly);
    assert_eq!(policy.valid_transitions_from(CapabilityState::GeneralUse).len(), 0);
}

#[test]
fn prohibited_harm_matches_case_insensitively_inside_label() {
    let policy = ALNPolicy::new();
    assert!(!policy.is_action_permitted(
        CapabilityState::ModelOnly,
        ConsentState::Extended,
        &[Role::Learner],
        "Plan: AUTOMATED Neuro-Behavioral Profiling of cohort"
    ));
    assert!(policy.is_action_permitted(
        CapabilityState::LabBench,
        ConsentState::Minimal,
        &[Role::Operator],
        "phantom calibration"
    ));
}

#[test]
fn action_needs_consent_and_role_above_model_only() {
    let policy = ALNPolicy::new();
    assert!(!policy.is_action_permitted(CapabilityState::LabBench, ConsentState::Revoked, &[Role::Operator], "x"));
    assert!(!policy.is_action_permitted(CapabilityState::LabBench, ConsentState::Extended, &[], "x"));
    assert!(policy.is_action_permitted(CapabilityState::GeneralUse, ConsentState::Extended, &[Role::Mentor], "x"));
}

#[test]
fn canonical_string_lists_every_group() {
    let stack = PolicyStack::new();
    assert_eq!(
        stack.to_canonical_string(),
        "BASE_MEDICAL: [Fda, EuMdr] | BASE_ENGINEERING: [IsoIec60601_1, IsoIec60601_1_2, IsoIec60601_2_57] | JURIS_LOCAL: [JurisLocal] | QUANTUM_AI_SAFETY: [QuantumAiSafety]"
    );
    let empty = PolicyStack {
        base_medical: vec![],
        base_engineering: vec![],
        juris_local: vec![],
        quantum_ai_safety: vec![],
    };
    assert_eq!(
        empty.to_canonical_string(),
        "BASE_MEDICAL: [] | BASE_ENGINEERING: [] | JURIS_LOCAL: [] | QUANTUM_AI_SAFETY: []"
    );
}
