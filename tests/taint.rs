use policyengine::taint::{CriticalType, DiagnosticJoinPoint, TaintPolicy, TrustedWriter};

#[test]
fn critical_types_are_recognised_by_path() {
    let t = TaintPolicy::new();
    assert!(t.is_critical_type("crate::tier::CapabilityState"));
    assert!(t.is_critical_type("crate::risk::RohScore"));
    assert!(!t.is_critical_type("crate::tier::CapabilityStat"));
    assert!(!t.is_critical_type("crate::ledger::Ledger"));
    let mut narrow = TaintPolicy::new();
    narrow.critical_types = vec![CriticalType::Decision];
    assert!(!narrow.is_critical_type("crate::tier::CapabilityState"));
    assert!(narrow.is_critical_type("crate::kernel::Decision"));
}

#[test]
fn trusted_writers_are_the_write_surface() {
    let t = TaintPolicy::new();
    assert!(t.is_trusted_writer("crate::kernel::evaluate_reversal"));
    assert!(t.is_trusted_writer("crate::ledger::Ledger::append"));
    assert!(!t.is_trusted_writer("crate::aln_policy::ALNPolicy::add_transition"));
    let mut none = TaintPolicy::new();
    none.trusted_writers = vec![TrustedWriter::LedgerAppend];
    assert!(!none.is_trusted_writer("crate::kernel::evaluate_reversal"));
}

#[test]
fn reader_modules_match_by_prefix() {
    let t = TaintPolicy::new();
    assert!(t.is_trusted_reader_module("crate::envelope"));
    assert!(t.is_trusted_reader_module("crate::treeoflife::view"));
    assert!(!t.is_trusted_reader_module("crate::kernel"));
    assert!(!t.is_trusted_reader_module("crate::env"));
}

#[test]
fn single_diagnostic_join_point() {
    let t = TaintPolicy::new();
    assert_eq!(t.diagnostic_join, DiagnosticJoinPoint::ComputeNoSaferAlternative);
    assert!(t.is_diag_join_point("crate::diagnostics::compute_no_safer_alternative"));
    assert!(!t.is_diag_join_point("crate::diagnostics::compute_no_safer_alternative2"));
}
