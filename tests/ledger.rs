use policyengine::ledger::{compute_hexstamp, hash_input, seal_entry, Ledger, LedgerEntry, LedgerError};
use policyengine::rollback::{synthesize_rollback, synthesize_rollback_at, RollbackError};

const GENESIS: &str = "0xLEDGER-GENESIS";

fn draft(id: &str, subject: &str, before: u32, after: u32, prev: &str) -> LedgerEntry {
    LedgerEntry {
        entry_id: id.to_string(),
        subject_id: subject.to_string(),
        proposal_id: format!("prop-{}", id),
        change_type: "tighten".to_string(),
        mode_tag: "Enforce".to_string(),
        roh_before: before,
        roh_after: after,
        policy_refs: vec!["policy-0001-2026".to_string(), "juris:local".to_string()],
        timestamp_utc: "2026-01-01T00:00:00+00:00".to_string(),
        hexstamp: String::new(),
        prev_hexstamp: prev.to_string(),
    }
}

fn build(n: usize) -> Ledger {
    let mut ledger = Ledger::new(GENESIS.to_string());
    for i in 0..n {
        let prev = ledger.head_hexstamp().clone();
        let e = seal_entry(draft(&format!("e{}", i), "subject-1", 200_000, 150_000, &prev));
        ledger.append(e).unwrap();
    }
    ledger
}

#[test]
fn hash_input_is_length_prefixed_payload_then_prev() {
    let e = LedgerEntry {
        entry_id: "e1".to_string(),
        subject_id: "s".to_string(),
        proposal_id: "p".to_string(),
        change_type: "c".to_string(),
        mode_tag: "m".to_string(),
        roh_before: 280_000,
        roh_after: 7,
        policy_refs: vec!["ab".to_string(), "".to_string()],
        timestamp_utc: "t".to_string(),
        hexstamp: "ignored".to_string(),
        prev_hexstamp: "PREV".to_string(),
    };
    assert_eq!(hash_input(&e), "2:e11:s1:p1:c1:m6:2800001:72:2:ab0:1:tPREV");
}

#[test]
fn hexstamp_is_blake3_of_hash_input() {
    let e = draft("e0", "subject-1", 1, 0, GENESIS);
    let input = hash_input(&e);
    let expected = blake3::hash(input.as_bytes()).to_hex().to_string();
    let got = compute_hexstamp(&e);
    assert_eq!(got, expected);
    assert_eq!(got.len(), 64);
    assert_ne!(got, input);
    let mut other = e.clone();
    other.roh_after = 1;
    assert_ne!(compute_hexstamp(&other), got);
}

#[test]
fn chain_round_trip_for_several_lengths() {
    for n in [0usize, 1, 2, 5] {
        let ledger = build(n);
        assert_eq!(ledger.len(), n);
        assert!(ledger.verify_chain());
        let entries = ledger.entries();
        for (i, e) in entries.iter().enumerate() {
            assert_eq!(compute_hexstamp(e), e.hexstamp);
            let expected_prev = if i == 0 { GENESIS.to_string() } else { entries[i - 1].hexstamp.clone() };
            assert_eq!(e.prev_hexstamp, expected_prev);
        }
    }
}

#[test]
fn append_rejects_broken_link() {
    let mut ledger = build(2);
    let stale = seal_entry(draft("x", "subject-1", 1, 0, GENESIS));
    assert_eq!(ledger.append(stale), Err(LedgerError::ChainLinkMismatch));
    assert_eq!(ledger.len(), 2);
}

#[test]
fn append_rejects_wrong_hexstamp() {
    let mut ledger = build(1);
    let prev = ledger.head_hexstamp().clone();
    let mut e = seal_entry(draft("x", "subject-1", 1, 0, &prev));
    e.roh_after = 1;
    assert_eq!(ledger.append(e), Err(LedgerError::HexstampMismatch));
    assert_eq!(ledger.len(), 1);
    assert_eq!(ledger.genesis_hexstamp(), GENESIS);
}

#[test]
fn rollback_restores_last_safe_risk() {
    let offending = seal_entry(draft("e1", "subject-1", 150_000, 250_000, "h0"));
    let last_safe = seal_entry(draft("e0", "subject-1", 200_000, 150_000, GENESIS));
    let r = synthesize_rollback_at(&offending, &last_safe, "rb-1", "2026-02-02T00:00:00+00:00").unwrap();
    assert_eq!(r.entry_id, "rb-1");
    assert_eq!(r.subject_id, "subject-1");
    assert_eq!(r.proposal_id, "rollback-prop-e1");
    assert_eq!(r.change_type, "rollback-tighten");
    assert_eq!(r.mode_tag, "Observe");
    assert_eq!(r.roh_before, 250_000);
    assert_eq!(r.roh_after, 150_000);
    assert_eq!(r.policy_refs, offending.policy_refs);
    assert_eq!(r.timestamp_utc, "2026-02-02T00:00:00+00:00");
    assert_eq!(r.prev_hexstamp, offending.hexstamp);
    assert_eq!(r.hexstamp, compute_hexstamp(&r));
}

#[test]
fn rollback_refuses_raising_risk_and_subject_mismatch() {
    let offending = seal_entry(draft("e1", "subject-1", 150_000, 100_000, "h0"));
    let last_safe = seal_entry(draft("e0", "subject-1", 200_000, 100_001, GENESIS));
    assert_eq!(
        synthesize_rollback_at(&offending, &last_safe, "rb", "t").unwrap_err(),
        RollbackError::NothingToRollBack
    );
    assert_eq!(
        synthesize_rollback(&offending, &last_safe, "rb").unwrap_err(),
        RollbackError::NothingToRollBack
    );
    let equal = seal_entry(draft("e0", "subject-1", 200_000, 100_000, GENESIS));
    assert!(synthesize_rollback(&offending, &equal, "rb").is_ok());
    let other = seal_entry(draft("e0", "subject-2", 200_000, 50_000, GENESIS));
    assert_eq!(
        synthesize_rollback_at(&offending, &other, "rb", "t").unwrap_err(),
        RollbackError::SubjectMismatch
    );
}

#[test]
fn rollback_violation_appends_compensating_entry() {
    let mut ledger = Ledger::new(GENESIS.to_string());
    let e0 = seal_entry(draft("e0", "subject-1", 200_000, 150_000, GENESIS));
    ledger.append(e0).unwrap();
    let prev = ledger.head_hexstamp().clone();
    let e1 = seal_entry(draft("e1", "subject-1", 150_000, 280_000, &prev));
    ledger.append(e1).unwrap();
    ledger.rollback_violation(1, "rb-1").unwrap();
    assert_eq!(ledger.len(), 3);
    let rb = &ledger.entries()[2];
    assert_eq!(rb.roh_before, 280_000);
    assert_eq!(rb.roh_after, 150_000);
    assert_eq!(rb.prev_hexstamp, ledger.entries()[1].hexstamp);
    assert!(ledger.verify_chain());
}

#[test]
fn rollback_violation_errors() {
    let mut ledger = build(3);
    assert_eq!(ledger.rollback_violation(0, "rb"), Err(RollbackError::InvalidIndex));
    assert_eq!(ledger.rollback_violation(3, "rb"), Err(RollbackError::InvalidIndex));
    // Index 1 is not the head: the compensating entry would not link.
    assert_eq!(
        ledger.rollback_violation(1, "rb"),
        Err(RollbackError::Ledger(LedgerError::ChainLinkMismatch))
    );
    assert_eq!(ledger.len(), 3);
}
