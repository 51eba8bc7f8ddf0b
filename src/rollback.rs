use vstd::prelude::*;
use vstd::string::*;

use crate::ledger::{hexstamp_spec, seal_entry, utc_now_rfc3339, Ledger, LedgerEntry, LedgerError};

verus! {

/// Why a compensating rollback entry could not be made or appended.
#[derive(Clone, Debug, PartialEq, Eq)]
pub enum RollbackError {
    /// The offending index is 0 or past the end, so there is no entry before it.
    InvalidIndex,
    /// The two entries belong to different subjects.
    SubjectMismatch,
    /// The last safe risk is above the offending one: rolling back would raise risk.
    NothingToRollBack,
    /// The ledger refused the new entry.
    Ledger(LedgerError),
}

/// Mode recorded on every rollback entry.
pub open spec fn rollback_mode() -> Seq<char> {
    "Observe"@
}

/// The compensating entry for `offending`, restoring the risk of `last_safe`:
/// it continues the chain from `offending` and carries its own content hash.
pub open spec fn is_rollback_entry(
    e: LedgerEntry,
    offending: LedgerEntry,
    last_safe: LedgerEntry,
    new_entry_id: Seq<char>,
    timestamp_utc: Seq<char>,
) -> bool {
    &&& e.entry_id@ == new_entry_id
    &&& e.subject_id@ == offending.subject_id@
    &&& e.proposal_id@ == "rollback-"@ + offending.proposal_id@
    &&& e.change_type@ == "rollback-"@ + offending.change_type@
    &&& e.mode_tag@ == rollback_mode()
    &&& e.roh_before == offending.roh_after
    &&& e.roh_after == last_safe.roh_after
    &&& e.policy_refs@ == offending.policy_refs@
    &&& e.timestamp_utc@ == timestamp_utc
    &&& e.prev_hexstamp@ == offending.hexstamp@
    &&& e.hexstamp@ == hexstamp_spec(e)
}

/// The error, if any, for rolling `offending` back to `last_safe`.
pub open spec fn rollback_error(offending: LedgerEntry, last_safe: LedgerEntry) -> Option<RollbackError> {
    if offending.subject_id@ != last_safe.subject_id@ {
        Some(RollbackError::SubjectMismatch)
    } else if last_safe.roh_after > offending.roh_after {
        Some(RollbackError::NothingToRollBack)
    } else {
        None
    }
}

fn clone_strings(v: &Vec<String>) -> (r: Vec<String>)
    ensures
        r@ == v@,
{
    let mut r: Vec<String> = Vec::new();
    let mut i: usize = 0;
    while i < v.len()
        invariant
            i <= v@.len(),
            r@ == v@.take(i as int),
        decreases v@.len() - i,
    {
        r.push(v[i].clone());
        proof {
            assert(v@.take(i as int + 1) =~= v@.take(i as int).push(v@[i as int]));
        }
        i = i + 1;
    }
    assert(v@.take(v@.len() as int) =~= v@);
    r
}

/// Builds the compensating entry that rolls `offending` back to the risk of
/// `last_safe`, stamped with `timestamp_utc`. Refuses entries of different
/// subjects, and refuses when `last_safe.roh_after > offending.roh_after`:
/// a rollback may only lower or hold risk.
pub fn synthesize_rollback_at(
    offending: &LedgerEntry,
    last_safe: &LedgerEntry,
    new_entry_id: &str,
    timestamp_utc: &str,
) -> (r: Result<LedgerEntry, RollbackError>)
    ensures
        last_safe.roh_after > offending.roh_after ==> r is Err,
        match rollback_error(*offending, *last_safe) {
            Some(err) => r == Err::<LedgerEntry, RollbackError>(err),
            None => r is Ok && is_rollback_entry(
                r->Ok_0,
                *offending,
                *last_safe,
                new_entry_id@,
                timestamp_utc@,
            ),
        },
{
    if offending.subject_id != last_safe.subject_id {
        return Err(RollbackError::SubjectMismatch);
    }
    if last_safe.roh_after > offending.roh_after {
        return Err(RollbackError::NothingToRollBack);
    }
    let draft = LedgerEntry {
        entry_id: String::from_str(new_entry_id),
        subject_id: offending.subject_id.clone(),
        proposal_id: String::from_str("rollback-").concat(offending.proposal_id.as_str()),
        change_type: String::from_str("rollback-").concat(offending.change_type.as_str()),
        mode_tag: String::from_str("Observe"),
        roh_before: offending.roh_after,
        roh_after: last_safe.roh_after,
        policy_refs: clone_strings(&offending.policy_refs),
        timestamp_utc: String::from_str(timestamp_utc),
        hexstamp: String::new(),
        prev_hexstamp: offending.hexstamp.clone(),
    };
    let e = seal_entry(draft);
    Ok(e)
}

/// Builds the compensating entry as [`synthesize_rollback_at`] does, stamped
/// with the current UTC time.
pub fn synthesize_rollback(offending: &LedgerEntry, last_safe: &LedgerEntry, new_entry_id: &str) -> (r:
    Result<LedgerEntry, RollbackError>)
    ensures
        last_safe.roh_after > offending.roh_after ==> r is Err,
        match rollback_error(*offending, *last_safe) {
            Some(err) => r == Err::<LedgerEntry, RollbackError>(err),
            None => r is Ok && is_rollback_entry(
                r->Ok_0,
                *offending,
                *last_safe,
                new_entry_id@,
                r->Ok_0.timestamp_utc@,
            ),
        },
{
    let now = utc_now_rfc3339();
    synthesize_rollback_at(offending, last_safe, new_entry_id, now.as_str())
}

impl Ledger {
    /// Rolls back the entry at `tail_index` to the risk of the entry before it
    /// by appending a compensating entry stamped with the current UTC time. The
    /// index must name an entry with one before it; the offending entry must be
    /// the head of the chain, else the append is refused as a broken link.
    pub fn rollback_violation(&mut self, tail_index: usize, new_entry_id: &str) -> (r: Result<
        (),
        RollbackError,
    >)
        ensures
            final(self).genesis_view() == old(self).genesis_view(),
            tail_index == 0 || tail_index >= old(self).entries_view().len() ==> r
                == Err::<(), RollbackError>(RollbackError::InvalidIndex),
            0 < tail_index < old(self).entries_view().len() ==> {
                let offending = old(self).entries_view()[tail_index as int];
                let last_safe = old(self).entries_view()[tail_index - 1];
                match rollback_error(offending, last_safe) {
                    Some(err) => r == Err::<(), RollbackError>(err),
                    None => if offending.hexstamp@ == old(self).head_spec() {
                        r is Ok
                    } else {
                        r == Err::<(), RollbackError>(
                            RollbackError::Ledger(LedgerError::ChainLinkMismatch),
                        )
                    },
                }
            },
            r is Ok ==> exists|e: LedgerEntry|
                {
                    &&& final(self).entries_view() == old(self).entries_view().push(e)
                    &&& is_rollback_entry(
                        e,
                        old(self).entries_view()[tail_index as int],
                        old(self).entries_view()[tail_index - 1],
                        new_entry_id@,
                        e.timestamp_utc@,
                    )
                },
            r is Err ==> final(self).entries_view() == old(self).entries_view(),
    {
        let n = self.len();
        if tail_index == 0 || tail_index >= n {
            return Err(RollbackError::InvalidIndex);
        }
        let made = {
            let entries = self.entries();
            synthesize_rollback(&entries[tail_index], &entries[tail_index - 1], new_entry_id)
        };
        let e = match made {
            Ok(e) => e,
            Err(err) => return Err(err),
        };
        let ghost made_entry = e;
        match self.append(e) {
            Ok(()) => {
                assert(final(self).entries_view() == old(self).entries_view().push(made_entry));
                Ok(())
            },
            Err(err) => Err(RollbackError::Ledger(err)),
        }
    }
}

} // verus!
