use vstd::prelude::*;
use vstd::string::*;

use crate::risk::RohScore;
use crate::text::{append_decimal, decimal_text};

verus! {

/// BLAKE3 digest of a text's UTF-8 bytes, as lowercase hex.
pub uninterp spec fn blake3_hex_of(text: Seq<char>) -> Seq<char>;

/// Relies on `blake3::hash` and `Hash::to_hex`: the digest of the text's
/// UTF-8 bytes as 64 lowercase hex digits, a function of the text alone.
#[verifier::external_body]
fn blake3_hex(text: &str) -> (r: String)
    ensures
        r@ == blake3_hex_of(text@),
        r@.len() == 64,
{
    blake3::hash(text.as_bytes()).to_hex().as_str().to_string()
}

/// Relies on `chrono::Utc::now` and `DateTime::to_rfc3339`: the current UTC
/// time as RFC 3339 text. Nothing is promised of its value.
#[verifier::external_body]
pub(crate) fn utc_now_rfc3339() -> (r: String) {
    chrono::Utc::now().to_rfc3339()
}

/// One record of the ledger. Risk values are in millionths.
#[derive(Clone, Debug)]
pub struct LedgerEntry {
    pub entry_id: String,
    pub subject_id: String,
    pub proposal_id: String,
    pub change_type: String,
    pub mode_tag: String,
    pub roh_before: RohScore,
    pub roh_after: RohScore,
    pub policy_refs: Vec<String>,
    pub timestamp_utc: String,
    /// Content hash of this entry's other fields and `prev_hexstamp`.
    pub hexstamp: String,
    /// Hexstamp of the entry before, or the ledger's genesis sentinel.
    pub prev_hexstamp: String,
}

/// A length-prefixed field: decimal length, a colon, then the text.
pub open spec fn field_text(s: Seq<char>) -> Seq<char> {
    decimal_text(s.len()) + ":"@ + s
}

/// The policy references, each as a length-prefixed field.
pub open spec fn refs_text(refs: Seq<String>) -> Seq<char>
    decreases refs.len(),
{
    if refs.len() == 0 {
        Seq::empty()
    } else {
        refs_text(refs.drop_last()) + field_text(refs.last()@)
    }
}

/// Canonical text of every field but `hexstamp` and `prev_hexstamp`.
pub open spec fn payload_text(e: LedgerEntry) -> Seq<char> {
    field_text(e.entry_id@) + field_text(e.subject_id@) + field_text(e.proposal_id@) + field_text(
        e.change_type@,
    ) + field_text(e.mode_tag@) + field_text(decimal_text(e.roh_before as nat)) + field_text(
        decimal_text(e.roh_after as nat),
    ) + decimal_text(e.policy_refs@.len()) + ":"@ + refs_text(e.policy_refs@) + field_text(
        e.timestamp_utc@,
    )
}

/// The hexstamp an entry must carry: the hash of its payload followed by its
/// `prev_hexstamp`.
pub open spec fn hexstamp_spec(e: LedgerEntry) -> Seq<char> {
    blake3_hex_of(payload_text(e) + e.prev_hexstamp@)
}

/// What entry `i` must link to: the genesis sentinel, or the hexstamp before it.
pub open spec fn expected_prev(genesis: Seq<char>, entries: Seq<LedgerEntry>, i: int) -> Seq<char> {
    if i == 0 {
        genesis
    } else {
        entries[i - 1].hexstamp@
    }
}

/// Hexstamp that the next appended entry must link to.
pub open spec fn head_of(genesis: Seq<char>, entries: Seq<LedgerEntry>) -> Seq<char> {
    expected_prev(genesis, entries, entries.len() as int)
}

/// Every entry links to its predecessor and carries its own content hash.
pub open spec fn chain_valid(genesis: Seq<char>, entries: Seq<LedgerEntry>) -> bool {
    forall|i: int|
        0 <= i < entries.len() ==> {
            &&& (#[trigger] entries[i]).prev_hexstamp@ == expected_prev(genesis, entries, i)
            &&& entries[i].hexstamp@ == hexstamp_spec(entries[i])
        }
}

/// Chain integrity for any number of appends: the empty chain is valid, and an
/// entry that links to the head and carries its own content hash keeps a valid
/// chain valid. Recomputing every entry's hash then reproduces what is stored.
pub proof fn lemma_chain_round_trip(genesis: Seq<char>, entries: Seq<LedgerEntry>, e: LedgerEntry)
    ensures
        chain_valid(genesis, Seq::empty()),
        chain_valid(genesis, entries) && e.prev_hexstamp@ == head_of(genesis, entries)
            && e.hexstamp@ == hexstamp_spec(e) ==> chain_valid(genesis, entries.push(e)),
        chain_valid(genesis, entries) ==> forall|i: int|
            0 <= i < entries.len() ==> (#[trigger] entries[i]).hexstamp@ == hexstamp_spec(entries[i]),
{
    if chain_valid(genesis, entries) && e.prev_hexstamp@ == head_of(genesis, entries)
        && e.hexstamp@ == hexstamp_spec(e) {
        let s = entries.push(e);
        assert forall|i: int| 0 <= i < s.len() implies {
            &&& (#[trigger] s[i]).prev_hexstamp@ == expected_prev(genesis, s, i)
            &&& s[i].hexstamp@ == hexstamp_spec(s[i])
        } by {
            if i < entries.len() {
                assert(s[i] == entries[i]);
                if i > 0 {
                    assert(s[i - 1] == entries[i - 1]);
                }
            } else {
                if i > 0 {
                    assert(s[i - 1] == entries[i - 1]);
                }
            }
        }
    }
}

/// Appends `s` as a length-prefixed field.
fn append_field(out: &mut String, s: &str)
    ensures
        final(out)@ == old(out)@ + field_text(s@),
{
    let n = s.unicode_len();
    append_decimal(out, n as u64);
    out.append(":");
    out.append(s);
}

/// Appends a decimal number as a length-prefixed field.
fn append_number_field(out: &mut String, n: u32)
    ensures
        final(out)@ == old(out)@ + field_text(decimal_text(n as nat)),
{
    let mut digits = String::new();
    append_decimal(&mut digits, n as u64);
    append_field(out, digits.as_str());
}

/// The hash input of an entry: its payload text followed by `prev_hexstamp`.
pub fn hash_input(e: &LedgerEntry) -> (r: String)
    ensures
        r@ == payload_text(*e) + e.prev_hexstamp@,
{
    let mut out = String::new();
    append_field(&mut out, e.entry_id.as_str());
    append_field(&mut out, e.subject_id.as_str());
    append_field(&mut out, e.proposal_id.as_str());
    append_field(&mut out, e.change_type.as_str());
    append_field(&mut out, e.mode_tag.as_str());
    append_number_field(&mut out, e.roh_before);
    append_number_field(&mut out, e.roh_after);
    let ghost before_refs = out@;
    append_decimal(&mut out, e.policy_refs.len() as u64);
    out.append(":");
    let ghost refs_start = out@;
    let mut i: usize = 0;
    while i < e.policy_refs.len()
        invariant
            i <= e.policy_refs@.len(),
            out@ == refs_start + refs_text(e.policy_refs@.take(i as int)),
        decreases e.policy_refs@.len() - i,
    {
        proof {
            let next = e.policy_refs@.take(i as int + 1);
            assert(next.drop_last() =~= e.policy_refs@.take(i as int));
            assert(next.last() == e.policy_refs@[i as int]);
        }
        append_field(&mut out, e.policy_refs[i].as_str());
        i = i + 1;
    }
    assert(e.policy_refs@.take(e.policy_refs@.len() as int) =~= e.policy_refs@);
    append_field(&mut out, e.timestamp_utc.as_str());
    out.append(e.prev_hexstamp.as_str());
    out
}

/// The content hash that `e` must carry as its hexstamp.
pub fn compute_hexstamp(e: &LedgerEntry) -> (r: String)
    ensures
        r@ == hexstamp_spec(*e),
{
    let input = hash_input(e);
    blake3_hex(input.as_str())
}

/// Returns `e` with its hexstamp set to its content hash.
pub fn seal_entry(e: LedgerEntry) -> (r: LedgerEntry)
    ensures
        r.hexstamp@ == hexstamp_spec(r),
        r.entry_id == e.entry_id,
        r.subject_id == e.subject_id,
        r.proposal_id == e.proposal_id,
        r.change_type == e.change_type,
        r.mode_tag == e.mode_tag,
        r.roh_before == e.roh_before,
        r.roh_after == e.roh_after,
        r.policy_refs == e.policy_refs,
        r.timestamp_utc == e.timestamp_utc,
        r.prev_hexstamp == e.prev_hexstamp,
{
    let mut r = e;
    r.hexstamp = compute_hexstamp(&r);
    r
}

/// Why an append was refused or failed.
#[derive(Clone, Debug, PartialEq, Eq)]
pub enum LedgerError {
    /// The storage write failed; the caller may retry.
    IoError(String),
    /// The entry could not be serialised for storage.
    SerializationError(String),
    /// `prev_hexstamp` does not name the current head of the chain.
    ChainLinkMismatch,
    /// `hexstamp` is not the entry's content hash.
    HexstampMismatch,
}

/// An append-only, hash-chained sequence of entries, oldest first. Entries are
/// never removed or reordered; undo is a new compensating entry.
#[derive(Debug)]
pub struct Ledger {
    genesis_hexstamp: String,
    entries: Vec<LedgerEntry>,
}

impl Ledger {
    #[verifier::type_invariant]
    spec fn chain_intact(&self) -> bool {
        chain_valid(self.genesis_hexstamp@, self.entries@)
    }

    /// The genesis sentinel that the first entry links to.
    pub closed spec fn genesis_view(&self) -> Seq<char> {
        self.genesis_hexstamp@
    }

    /// The entries, oldest first.
    pub closed spec fn entries_view(&self) -> Seq<LedgerEntry> {
        self.entries@
    }

    /// The hexstamp that the next entry must link to.
    pub open spec fn head_spec(&self) -> Seq<char> {
        head_of(self.genesis_view(), self.entries_view())
    }

    /// An empty ledger whose first entry must link to `genesis_hexstamp`.
    pub fn new(genesis_hexstamp: String) -> (r: Ledger)
        ensures
            r.genesis_view() == genesis_hexstamp@,
            r.entries_view() == Seq::<LedgerEntry>::empty(),
    {
        Ledger { genesis_hexstamp, entries: Vec::new() }
    }

    /// The entries, oldest first. Each links to the one before it and carries
    /// its own content hash.
    pub fn entries(&self) -> (r: &Vec<LedgerEntry>)
        ensures
            r@ == self.entries_view(),
            chain_valid(self.genesis_view(), r@),
    {
        proof {
            use_type_invariant(self);
        }
        &self.entries
    }

    /// The genesis sentinel.
    pub fn genesis_hexstamp(&self) -> (r: &String)
        ensures
            r@ == self.genesis_view(),
    {
        &self.genesis_hexstamp
    }

    /// Number of entries.
    pub fn len(&self) -> (r: usize)
        ensures
            r == self.entries_view().len(),
    {
        self.entries.len()
    }

    /// The hexstamp that the next entry must carry as `prev_hexstamp`.
    pub fn head_hexstamp(&self) -> (r: &String)
        ensures
            r@ == self.head_spec(),
    {
        if self.entries.len() == 0 {
            &self.genesis_hexstamp
        } else {
            &self.entries[self.entries.len() - 1].hexstamp
        }
    }

    /// Appends `entry` after checking that it links to the head and carries
    /// its own content hash; on any error the ledger is unchanged.
    pub fn append(&mut self, entry: LedgerEntry) -> (r: Result<(), LedgerError>)
        ensures
            final(self).genesis_view() == old(self).genesis_view(),
            entry.prev_hexstamp@ != old(self).head_spec() ==> r == Err::<(), LedgerError>(
                LedgerError::ChainLinkMismatch,
            ),
            entry.prev_hexstamp@ == old(self).head_spec() && entry.hexstamp@ != hexstamp_spec(entry)
                ==> r == Err::<(), LedgerError>(LedgerError::HexstampMismatch),
            r is Ok <==> (entry.prev_hexstamp@ == old(self).head_spec() && entry.hexstamp@
                == hexstamp_spec(entry)),
            r is Ok ==> final(self).entries_view() == old(self).entries_view().push(entry),
            r is Err ==> final(self).entries_view() == old(self).entries_view(),
    {
        proof {
            use_type_invariant(&*self);
        }
        let link_ok = {
            let head = self.head_hexstamp();
            entry.prev_hexstamp == *head
        };
        if !link_ok {
            return Err(LedgerError::ChainLinkMismatch);
        }
        let expected = compute_hexstamp(&entry);
        if entry.hexstamp != expected {
            return Err(LedgerError::HexstampMismatch);
        }
        proof {
            lemma_chain_round_trip(self.genesis_hexstamp@, self.entries@, entry);
        }
        let mut grown: Vec<LedgerEntry> = Vec::new();
        std::mem::swap(&mut grown, &mut self.entries);
        grown.push(entry);
        self.entries = grown;
        Ok(())
    }

    /// Recomputes every entry's hash and link and reports whether all match.
    /// For a ledger built by `new` and `append` this is always true.
    pub fn verify_chain(&self) -> (r: bool)
        ensures
            r == chain_valid(self.genesis_view(), self.entries_view()),
            r,
    {
        proof {
            use_type_invariant(self);
        }
        let mut i: usize = 0;
        while i < self.entries.len()
            invariant
                i <= self.entries@.len(),
                chain_valid(self.genesis_hexstamp@, self.entries@),
            decreases self.entries@.len() - i,
        {
            let e = &self.entries[i];
            let prev_ok = if i == 0 {
                e.prev_hexstamp == self.genesis_hexstamp
            } else {
                e.prev_hexstamp == self.entries[i - 1].hexstamp
            };
            let hash_ok = e.hexstamp == compute_hexstamp(e);
            if !(prev_ok && hash_ok) {
                assert(self.entries@[i as int] == *e);
                return false;
            }
            i = i + 1;
        }
        true
    }
}

} // verus!
