use vstd::prelude::*;
use vstd::string::*;

use crate::tier::JurisdictionTag;

verus! {

/// Four jurisdiction-tag groups. The stack is satisfied when every group is
/// non-empty; the tags' content is not validated.
#[derive(Clone, Debug)]
pub struct PolicyStack {
    pub base_medical: Vec<JurisdictionTag>,
    pub base_engineering: Vec<JurisdictionTag>,
    pub juris_local: Vec<JurisdictionTag>,
    pub quantum_ai_safety: Vec<JurisdictionTag>,
}

/// The structural presence check: all four groups hold at least one tag.
pub open spec fn stack_satisfied(p: PolicyStack) -> bool {
    &&& p.base_medical@.len() > 0
    &&& p.base_engineering@.len() > 0
    &&& p.juris_local@.len() > 0
    &&& p.quantum_ai_safety@.len() > 0
}

/// Name of a tag as it appears in the canonical text.
pub open spec fn tag_text(t: JurisdictionTag) -> Seq<char> {
    match t {
        JurisdictionTag::Fda => "Fda"@,
        JurisdictionTag::EuMdr => "EuMdr"@,
        JurisdictionTag::IsoIec60601_1 => "IsoIec60601_1"@,
        JurisdictionTag::IsoIec60601_2_57 => "IsoIec60601_2_57"@,
        JurisdictionTag::IsoIec60601_1_2 => "IsoIec60601_1_2"@,
        JurisdictionTag::JurisLocal => "JurisLocal"@,
        JurisdictionTag::QuantumAiSafety => "QuantumAiSafety"@,
    }
}

/// Tag names separated by `", "`.
pub open spec fn joined_tags(s: Seq<JurisdictionTag>) -> Seq<char>
    decreases s.len(),
{
    if s.len() == 0 {
        Seq::empty()
    } else if s.len() == 1 {
        tag_text(s[0])
    } else {
        joined_tags(s.drop_last()) + ", "@ + tag_text(s.last())
    }
}

/// A bracketed, comma-separated tag list such as `[Fda, EuMdr]`.
pub open spec fn tag_list_text(s: Seq<JurisdictionTag>) -> Seq<char> {
    "["@ + joined_tags(s) + "]"@
}

/// The canonical one-line rendering of a policy stack.
pub open spec fn canonical_text(p: PolicyStack) -> Seq<char> {
    "BASE_MEDICAL: "@ + tag_list_text(p.base_medical@) + " | BASE_ENGINEERING: "@
        + tag_list_text(p.base_engineering@) + " | JURIS_LOCAL: "@ + tag_list_text(
        p.juris_local@,
    ) + " | QUANTUM_AI_SAFETY: "@ + tag_list_text(p.quantum_ai_safety@)
}

fn tag_name(t: JurisdictionTag) -> (r: &'static str)
    ensures
        r@ == tag_text(t),
{
    match t {
        JurisdictionTag::Fda => "Fda",
        JurisdictionTag::EuMdr => "EuMdr",
        JurisdictionTag::IsoIec60601_1 => "IsoIec60601_1",
        JurisdictionTag::IsoIec60601_2_57 => "IsoIec60601_2_57",
        JurisdictionTag::IsoIec60601_1_2 => "IsoIec60601_1_2",
        JurisdictionTag::JurisLocal => "JurisLocal",
        JurisdictionTag::QuantumAiSafety => "QuantumAiSafety",
    }
}

/// Appends the bracketed tag list to `out`.
fn append_tag_list(out: &mut String, tags: &Vec<JurisdictionTag>)
    ensures
        final(out)@ == old(out)@ + tag_list_text(tags@),
{
    let ghost start = out@;
    out.append("[");
    let mut i: usize = 0;
    while i < tags.len()
        invariant
            i <= tags@.len(),
            out@ == start + "["@ + joined_tags(tags@.take(i as int)),
        decreases tags@.len() - i,
    {
        if i > 0 {
            out.append(", ");
        }
        out.append(tag_name(tags[i]));
        proof {
            let next = tags@.take(i as int + 1);
            assert(next.drop_last() =~= tags@.take(i as int));
            assert(next.last() == tags@[i as int]);
            if i == 0 {
                assert(tags@.take(0) =~= Seq::<JurisdictionTag>::empty());
                assert(next.len() == 1);
                assert(next[0] == tags@[0]);
            }
        }
        i = i + 1;
    }
    assert(tags@.take(tags@.len() as int) =~= tags@);
    out.append("]");
}

impl PolicyStack {
    /// The default stack: FDA and EU MDR for medicine, the IEC 60601 family for
    /// engineering, a local-jurisdiction tag, and the quantum-AI-safety tag.
    pub fn new() -> (r: PolicyStack)
        ensures
            r.base_medical@ == seq![JurisdictionTag::Fda, JurisdictionTag::EuMdr],
            r.base_engineering@ == seq![
                JurisdictionTag::IsoIec60601_1,
                JurisdictionTag::IsoIec60601_1_2,
                JurisdictionTag::IsoIec60601_2_57,
            ],
            r.juris_local@ == seq![JurisdictionTag::JurisLocal],
            r.quantum_ai_safety@ == seq![JurisdictionTag::QuantumAiSafety],
            stack_satisfied(r),
    {
        let r = PolicyStack {
            base_medical: vec![JurisdictionTag::Fda, JurisdictionTag::EuMdr],
            base_engineering: vec![
                JurisdictionTag::IsoIec60601_1,
                JurisdictionTag::IsoIec60601_1_2,
                JurisdictionTag::IsoIec60601_2_57,
            ],
            juris_local: vec![JurisdictionTag::JurisLocal],
            quantum_ai_safety: vec![JurisdictionTag::QuantumAiSafety],
        };
        assert(r.base_medical@ =~= seq![JurisdictionTag::Fda, JurisdictionTag::EuMdr]);
        assert(r.base_engineering@ =~= seq![
            JurisdictionTag::IsoIec60601_1,
            JurisdictionTag::IsoIec60601_1_2,
            JurisdictionTag::IsoIec60601_2_57,
        ]);
        assert(r.juris_local@ =~= seq![JurisdictionTag::JurisLocal]);
        assert(r.quantum_ai_safety@ =~= seq![JurisdictionTag::QuantumAiSafety]);
        r
    }

    /// True when all four groups are non-empty.
    pub fn is_satisfied(&self) -> (r: bool)
        ensures
            r == stack_satisfied(*self),
    {
        !self.base_medical.is_empty() && !self.base_engineering.is_empty()
            && !self.juris_local.is_empty() && !self.quantum_ai_safety.is_empty()
    }

    /// One-line text of the four groups, e.g.
    /// `BASE_MEDICAL: [Fda, EuMdr] | BASE_ENGINEERING: [...] | JURIS_LOCAL: [...] | QUANTUM_AI_SAFETY: [...]`.
    pub fn to_canonical_string(&self) -> (r: String)
        ensures
            r@ == canonical_text(*self),
    {
        let mut out = String::new();
        out.append("BASE_MEDICAL: ");
        append_tag_list(&mut out, &self.base_medical);
        out.append(" | BASE_ENGINEERING: ");
        append_tag_list(&mut out, &self.base_engineering);
        out.append(" | JURIS_LOCAL: ");
        append_tag_list(&mut out, &self.juris_local);
        out.append(" | QUANTUM_AI_SAFETY: ");
        append_tag_list(&mut out, &self.quantum_ai_safety);
        out
    }
}

} // verus!
