use vstd::prelude::*;
use vstd::string::*;

use crate::policy_stack::PolicyStack;
use crate::text::{contains_text, occurs_in};
use crate::tier::{consent_ok, consent_ok_spec, CapabilityState, ConsentState, Role};
use crate::transition::{validate_spec, CapabilityTransition, ValidationError};

verus! {

/// Unicode lowercase mapping of a text.
pub uninterp spec fn lowercase_of(s: Seq<char>) -> Seq<char>;

/// Relies on `str::to_lowercase`: the Unicode lowercase mapping, which
/// depends on the characters alone; an empty text stays empty.
#[verifier::external_body]
fn to_lower(s: &str) -> (r: String)
    ensures
        r@ == lowercase_of(s@),
        s@.len() == 0 ==> r@.len() == 0,
{
    s.to_lowercase()
}

/// A policy: its stack, the transitions it has accepted, the harms it
/// prohibits, and the defaults for a new subject.
#[derive(Clone, Debug)]
pub struct ALNPolicy {
    pub id: String,
    pub policy_stack: PolicyStack,
    pub transitions: Vec<CapabilityTransition>,
    /// Names of prohibited harms, matched case-insensitively within action labels.
    pub prohibited_harms: Vec<String>,
    pub default_capability: CapabilityState,
    pub default_consent: ConsentState,
    pub default_roles: Vec<Role>,
}

/// Whether some (lowercased) prohibited harm occurs in the (lowercased) action label.
pub open spec fn matches_prohibited(harms_lower: Seq<Seq<char>>, action_lower: Seq<char>) -> bool {
    exists|k: int| 0 <= k < harms_lower.len() && occurs_in(#[trigger] harms_lower[k], action_lower)
}

/// The permission rule, over lowercased harms and label: a prohibited harm
/// blocks everything; ModelOnly permits the rest; above it consent must be
/// Minimal or Extended and at least one role present.
pub open spec fn permitted_spec(
    harms_lower: Seq<Seq<char>>,
    action_lower: Seq<char>,
    state: CapabilityState,
    consent: ConsentState,
    n_roles: nat,
) -> bool {
    if matches_prohibited(harms_lower, action_lower) {
        false
    } else if state == CapabilityState::ModelOnly {
        true
    } else if !consent_ok_spec(consent) {
        false
    } else {
        n_roles > 0
    }
}

/// The views of a list of strings.
pub open spec fn texts_of(v: Seq<String>) -> Seq<Seq<char>> {
    v.map_values(|s: String| s@)
}

/// The lowercase mapping of each string of a list.
pub open spec fn lowered_texts(v: Seq<String>) -> Seq<Seq<char>> {
    v.map_values(|s: String| lowercase_of(s@))
}

/// Transitions in `ts` that start from `from`, in order.
pub open spec fn transitions_from(ts: Seq<CapabilityTransition>, from: CapabilityState) -> Seq<
    CapabilityTransition,
>
    decreases ts.len(),
{
    if ts.len() == 0 {
        Seq::empty()
    } else if ts.last().from == from {
        transitions_from(ts.drop_last(), from).push(ts.last())
    } else {
        transitions_from(ts.drop_last(), from)
    }
}

/// Decides an action from lowercased harm names and a lowercased action label.
pub fn action_permitted_lowered(
    harms_lower: &Vec<String>,
    current_state: CapabilityState,
    consent: ConsentState,
    roles: &[Role],
    action_lower: &str,
) -> (r: bool)
    ensures
        r == permitted_spec(
            texts_of(harms_lower@),
            action_lower@,
            current_state,
            consent,
            roles@.len(),
        ),
{
    let ghost harms = texts_of(harms_lower@);
    let mut k: usize = 0;
    while k < harms_lower.len()
        invariant
            k <= harms_lower@.len(),
            harms == texts_of(harms_lower@),
            forall|m: int| 0 <= m < k ==> !occurs_in(#[trigger] harms[m], action_lower@),
        decreases harms_lower@.len() - k,
    {
        if contains_text(action_lower, harms_lower[k].as_str()) {
            assert(harms[k as int] == harms_lower@[k as int]@);
            return false;
        }
        k = k + 1;
    }
    if current_state == CapabilityState::ModelOnly {
        return true;
    }
    if !consent_ok(consent) {
        return false;
    }
    roles.len() > 0
}

impl ALNPolicy {
    /// The default policy: the default stack, no transitions, five prohibited
    /// harms, and a new subject at ModelOnly with no consent and the Learner role.
    pub fn new() -> (r: ALNPolicy)
        ensures
            r.id@ == "policy-0001-2026"@,
            r.transitions@.len() == 0,
            texts_of(r.prohibited_harms@) == seq![
                "coercive neuromodulation"@,
                "non-consensual neural surveillance"@,
                "emotional manipulation via neurostimulation"@,
                "neuro-data monetization without explicit revocable consent"@,
                "automated neuro-behavioral profiling"@,
            ],
            r.default_capability == CapabilityState::ModelOnly,
            r.default_consent == ConsentState::NoConsent,
            r.default_roles@ == seq![Role::Learner],
    {
        let harms = vec![
            String::from_str("coercive neuromodulation"),
            String::from_str("non-consensual neural surveillance"),
            String::from_str("emotional manipulation via neurostimulation"),
            String::from_str("neuro-data monetization without explicit revocable consent"),
            String::from_str("automated neuro-behavioral profiling"),
        ];
        let r = ALNPolicy {
            id: String::from_str("policy-0001-2026"),
            policy_stack: PolicyStack::new(),
            transitions: Vec::new(),
            prohibited_harms: harms,
            default_capability: CapabilityState::ModelOnly,
            default_consent: ConsentState::NoConsent,
            default_roles: vec![Role::Learner],
        };
        assert(texts_of(r.prohibited_harms@) =~= seq![
            "coercive neuromodulation"@,
            "non-consensual neural surveillance"@,
            "emotional manipulation via neurostimulation"@,
            "neuro-data monetization without explicit revocable consent"@,
            "automated neuro-behavioral profiling"@,
        ]);
        assert(r.default_roles@ =~= seq![Role::Learner]);
        r
    }

    /// Validates `transition` and records it; on an error nothing changes.
    pub fn add_transition(&mut self, transition: CapabilityTransition) -> (r: Result<(), ValidationError>)
        ensures
            r == validate_spec(transition),
            r is Ok ==> final(self).transitions@ == old(self).transitions@.push(transition),
            r is Err ==> final(self).transitions@ == old(self).transitions@,
            final(self).id == old(self).id,
            final(self).policy_stack == old(self).policy_stack,
            final(self).prohibited_harms == old(self).prohibited_harms,
            final(self).default_capability == old(self).default_capability,
            final(self).default_consent == old(self).default_consent,
            final(self).default_roles == old(self).default_roles,
    {
        match transition.validate() {
            Ok(()) => {
                self.transitions.push(transition);
                Ok(())
            },
            Err(e) => Err(e),
        }
    }

    /// Whether an action is permitted at a state, consent and role set. Harm
    /// names and the label are compared in lowercase; a harm occurring anywhere
    /// in the label blocks the action.
    pub fn is_action_permitted(
        &self,
        current_state: CapabilityState,
        consent: ConsentState,
        roles: &[Role],
        action_label: &str,
    ) -> (r: bool)
        ensures
            r == permitted_spec(
                lowered_texts(self.prohibited_harms@),
                lowercase_of(action_label@),
                current_state,
                consent,
                roles@.len(),
            ),
    {
        let action_lower = to_lower(action_label);
        let mut harms_lower: Vec<String> = Vec::new();
        let mut i: usize = 0;
        while i < self.prohibited_harms.len()
            invariant
                i <= self.prohibited_harms@.len(),
                harms_lower@.len() == i,
                texts_of(harms_lower@) == lowered_texts(self.prohibited_harms@.take(i as int)),
            decreases self.prohibited_harms@.len() - i,
        {
            let lowered = to_lower(self.prohibited_harms[i].as_str());
            let ghost before = harms_lower@;
            harms_lower.push(lowered);
            proof {
                let want = lowered_texts(self.prohibited_harms@.take(i as int + 1));
                let had = lowered_texts(self.prohibited_harms@.take(i as int));
                assert forall|j: int| 0 <= j < i + 1 implies texts_of(harms_lower@)[j] == want[j] by {
                    if j < i {
                        assert(harms_lower@[j] == before[j]);
                        assert(texts_of(before)[j] == had[j]);
                    }
                }
                assert(texts_of(harms_lower@) =~= want);
            }
            i = i + 1;
        }
        assert(self.prohibited_harms@.take(self.prohibited_harms@.len() as int)
            =~= self.prohibited_harms@);
        action_permitted_lowered(&harms_lower, current_state, consent, roles, action_lower.as_str())
    }

    /// The recorded transitions that start from `from`, in order.
    pub fn valid_transitions_from(&self, from: CapabilityState) -> (r: Vec<&CapabilityTransition>)
        ensures
            r@.len() == transitions_from(self.transitions@, from).len(),
            forall|k: int| 0 <= k < r@.len() ==> *r@[k] == transitions_from(self.transitions@, from)[k],
    {
        let mut r: Vec<&CapabilityTransition> = Vec::new();
        let mut i: usize = 0;
        while i < self.transitions.len()
            invariant
                i <= self.transitions@.len(),
                r@.len() == transitions_from(self.transitions@.take(i as int), from).len(),
                forall|k: int|
                    0 <= k < r@.len() ==> *r@[k] == transitions_from(
                        self.transitions@.take(i as int),
                        from,
                    )[k],
            decreases self.transitions@.len() - i,
        {
            proof {
                let next = self.transitions@.take(i as int + 1);
                assert(next.drop_last() =~= self.transitions@.take(i as int));
                assert(next.last() == self.transitions@[i as int]);
            }
            let t = &self.transitions[i];
            if t.from == from {
                r.push(t);
            }
            i = i + 1;
        }
        assert(self.transitions@.take(self.transitions@.len() as int) =~= self.transitions@);
        r
    }
}

} // verus!
