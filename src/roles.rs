use vstd::prelude::*;

use crate::tier::Role;

verus! {

/// The roles present on a signed proposal (a multiset: order is irrelevant,
/// repeats count) together with the configured regulator quorum.
#[derive(Clone, Debug)]
pub struct RoleSet {
    pub roles: Vec<Role>,
    /// Number of `Regulator` roles required for quorum.
    pub required_regulator_quorum: u8,
}

/// How many times `role` occurs in `roles`.
pub open spec fn role_count(roles: Seq<Role>, role: Role) -> nat
    decreases roles.len(),
{
    if roles.len() == 0 {
        0
    } else {
        role_count(roles.drop_last(), role) + if roles.last() == role {
            1nat
        } else {
            0nat
        }
    }
}

/// Sovereignty composite: Host, OrganicCpuOwner and SovereignKernel present,
/// and at least the required number of Regulator roles.
pub open spec fn sovereignty_spec(rs: RoleSet) -> bool {
    &&& rs.roles@.contains(Role::Host)
    &&& rs.roles@.contains(Role::OrganicCpuOwner)
    &&& rs.roles@.contains(Role::SovereignKernel)
    &&& role_count(rs.roles@, Role::Regulator) >= rs.required_regulator_quorum
}

impl RoleSet {
    /// Whether `role` is present at least once.
    pub fn has_role(&self, role: Role) -> (r: bool)
        ensures
            r == self.roles@.contains(role),
    {
        let mut i: usize = 0;
        while i < self.roles.len()
            invariant
                i <= self.roles@.len(),
                forall|k: int| 0 <= k < i ==> self.roles@[k] != role,
            decreases self.roles@.len() - i,
        {
            if self.roles[i] == role {
                return true;
            }
            i = i + 1;
        }
        false
    }

    /// Number of occurrences of `role`.
    pub fn count_role(&self, role: Role) -> (r: usize)
        ensures
            r as nat == role_count(self.roles@, role),
    {
        let mut i: usize = 0;
        let mut n: usize = 0;
        while i < self.roles.len()
            invariant
                i <= self.roles@.len(),
                n as nat == role_count(self.roles@.take(i as int), role),
                n <= i,
            decreases self.roles@.len() - i,
        {
            proof {
                let next = self.roles@.take(i as int + 1);
                assert(next.drop_last() =~= self.roles@.take(i as int));
                assert(next.last() == self.roles@[i as int]);
            }
            if self.roles[i] == role {
                n = n + 1;
            }
            i = i + 1;
        }
        assert(self.roles@.take(self.roles@.len() as int) =~= self.roles@);
        n
    }
}

/// Sovereignty composite over a role set: the three structural roles are
/// present and the Regulator count meets the quorum. One regulator does not
/// make a quorum of two.
pub fn neuromorph_god_satisfied(role_set: &RoleSet) -> (r: bool)
    ensures
        r == sovereignty_spec(*role_set),
{
    let has_host = role_set.has_role(Role::Host);
    let has_owner = role_set.has_role(Role::OrganicCpuOwner);
    let has_kernel = role_set.has_role(Role::SovereignKernel);
    let reg_count = role_set.count_role(Role::Regulator);
    has_host && has_owner && has_kernel && reg_count >= role_set.required_regulator_quorum as usize
}

} // verus!
