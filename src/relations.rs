//! Roles that users hold in associations.

use vstd::prelude::*;

verus! {

/// A role a user may hold in an association.
#[derive(Clone, Copy, Debug, PartialEq, Eq, Structural)]
pub enum Role {
    Admin,
    Treasurer,
    Member,
}

/// Queries over the role records of a user in an association.
pub struct Relations;

impl Relations {
    /// Whether `wanted` is among the roles a user holds in an association.
    pub fn has_role(roles: &Vec<Role>, wanted: Role) -> (r: bool)
        ensures
            r == roles@.contains(wanted),
    {
        let mut i: usize = 0;
        while i < roles.len()
            invariant
                i <= roles@.len(),
                forall|k: int| 0 <= k < i ==> roles@[k] != wanted,
            decreases roles@.len() - i,
        {
            if roles[i] == wanted {
                assert(roles@[i as int] == wanted);
                return true;
            }
            i = i + 1;
        }
        false
    }
}

} // verus!
