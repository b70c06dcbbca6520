//! Who may create and withdraw reservations, and change associations.

use vstd::prelude::*;
use crate::error::Rejection;
use crate::relations::{Relations, Role};

verus! {

/// A logged-in user acting for `owner` who holds `wanted` in the association.
pub open spec fn acts_as(claimed: Option<u128>, owner: u128, roles: Seq<Role>, wanted: Role) -> bool {
    claimed == Some(owner) && roles.contains(wanted)
}

/// Access decisions for changes to fields and their reservations.
pub struct FieldMutation;

/// Access decisions for changes to associations.
pub struct AssociationMutation;

fn authorize(claimed: Option<u128>, owner: u128, roles: &Vec<Role>, wanted: Role) -> (r: Result<u128, Rejection>)
    ensures
        r == (if acts_as(claimed, owner, roles@, wanted) {
            Ok(owner)
        } else {
            Err(Rejection::Unauthorized)
        }),
{
    match claimed {
        Some(user_id) => {
            if user_id == owner && Relations::has_role(roles, wanted) {
                Ok(owner)
            } else {
                Err(Rejection::Unauthorized)
            }
        },
        None => Err(Rejection::Unauthorized),
    }
}

impl FieldMutation {
    /// A reservation may be requested by a logged-in user, for themself,
    /// on a field of an association of which they are a member. `roles` are
    /// the user's roles in the field's association.
    pub fn authorize_reservation(claimed: Option<u128>, input_user: u128, roles: &Vec<Role>) -> (r: Result<u128, Rejection>)
        ensures
            r == (if acts_as(claimed, input_user, roles@, Role::Member) {
                Ok(input_user)
            } else {
                Err(Rejection::Unauthorized)
            }),
    {
        authorize(claimed, input_user, roles, Role::Member)
    }

    /// A reservation may be withdrawn only by its owner, while a member of
    /// the field's association.
    pub fn authorize_withdrawal(claimed: Option<u128>, owner: u128, roles: &Vec<Role>) -> (r: Result<u128, Rejection>)
        ensures
            r == (if acts_as(claimed, owner, roles@, Role::Member) {
                Ok(owner)
            } else {
                Err(Rejection::Unauthorized)
            }),
    {
        authorize(claimed, owner, roles, Role::Member)
    }

    /// A field may be added by an admin of its association.
    pub fn authorize_field_creation(claimed: Option<u128>, roles: &Vec<Role>) -> (r: Result<u128, Rejection>)
        ensures
            r == (match claimed {
                Some(u) => if roles@.contains(Role::Admin) {
                    Ok(u)
                } else {
                    Err(Rejection::Unauthorized)
                },
                None => Err(Rejection::Unauthorized),
            }),
    {
        match claimed {
            Some(u) => authorize(Some(u), u, roles, Role::Admin),
            None => Err(Rejection::Unauthorized),
        }
    }
}

impl AssociationMutation {
    /// An association may be changed by one of its admins.
    pub fn authorize_update(claimed: Option<u128>, roles: &Vec<Role>) -> (r: Result<u128, Rejection>)
        ensures
            r == (match claimed {
                Some(u) => if roles@.contains(Role::Admin) {
                    Ok(u)
                } else {
                    Err(Rejection::Unauthorized)
                },
                None => Err(Rejection::Unauthorized),
            }),
    {
        match claimed {
            Some(u) => authorize(Some(u), u, roles, Role::Admin),
            None => Err(Rejection::Unauthorized),
        }
    }
}

} // verus!
