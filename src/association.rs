//! Associations, and how a partial update changes one.

use vstd::prelude::*;
use crate::reservation::clone_optional_string;
use crate::time::Instant;

verus! {

/// A neighborhood association.
#[derive(Debug)]
pub struct Association {
    pub id: u128,
    pub name: String,
    pub neighborhood: String,
    pub country: String,
    pub state: String,
    pub address: String,
    pub identity: Option<String>,
    pub public: bool,
    pub deleted: Option<bool>,
    pub created_at: Instant,
    pub updated_at: Instant,
}

/// A partial update: each field that is given replaces the stored one.
#[derive(Debug)]
pub struct AssociationUpdate {
    pub name: Option<String>,
    pub neighborhood: Option<String>,
    pub country: Option<String>,
    pub state: Option<String>,
    pub address: Option<String>,
    pub identity: Option<String>,
    pub public: Option<bool>,
    pub deleted: Option<bool>,
}

/// The given value if there is one, else the current one.
pub open spec fn given_or<T>(given: Option<T>, current: T) -> T {
    match given {
        Some(v) => v,
        None => current,
    }
}

/// The given value if there is one, else the current, possibly absent, one.
pub open spec fn given_or_opt<T>(given: Option<T>, current: Option<T>) -> Option<T> {
    match given {
        Some(v) => Some(v),
        None => current,
    }
}

fn given_or_string(given: &Option<String>, current: &String) -> (r: String)
    ensures
        r == given_or(*given, *current),
{
    match given {
        Some(s) => s.clone(),
        None => current.clone(),
    }
}

fn given_or_opt_string(given: &Option<String>, current: &Option<String>) -> (r: Option<String>)
    ensures
        r == given_or_opt(*given, *current),
{
    match given {
        Some(s) => Some(s.clone()),
        None => clone_optional_string(current),
    }
}

impl AssociationUpdate {
    /// `current` with this update applied; the identifier and the timestamps
    /// stay as they were.
    pub fn apply(&self, current: &Association) -> (r: Association)
        ensures
            r.id == current.id,
            r.name == given_or(self.name, current.name),
            r.neighborhood == given_or(self.neighborhood, current.neighborhood),
            r.country == given_or(self.country, current.country),
            r.state == given_or(self.state, current.state),
            r.address == given_or(self.address, current.address),
            r.identity == given_or_opt(self.identity, current.identity),
            r.public == given_or(self.public, current.public),
            r.deleted == given_or_opt(self.deleted, current.deleted),
            r.created_at == current.created_at,
            r.updated_at == current.updated_at,
    {
        Association {
            id: current.id,
            name: given_or_string(&self.name, &current.name),
            neighborhood: given_or_string(&self.neighborhood, &current.neighborhood),
            country: given_or_string(&self.country, &current.country),
            state: given_or_string(&self.state, &current.state),
            address: given_or_string(&self.address, &current.address),
            identity: given_or_opt_string(&self.identity, &current.identity),
            public: match self.public {
                Some(p) => p,
                None => current.public,
            },
            deleted: match self.deleted {
                Some(d) => Some(d),
                None => current.deleted,
            },
            created_at: current.created_at,
            updated_at: current.updated_at,
        }
    }
}

} // verus!
