//! The back end of a neighborhood association: members and their roles,
//! log-in decisions, and above all the reservation of the association's
//! fields, which decides when a field may be booked, for how long, how
//! often, and whether a requested slot is still free.
//!
//! Every decision takes the current instant and the stored records as
//! values; reading the clock and talking to storage are left to the caller.

pub mod time;
pub mod error;
pub mod rules;
pub mod reservation;
pub mod admission;
pub mod book;

pub mod relations;
pub mod access;
pub mod association;
pub mod auth;
pub mod password;
pub mod pagination;
pub mod clock;
