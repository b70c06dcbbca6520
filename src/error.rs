//! Why a reservation request was turned down, and the error carried to callers.

use vstd::prelude::*;

verus! {

/// The reason a reservation request or a reservation change is refused.
#[derive(Clone, Copy, Debug, PartialEq, Eq, Structural)]
pub enum Rejection {
    /// The caller is not the user concerned, or not a member of the field's association.
    Unauthorized,
    /// The reservation does not start on the current day.
    WrongDay,
    /// The daily opening time for reservations has not been reached yet.
    TooEarly,
    /// The reservation is longer than the field allows.
    DurationExceeded,
    /// The slot overlaps an active reservation of the same field.
    SlotConflict,
    /// The user already holds as many reservations as the period allows.
    QuotaExceeded,
    /// The field's stored rules could not be read.
    PolicyParseError,
    /// The storage layer failed or holds no such record.
    StorageError,
}

/// The text shown to a user for each rejection.
pub open spec fn rejection_message(r: Rejection) -> Seq<char> {
    match r {
        Rejection::Unauthorized => "User is not a member of the association"@,
        Rejection::WrongDay => "Reservations can only be made for today"@,
        Rejection::TooEarly => "Reservations can not be made yet today"@,
        Rejection::DurationExceeded => "Reservation is longer than the field allows"@,
        Rejection::SlotConflict => "Field overlaps with another reservation"@,
        Rejection::QuotaExceeded => "User has reached the maximum number of reservations for today"@,
        Rejection::PolicyParseError => "Failed to parse reservation rules"@,
        Rejection::StorageError => "Storage operation failed"@,
    }
}

impl Rejection {
    /// The user-facing text of this rejection.
    pub fn message(&self) -> (r: String)
        ensures
            r@ == rejection_message(*self),
    {
        match self {
            Rejection::Unauthorized => String::from_str("User is not a member of the association"),
            Rejection::WrongDay => String::from_str("Reservations can only be made for today"),
            Rejection::TooEarly => String::from_str("Reservations can not be made yet today"),
            Rejection::DurationExceeded => String::from_str("Reservation is longer than the field allows"),
            Rejection::SlotConflict => String::from_str("Field overlaps with another reservation"),
            Rejection::QuotaExceeded => String::from_str(
                "User has reached the maximum number of reservations for today",
            ),
            Rejection::PolicyParseError => String::from_str("Failed to parse reservation rules"),
            Rejection::StorageError => String::from_str("Storage operation failed"),
        }
    }
}

/// An error with a message for the user.
#[derive(Debug)]
pub struct HoodError {
    pub msg: String,
}

impl HoodError {
    /// The error reported for a rejection: its user-facing text.
    pub fn from_rejection(r: Rejection) -> (e: HoodError)
        ensures
            e.msg@ == rejection_message(r),
    {
        HoodError { msg: r.message() }
    }
}

} // verus!
