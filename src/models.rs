use vstd::prelude::*;

verus! {

/// The three outcomes that callers tell apart when deciding whether to retry.
#[derive(Debug, Clone, PartialEq, Eq)]
pub enum ResyError {
    /// A search succeeded but no slot qualified before the deadline.
    NoAvailableReservations,
    /// One pass over a slot index found no qualifying slot.
    CannotFindReservation,
    /// A transport, decoding or missing-field fault, with its message.
    UnknownError(String),
}

impl ResyError {
    /// The text shown for the error.
    pub open spec fn message_spec(&self) -> Seq<char> {
        match self {
            ResyError::NoAvailableReservations => "No available reservations"@,
            ResyError::CannotFindReservation => "Cannot find reservation"@,
            ResyError::UnknownError(msg) => "Unknown error: "@ + msg@,
        }
    }

    /// Human-readable text of the error.
    pub fn message(&self) -> (r: String)
        ensures
            r@ == self.message_spec(),
    {
        match self {
            ResyError::NoAvailableReservations => String::from_str("No available reservations"),
            ResyError::CannotFindReservation => String::from_str("Cannot find reservation"),
            ResyError::UnknownError(msg) => {
                let mut s = String::from_str("Unknown error: ");
                s.append(msg.as_str());
                s
            },
        }
    }

    /// Wraps a fault message from an outside collaborator.
    pub fn from_fault(msg: String) -> (r: ResyError)
        ensures
            r == ResyError::UnknownError(msg),
    {
        ResyError::UnknownError(msg)
    }
}

/// What a commit needs: the payment method to charge and the short-lived
/// booking token issued for one slot.
#[derive(Debug, Clone, PartialEq, Eq)]
pub struct BookingDetails {
    pub payment_method_id: i32,
    pub booking_token: String,
}

} // verus!
