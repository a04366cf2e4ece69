//! Why a lifecycle transition is refused.

use vstd::prelude::*;

verus! {

/// Every way in which a transition can be refused. A refusal changes nothing.
#[derive(Clone, Copy, Debug, PartialEq, Eq, Structural)]
pub enum EscrowError {
    /// An accept was attempted after the deadline.
    OfferExpired,
    /// A close of an expired offer was attempted at or before the deadline.
    OfferNotExpired,
    /// A quantity was zero.
    InvalidAmount,
    /// More was asked than remains, or the offer is already filled.
    InsufficientOfferAmount,
    /// An intermediate value could not be represented.
    MathOverflow,
    /// Somebody other than the creator tried to cancel.
    Unauthorized,
    /// The deadline was not strictly in the future at creation.
    InvalidDeadline,
}

impl EscrowError {
    /// The text of `message`.
    pub open spec fn text(&self) -> Seq<char> {
        match self {
            EscrowError::OfferExpired => "The offer has expired"@,
            EscrowError::OfferNotExpired => "The offer has not expired yet"@,
            EscrowError::InvalidAmount => "Invalid amount specified"@,
            EscrowError::InsufficientOfferAmount => "Insufficient offer amount remaining"@,
            EscrowError::MathOverflow => "Math overflow occurred"@,
            EscrowError::Unauthorized => "Only the offer creator can perform this action"@,
            EscrowError::InvalidDeadline => "The deadline must be in the future"@,
        }
    }

    /// What to tell the caller.
    pub fn message(&self) -> (message: String)
        ensures
            message@ == self.text(),
    {
        match self {
            EscrowError::OfferExpired => "The offer has expired".to_owned(),
            EscrowError::OfferNotExpired => "The offer has not expired yet".to_owned(),
            EscrowError::InvalidAmount => "Invalid amount specified".to_owned(),
            EscrowError::InsufficientOfferAmount => "Insufficient offer amount remaining".to_owned(),
            EscrowError::MathOverflow => "Math overflow occurred".to_owned(),
            EscrowError::Unauthorized => "Only the offer creator can perform this action".to_owned(),
            EscrowError::InvalidDeadline => "The deadline must be in the future".to_owned(),
        }
    }
}

} // verus!
