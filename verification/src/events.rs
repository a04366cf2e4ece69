//! What each transition reports to observers.

use vstd::prelude::*;
use crate::address::Address;

verus! {

/// Reported when an offer is created.
#[derive(Clone, Copy, Debug, PartialEq, Eq)]
pub struct OfferCreated {
    /// The address of the offer record.
    pub offer: Address,
    /// The creator of the offer.
    pub creator: Address,
    /// The asset that is offered.
    pub offer_mint: Address,
    /// The asset that is requested.
    pub request_mint: Address,
    /// How much is offered.
    pub offer_amount: u64,
    /// How much is requested.
    pub request_amount: u64,
    /// The last second at which the offer can be accepted.
    pub deadline: i64,
    /// The creator's own number for this offer.
    pub offer_id: u64,
}

/// Reported when an offer is accepted, in full or in part.
#[derive(Clone, Copy, Debug, PartialEq, Eq)]
pub struct OfferAccepted {
    /// The address of the offer record.
    pub offer: Address,
    /// Who accepted.
    pub acceptor: Address,
    /// The offered tokens paid out to the acceptor.
    pub offer_tokens_transferred: u64,
    /// The requested tokens paid to the creator.
    pub request_tokens_received: u64,
    /// The offer counter after this acceptance.
    pub remaining_offer_amount: u64,
    /// The request counter after this acceptance.
    pub remaining_request_amount: u64,
    /// Whether this acceptance filled the offer.
    pub is_full_acceptance: bool,
}

/// Reported when the creator cancels an offer.
#[derive(Clone, Copy, Debug, PartialEq, Eq)]
pub struct OfferCancelled {
    /// The address of the offer record.
    pub offer: Address,
    /// The creator, who cancelled.
    pub creator: Address,
    /// The offered tokens returned to the creator.
    pub refunded_amount: u64,
}

/// Reported when an expired offer is closed.
#[derive(Clone, Copy, Debug, PartialEq, Eq)]
pub struct OfferClosed {
    /// The address of the offer record.
    pub offer: Address,
    /// The creator, who receives the refund.
    pub creator: Address,
    /// The offered tokens returned to the creator.
    pub refunded_amount: u64,
    /// Who closed the offer.
    pub closer: Address,
}

} // verus!
