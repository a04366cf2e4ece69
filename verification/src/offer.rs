//! The offer record and its partial-fill arithmetic.

use vstd::prelude::*;
use crate::address::Address;
use crate::errors::EscrowError;

verus! {

/// One swap contract: `offer_amount` of the offered asset, locked in a vault,
/// against `request_amount` of the requested asset.
///
/// Everything but the two `remaining_*` counters is fixed at creation.
#[derive(Clone, Copy, Debug, PartialEq, Eq)]
pub struct Offer {
    /// The creator of the offer.
    pub creator: Address,
    /// The asset that is offered.
    pub offer_mint: Address,
    /// The asset that is requested.
    pub request_mint: Address,
    /// How much was offered at creation.
    pub offer_amount: u64,
    /// How much was requested at creation.
    pub request_amount: u64,
    /// How much of the offered asset is still in the vault.
    pub remaining_offer_amount: u64,
    /// How much of the requested asset is still to be paid.
    pub remaining_request_amount: u64,
    /// The last second (Unix time) at which the offer can be accepted.
    pub deadline: i64,
    /// The custody account that holds the offered asset.
    pub vault: Address,
    /// The bump seed of the record's derived address.
    pub bump: u8,
    /// The creator's own number for this offer.
    pub offer_id: u64,
}

impl Offer {
    /// The invariant of a record that creation made and accepts have changed.
    ///
    /// Both amounts fixed at creation are positive, neither counter exceeds
    /// the amount it started from, and the vault holds at least the share of
    /// the offered asset that the unpaid part of the request is entitled to:
    /// `remaining_offer / offer >= remaining_request / request`, with equality
    /// up to what rounding down has left in the vault.
    pub open spec fn wf(&self) -> bool {
        &&& self.offer_amount > 0
        &&& self.request_amount > 0
        &&& self.remaining_offer_amount <= self.offer_amount
        &&& self.remaining_request_amount <= self.request_amount
        &&& self.remaining_offer_amount * self.request_amount >= self.offer_amount
            * self.remaining_request_amount
    }

    /// The record as creation leaves it: both counters at the full amounts.
    pub open spec fn fresh(&self) -> bool {
        &&& self.remaining_offer_amount == self.offer_amount
        &&& self.remaining_request_amount == self.request_amount
    }

    /// Whether the deadline has passed at `current_timestamp`.
    pub open spec fn expired_at(&self, current_timestamp: i64) -> bool {
        current_timestamp > self.deadline
    }

    /// Whether either counter has reached zero.
    pub open spec fn full_filled(&self) -> bool {
        self.remaining_offer_amount == 0 || self.remaining_request_amount == 0
    }

    /// The offered tokens owed for `request_amount` requested tokens, at the
    /// rate fixed at creation and rounded down:
    /// `floor(offer_amount * request_amount / self.request_amount)`.
    pub open spec fn proportional_share(&self, request_amount: u64) -> int
        recommends
            self.request_amount > 0,
    {
        (self.offer_amount * request_amount) / (self.request_amount as int)
    }

    /// What `calculate_partial_fill` returns.
    pub open spec fn partial_fill(&self, request_amount: u64) -> Result<(u64, u64), EscrowError> {
        if request_amount == 0 {
            Err(EscrowError::InvalidAmount)
        } else if request_amount > self.remaining_request_amount {
            Err(EscrowError::InsufficientOfferAmount)
        } else if self.request_amount == 0 || self.proportional_share(request_amount) > u64::MAX {
            Err(EscrowError::MathOverflow)
        } else {
            Ok((self.proportional_share(request_amount) as u64, request_amount))
        }
    }

    /// Whether the offer has expired: the deadline itself is still in time.
    pub fn is_expired(&self, current_timestamp: i64) -> (expired: bool)
        ensures
            expired == self.expired_at(current_timestamp),
    {
        current_timestamp > self.deadline
    }

    /// Whether the offer is fully filled: either counter is zero.
    pub fn is_full_filled(&self) -> (full: bool)
        ensures
            full == self.full_filled(),
    {
        self.remaining_offer_amount == 0 || self.remaining_request_amount == 0
    }

    /// The amounts that change hands when `request_amount` of the requested
    /// asset is paid: `(offer_tokens, request_tokens)`.
    ///
    /// The payout is the proportional share rounded down, so the acceptor is
    /// never paid more than the rate declared at creation. A zero payment is
    /// `InvalidAmount`; more than remains to be paid is
    /// `InsufficientOfferAmount`; a share that cannot be computed or does not
    /// fit in 64 bits is `MathOverflow`.
    pub fn calculate_partial_fill(&self, request_amount: u64) -> (fill: Result<
        (u64, u64),
        EscrowError,
    >)
        ensures
            fill == self.partial_fill(request_amount),
    {
        if request_amount == 0 {
            return Err(EscrowError::InvalidAmount);
        }
        if request_amount > self.remaining_request_amount {
            return Err(EscrowError::InsufficientOfferAmount);
        }
        let wide_offer: u128 = self.offer_amount as u128;
        let wide_request: u128 = request_amount as u128;
        assert(wide_offer * wide_request <= u128::MAX) by (nonlinear_arith)
            requires
                wide_offer <= u64::MAX,
                wide_request <= u64::MAX,
        ;
        let product: u128 = match wide_offer.checked_mul(wide_request) {
            Some(product) => product,
            None => { return Err(EscrowError::MathOverflow); },
        };
        let share: u128 = match product.checked_div(self.request_amount as u128) {
            Some(share) => share,
            None => { return Err(EscrowError::MathOverflow); },
        };
        if share > u64::MAX as u128 {
            return Err(EscrowError::MathOverflow);
        }
        Ok((share as u64, request_amount))
    }

    /// On a well-formed record a payment within the remainder never overflows:
    /// its share is at most what the vault still holds.
    pub proof fn lemma_share_within_vault(&self, request_amount: u64)
        requires
            self.wf(),
            request_amount <= self.remaining_request_amount,
        ensures
            0 <= self.proportional_share(request_amount) <= self.remaining_offer_amount,
    {
        let o = self.offer_amount as int;
        let r = self.request_amount as int;
        let p = request_amount as int;
        let ro = self.remaining_offer_amount as int;
        let rr = self.remaining_request_amount as int;
        assert(o * p <= o * rr) by (nonlinear_arith)
            requires
                0 <= o,
                p <= rr,
        ;
        assert(o * p <= ro * r);
        assert(0 <= (o * p) / r <= ro) by (nonlinear_arith)
            requires
                r > 0,
                0 <= o * p <= ro * r,
        ;
    }
}

} // verus!
