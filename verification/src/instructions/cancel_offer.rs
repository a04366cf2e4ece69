//! Cancelling an offer.

use vstd::prelude::*;
use crate::address::Address;
use crate::custody::{settle, settlement_of, Settlement};
use crate::errors::EscrowError;
use crate::events::OfferCancelled;
use crate::offer::Offer;

verus! {

/// What a cancellation works on.
#[derive(Clone, Copy, Debug, PartialEq, Eq)]
pub struct CancelOffer {
    /// The address of the offer record, which is the authority over its vault.
    pub offer_key: Address,
    /// The offer record.
    pub offer: Offer,
    /// Who asks for the cancellation. Only the creator of the offer may.
    pub creator: Address,
}

/// What the ledger is to do for a cancellation.
#[derive(Clone, Copy, Debug, PartialEq, Eq)]
pub struct Cancellation {
    /// The vault's remainder goes back to the creator, and vault and record
    /// are closed with their rent credited to the creator.
    pub settlement: Settlement,
    /// The report of this cancellation.
    pub event: OfferCancelled,
}

/// What a cancellation returns: `Unauthorized` unless the caller is the
/// creator of the offer, and otherwise the refund of all that remains.
pub open spec fn cancelled(ctx: CancelOffer) -> Result<Cancellation, EscrowError> {
    if ctx.creator != ctx.offer.creator {
        Err(EscrowError::Unauthorized)
    } else {
        Ok(
            Cancellation {
                settlement: settle(ctx.offer_key, ctx.offer, ctx.offer.creator),
                event: OfferCancelled {
                    offer: ctx.offer_key,
                    creator: ctx.offer.creator,
                    refunded_amount: ctx.offer.remaining_offer_amount,
                },
            },
        )
    }
}

/// Cancels the offer and returns what remains in the vault to the creator.
///
/// Only the creator may cancel. The record is read, never changed: a refused
/// cancellation leaves offer, vault and counters as they were, and a granted
/// one ends with the ledger destroying vault and record together.
pub fn cancel_offer(ctx: &CancelOffer) -> (outcome: Result<Cancellation, EscrowError>)
    ensures
        outcome == cancelled(*ctx),
        outcome is Err <==> ctx.creator != ctx.offer.creator,
        outcome is Ok ==> outcome->Ok_0.settlement.refunded() == ctx.offer.remaining_offer_amount,
{
    proof {
        Address::lemma_view(ctx.creator, ctx.offer.creator);
    }
    if !(ctx.creator == ctx.offer.creator) {
        return Err(EscrowError::Unauthorized);
    }
    Ok(
        Cancellation {
            settlement: settlement_of(ctx.offer_key, &ctx.offer, ctx.offer.creator),
            event: OfferCancelled {
                offer: ctx.offer_key,
                creator: ctx.offer.creator,
                refunded_amount: ctx.offer.remaining_offer_amount,
            },
        },
    )
}

} // verus!
