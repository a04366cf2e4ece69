//! Closing an offer whose deadline has passed.

use vstd::prelude::*;
use crate::address::Address;
use crate::custody::{settle, settlement_of, Settlement};
use crate::errors::EscrowError;
use crate::events::OfferClosed;
use crate::offer::Offer;

verus! {

/// What the closing of an expired offer works on.
#[derive(Clone, Copy, Debug, PartialEq, Eq)]
pub struct CloseExpiredOffer {
    /// The address of the offer record, which is the authority over its vault.
    pub offer_key: Address,
    /// The offer record.
    pub offer: Offer,
    /// Who closes the offer. Anyone may, and is credited the rent.
    pub closer: Address,
}

/// What the ledger is to do to close an expired offer.
#[derive(Clone, Copy, Debug, PartialEq, Eq)]
pub struct ExpiredClosure {
    /// The vault's remainder goes back to the creator, and vault and record
    /// are closed with their rent credited to the closer.
    pub settlement: Settlement,
    /// The report of this closing.
    pub event: OfferClosed,
}

/// What closing at time `now` returns: `OfferNotExpired` up to and including
/// the deadline, and afterwards the refund of all that remains.
pub open spec fn closed(ctx: CloseExpiredOffer, now: i64) -> Result<ExpiredClosure, EscrowError> {
    if !ctx.offer.expired_at(now) {
        Err(EscrowError::OfferNotExpired)
    } else {
        Ok(
            ExpiredClosure {
                settlement: settle(ctx.offer_key, ctx.offer, ctx.closer),
                event: OfferClosed {
                    offer: ctx.offer_key,
                    creator: ctx.offer.creator,
                    refunded_amount: ctx.offer.remaining_offer_amount,
                    closer: ctx.closer,
                },
            },
        )
    }
}

/// Closes the offer once its deadline has passed, at time `now`, and returns
/// what remains in the vault to the creator.
///
/// Anyone may close an expired offer. The refund goes to the creator whoever
/// closes; the rent of vault and record goes to the closer, for the trouble.
/// The record is read, never changed.
pub fn close_expired_offer(ctx: &CloseExpiredOffer, now: i64) -> (outcome: Result<
    ExpiredClosure,
    EscrowError,
>)
    ensures
        outcome == closed(*ctx, now),
        outcome is Err <==> now <= ctx.offer.deadline,
        outcome is Ok ==> outcome->Ok_0.settlement.refunded() == ctx.offer.remaining_offer_amount,
{
    if !ctx.offer.is_expired(now) {
        return Err(EscrowError::OfferNotExpired);
    }
    Ok(
        ExpiredClosure {
            settlement: settlement_of(ctx.offer_key, &ctx.offer, ctx.closer),
            event: OfferClosed {
                offer: ctx.offer_key,
                creator: ctx.offer.creator,
                refunded_amount: ctx.offer.remaining_offer_amount,
                closer: ctx.closer,
            },
        },
    )
}

} // verus!
