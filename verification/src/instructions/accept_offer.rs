//! Accepting an offer, in full or in part.

use vstd::prelude::*;
use crate::address::Address;
use crate::custody::{settle, settlement_of, Settlement, Transfer};
use crate::errors::EscrowError;
use crate::events::OfferAccepted;
use crate::offer::Offer;

verus! {

/// What an acceptance works on.
#[derive(Clone, Copy, Debug, PartialEq, Eq)]
pub struct AcceptOffer {
    /// The address of the offer record, which is the authority over its vault.
    pub offer_key: Address,
    /// The offer record.
    pub offer: Offer,
    /// Who accepts, and pays the requested asset.
    pub acceptor: Address,
}

/// What the ledger is to do for an acceptance.
#[derive(Clone, Copy, Debug, PartialEq, Eq)]
pub struct Acceptance {
    /// The requested asset, from the acceptor to the creator.
    pub payment: Transfer,
    /// The offered asset, from the vault to the acceptor.
    pub payout: Transfer,
    /// The report of this acceptance.
    pub event: OfferAccepted,
    /// Present exactly when this acceptance filled the offer: what rounding
    /// left in the vault goes back to the creator, and vault and record are
    /// closed with their rent credited to the creator.
    pub settlement: Option<Settlement>,
}

/// The record after `request_amount` is paid at time `now`, or why the
/// payment is refused.
///
/// The tests are made in this order: the deadline, whether the offer is
/// already filled, the amount, and the two subtractions.
pub open spec fn accepted(offer: Offer, request_amount: u64, now: i64) -> Result<
    Offer,
    EscrowError,
> {
    if offer.expired_at(now) {
        Err(EscrowError::OfferExpired)
    } else if offer.full_filled() {
        Err(EscrowError::InsufficientOfferAmount)
    } else {
        match offer.partial_fill(request_amount) {
            Err(error) => Err(error),
            Ok((offer_tokens, request_tokens)) => if offer_tokens > offer.remaining_offer_amount {
                Err(EscrowError::MathOverflow)
            } else {
                Ok(
                    Offer {
                        remaining_offer_amount: (offer.remaining_offer_amount
                            - offer_tokens) as u64,
                        remaining_request_amount: (offer.remaining_request_amount
                            - request_tokens) as u64,
                        ..offer
                    },
                )
            },
        }
    }
}

/// What the ledger is to do when an acceptance takes the record from `before`
/// to `after`.
pub open spec fn acceptance(ctx: AcceptOffer, after: Offer) -> Acceptance {
    let before = ctx.offer;
    let offer_tokens = (before.remaining_offer_amount - after.remaining_offer_amount) as u64;
    let request_tokens = (before.remaining_request_amount - after.remaining_request_amount) as u64;
    Acceptance {
        payment: Transfer {
            asset: before.request_mint,
            from: ctx.acceptor,
            to: before.creator,
            amount: request_tokens,
            authority: ctx.acceptor,
        },
        payout: Transfer {
            asset: before.offer_mint,
            from: before.vault,
            to: ctx.acceptor,
            amount: offer_tokens,
            authority: ctx.offer_key,
        },
        event: OfferAccepted {
            offer: ctx.offer_key,
            acceptor: ctx.acceptor,
            offer_tokens_transferred: offer_tokens,
            request_tokens_received: request_tokens,
            remaining_offer_amount: after.remaining_offer_amount,
            remaining_request_amount: after.remaining_request_amount,
            is_full_acceptance: after.full_filled(),
        },
        settlement: if after.full_filled() {
            Some(settle(ctx.offer_key, after, before.creator))
        } else {
            None
        },
    }
}

/// Accepts the offer for `request_amount` of the requested asset at time
/// `now`.
///
/// The acceptor pays `request_amount` to the creator and is paid the
/// proportional share of the offered asset, rounded down, out of the vault.
/// Both counters go down by exactly what changes hands. When either reaches
/// zero the offer is filled, and the same acceptance settles it: the offer
/// has ended, and its record is not to be used again.
///
/// A refused acceptance leaves the record as it was.
pub fn accept_offer(ctx: &mut AcceptOffer, request_amount: u64, now: i64) -> (outcome: Result<
    Acceptance,
    EscrowError,
>)
    ensures
        match accepted(old(ctx).offer, request_amount, now) {
            Ok(after) => {
                &&& *final(ctx) == (AcceptOffer { offer: after, ..*old(ctx) })
                &&& outcome == Ok::<Acceptance, EscrowError>(acceptance(*old(ctx), after))
            },
            Err(error) => {
                &&& *final(ctx) == *old(ctx)
                &&& outcome == Err::<Acceptance, EscrowError>(error)
            },
        },
        old(ctx).offer.wf() ==> final(ctx).offer.wf(),
        old(ctx).offer.wf() ==> outcome != Err::<Acceptance, EscrowError>(
            EscrowError::MathOverflow,
        ),
{
    proof {
        if ctx.offer.wf() {
            lemma_accepted_keeps_wf(ctx.offer, request_amount, now);
        }
    }
    if ctx.offer.is_expired(now) {
        return Err(EscrowError::OfferExpired);
    }
    if ctx.offer.is_full_filled() {
        return Err(EscrowError::InsufficientOfferAmount);
    }
    let (offer_tokens, request_tokens) = match ctx.offer.calculate_partial_fill(request_amount) {
        Ok(fill) => fill,
        Err(error) => { return Err(error); },
    };
    let remaining_offer_amount: u64 = match ctx.offer.remaining_offer_amount.checked_sub(
        offer_tokens,
    ) {
        Some(rest) => rest,
        None => { return Err(EscrowError::MathOverflow); },
    };
    let remaining_request_amount: u64 = match ctx.offer.remaining_request_amount.checked_sub(
        request_tokens,
    ) {
        Some(rest) => rest,
        None => { return Err(EscrowError::MathOverflow); },
    };
    let before = ctx.offer;
    ctx.offer.remaining_offer_amount = remaining_offer_amount;
    ctx.offer.remaining_request_amount = remaining_request_amount;

    let is_full = ctx.offer.is_full_filled();
    let settlement = if is_full {
        Some(settlement_of(ctx.offer_key, &ctx.offer, before.creator))
    } else {
        None
    };
    Ok(
        Acceptance {
            payment: Transfer {
                asset: before.request_mint,
                from: ctx.acceptor,
                to: before.creator,
                amount: request_tokens,
                authority: ctx.acceptor,
            },
            payout: Transfer {
                asset: before.offer_mint,
                from: before.vault,
                to: ctx.acceptor,
                amount: offer_tokens,
                authority: ctx.offer_key,
            },
            event: OfferAccepted {
                offer: ctx.offer_key,
                acceptor: ctx.acceptor,
                offer_tokens_transferred: offer_tokens,
                request_tokens_received: request_tokens,
                remaining_offer_amount,
                remaining_request_amount,
                is_full_acceptance: is_full,
            },
            settlement,
        },
    )
}

/// An acceptance keeps a well-formed record well-formed, takes from the vault
/// exactly the proportional share, and on such a record never overflows.
pub proof fn lemma_accepted_keeps_wf(offer: Offer, request_amount: u64, now: i64)
    requires
        offer.wf(),
    ensures
        match accepted(offer, request_amount, now) {
            Ok(after) => {
                &&& after.wf()
                &&& offer.remaining_offer_amount - after.remaining_offer_amount
                    == offer.proportional_share(request_amount)
                &&& offer.remaining_request_amount - after.remaining_request_amount
                    == request_amount
                &&& request_amount > 0
            },
            Err(error) => error != EscrowError::MathOverflow,
        },
{
    if !offer.expired_at(now) && !offer.full_filled() && 0 < request_amount
        <= offer.remaining_request_amount {
        offer.lemma_share_within_vault(request_amount);
        let o = offer.offer_amount as int;
        let r = offer.request_amount as int;
        let p = request_amount as int;
        let ro = offer.remaining_offer_amount as int;
        let rr = offer.remaining_request_amount as int;
        let q = offer.proportional_share(request_amount);
        assert(q * r <= o * p) by (nonlinear_arith)
            requires
                r > 0,
                q == (o * p) / r,
        ;
        assert((ro - q) * r >= o * (rr - p)) by (nonlinear_arith)
            requires
                q * r <= o * p,
                ro * r >= o * rr,
        ;
    }
}

} // verus!
