//! Creating an offer.

use vstd::prelude::*;
use crate::address::Address;
use crate::custody::Transfer;
use crate::errors::EscrowError;
use crate::events::OfferCreated;
use crate::offer::Offer;

verus! {

/// What a creation works on.
#[derive(Clone, Copy, Debug, PartialEq, Eq)]
pub struct CreateOffer {
    /// Who creates the offer, and pays the offered asset into the vault.
    pub creator: Address,
    /// The address at which the ledger allocates the offer record.
    pub offer: Address,
    /// The asset that is offered.
    pub offer_mint: Address,
    /// The asset that is requested.
    pub request_mint: Address,
    /// The custody account that the ledger allocates for the offered asset.
    pub vault: Address,
    /// The bump seed of the record's derived address.
    pub bump: u8,
}

/// What a creation makes, and what the ledger is to do for it.
#[derive(Clone, Copy, Debug, PartialEq, Eq)]
pub struct Creation {
    /// The new offer record.
    pub offer: Offer,
    /// The offered asset, from the creator into the vault.
    pub deposit: Transfer,
    /// The report of this creation.
    pub event: OfferCreated,
}

/// What a creation at time `now` returns: `InvalidAmount` when either amount
/// is zero, `InvalidDeadline` when the deadline is not after `now`, and
/// otherwise a record with both counters at the full amounts and a deposit of
/// the whole offered amount.
pub open spec fn created(
    ctx: CreateOffer,
    offer_amount: u64,
    request_amount: u64,
    deadline: i64,
    offer_id: u64,
    now: i64,
) -> Result<Creation, EscrowError> {
    if offer_amount == 0 || request_amount == 0 {
        Err(EscrowError::InvalidAmount)
    } else if deadline <= now {
        Err(EscrowError::InvalidDeadline)
    } else {
        Ok(
            Creation {
                offer: Offer {
                    creator: ctx.creator,
                    offer_mint: ctx.offer_mint,
                    request_mint: ctx.request_mint,
                    offer_amount,
                    request_amount,
                    remaining_offer_amount: offer_amount,
                    remaining_request_amount: request_amount,
                    deadline,
                    vault: ctx.vault,
                    bump: ctx.bump,
                    offer_id,
                },
                deposit: Transfer {
                    asset: ctx.offer_mint,
                    from: ctx.creator,
                    to: ctx.vault,
                    amount: offer_amount,
                    authority: ctx.creator,
                },
                event: OfferCreated {
                    offer: ctx.offer,
                    creator: ctx.creator,
                    offer_mint: ctx.offer_mint,
                    request_mint: ctx.request_mint,
                    offer_amount,
                    request_amount,
                    deadline,
                    offer_id,
                },
            },
        )
    }
}

/// Creates an offer of `offer_amount` against `request_amount`, open until
/// `deadline`, at time `now`.
///
/// The new record is well-formed and untouched: both counters stand at the
/// full amounts, and the deposit puts exactly `offer_amount` into the empty
/// vault, so the vault holds what the offer counter says.
pub fn create_offer(
    ctx: &CreateOffer,
    offer_amount: u64,
    request_amount: u64,
    deadline: i64,
    offer_id: u64,
    now: i64,
) -> (outcome: Result<Creation, EscrowError>)
    ensures
        outcome == created(*ctx, offer_amount, request_amount, deadline, offer_id, now),
        outcome is Ok <==> offer_amount > 0 && request_amount > 0 && deadline > now,
        outcome is Ok ==> {
            let creation = outcome->Ok_0;
            &&& creation.offer.wf()
            &&& creation.offer.fresh()
            &&& !creation.offer.full_filled()
            &&& creation.deposit.amount == creation.offer.remaining_offer_amount
        },
{
    if offer_amount == 0 {
        return Err(EscrowError::InvalidAmount);
    }
    if request_amount == 0 {
        return Err(EscrowError::InvalidAmount);
    }
    if deadline <= now {
        return Err(EscrowError::InvalidDeadline);
    }
    let offer = Offer {
        creator: ctx.creator,
        offer_mint: ctx.offer_mint,
        request_mint: ctx.request_mint,
        offer_amount,
        request_amount,
        remaining_offer_amount: offer_amount,
        remaining_request_amount: request_amount,
        deadline,
        vault: ctx.vault,
        bump: ctx.bump,
        offer_id,
    };
    Ok(
        Creation {
            offer,
            deposit: Transfer {
                asset: ctx.offer_mint,
                from: ctx.creator,
                to: ctx.vault,
                amount: offer_amount,
                authority: ctx.creator,
            },
            event: OfferCreated {
                offer: ctx.offer,
                creator: ctx.creator,
                offer_mint: ctx.offer_mint,
                request_mint: ctx.request_mint,
                offer_amount,
                request_amount,
                deadline,
                offer_id,
            },
        },
    )
}

} // verus!
