//! Instructions to the ledger: what a transition asks it to move or close.

use vstd::prelude::*;
use crate::address::Address;
use crate::offer::Offer;

verus! {

/// Move `amount` of `asset` from one holder to another.
///
/// A holder is a principal, or the vault's own address for the tokens in
/// custody. `authority` is who authorizes the debit: the holder itself, or the
/// offer record for its vault.
#[derive(Clone, Copy, Debug, PartialEq, Eq)]
pub struct Transfer {
    pub asset: Address,
    pub from: Address,
    pub to: Address,
    pub amount: u64,
    pub authority: Address,
}

/// Destroy `account` and credit the storage rent it held to `destination`.
#[derive(Clone, Copy, Debug, PartialEq, Eq)]
pub struct CloseAccount {
    pub account: Address,
    pub destination: Address,
    pub authority: Address,
}

/// How an offer ends: what is left in its vault goes back to the creator,
/// then vault and record are destroyed together.
#[derive(Clone, Copy, Debug, PartialEq, Eq)]
pub struct Settlement {
    /// The refund of what the vault still holds; `None` when it is empty.
    pub refund: Option<Transfer>,
    /// The closing of the vault.
    pub close_vault: CloseAccount,
    /// The closing of the offer record.
    pub close_offer: CloseAccount,
}

impl Settlement {
    /// The offered tokens that this settlement takes out of the vault.
    pub open spec fn refunded(&self) -> nat {
        match self.refund {
            Some(transfer) => transfer.amount as nat,
            None => 0,
        }
    }
}

/// How `offer` ends: what its vault still holds goes back to the creator,
/// unless it is empty, and vault and record are closed with their rent
/// credited to `rent_to`. The offer record, at `offer_key`, authorizes it all.
pub open spec fn settle(offer_key: Address, offer: Offer, rent_to: Address) -> Settlement {
    Settlement {
        refund: if offer.remaining_offer_amount > 0 {
            Some(
                Transfer {
                    asset: offer.offer_mint,
                    from: offer.vault,
                    to: offer.creator,
                    amount: offer.remaining_offer_amount,
                    authority: offer_key,
                },
            )
        } else {
            None
        },
        close_vault: CloseAccount {
            account: offer.vault,
            destination: rent_to,
            authority: offer_key,
        },
        close_offer: CloseAccount {
            account: offer_key,
            destination: rent_to,
            authority: offer_key,
        },
    }
}

/// Plans the end of `offer`.
pub fn settlement_of(offer_key: Address, offer: &Offer, rent_to: Address) -> (settlement:
    Settlement)
    ensures
        settlement == settle(offer_key, *offer, rent_to),
        settlement.refunded() == offer.remaining_offer_amount,
{
    let refund = if offer.remaining_offer_amount > 0 {
        Some(
            Transfer {
                asset: offer.offer_mint,
                from: offer.vault,
                to: offer.creator,
                amount: offer.remaining_offer_amount,
                authority: offer_key,
            },
        )
    } else {
        None
    };
    Settlement {
        refund,
        close_vault: CloseAccount { account: offer.vault, destination: rent_to, authority: offer_key },
        close_offer: CloseAccount { account: offer_key, destination: rent_to, authority: offer_key },
    }
}

} // verus!
