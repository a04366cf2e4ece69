//! What holds of an offer over its whole life: however it is accepted, no
//! more leaves the vault than went in, and nothing is left behind.

use vstd::prelude::*;
use crate::address::Address;
use crate::custody::settle;
use crate::errors::EscrowError;
use crate::instructions::accept_offer::{
    acceptance, accepted, lemma_accepted_keeps_wf, AcceptOffer,
};
use crate::instructions::cancel_offer::{cancelled, CancelOffer, Cancellation};
use crate::instructions::close_expired_offer::{closed, CloseExpiredOffer, ExpiredClosure};
use crate::offer::Offer;

verus! {

/// One request to accept an offer: who pays, how much, and when.
pub struct AcceptCall {
    pub acceptor: Address,
    pub request_amount: u64,
    pub now: i64,
}

/// The record after one request: changed if the request is granted, as it
/// was if it is refused.
pub open spec fn after_accept(offer: Offer, call: AcceptCall) -> Offer {
    match accepted(offer, call.request_amount, call.now) {
        Ok(after) => after,
        Err(_) => offer,
    }
}

/// The offered tokens that one request pays out, as its report says; none if
/// it is refused.
pub open spec fn offer_tokens_of(offer_key: Address, offer: Offer, call: AcceptCall) -> nat {
    match accepted(offer, call.request_amount, call.now) {
        Ok(after) => acceptance(
            AcceptOffer { offer_key, offer, acceptor: call.acceptor },
            after,
        ).event.offer_tokens_transferred as nat,
        Err(_) => 0,
    }
}

/// The requested tokens that one request pays in, as its report says; none
/// if it is refused.
pub open spec fn request_tokens_of(offer_key: Address, offer: Offer, call: AcceptCall) -> nat {
    match accepted(offer, call.request_amount, call.now) {
        Ok(after) => acceptance(
            AcceptOffer { offer_key, offer, acceptor: call.acceptor },
            after,
        ).event.request_tokens_received as nat,
        Err(_) => 0,
    }
}

/// The record after the requests `calls`, served one after the other, each on
/// what the one before it left.
pub open spec fn after_accepts(offer: Offer, calls: Seq<AcceptCall>) -> Offer
    decreases calls.len(),
{
    if calls.len() == 0 {
        offer
    } else {
        after_accepts(after_accept(offer, calls[0]), calls.drop_first())
    }
}

/// All offered tokens that the requests `calls` pay out.
pub open spec fn offer_tokens_transferred(
    offer_key: Address,
    offer: Offer,
    calls: Seq<AcceptCall>,
) -> nat
    decreases calls.len(),
{
    if calls.len() == 0 {
        0
    } else {
        offer_tokens_of(offer_key, offer, calls[0]) + offer_tokens_transferred(
            offer_key,
            after_accept(offer, calls[0]),
            calls.drop_first(),
        )
    }
}

/// All requested tokens that the requests `calls` pay in.
pub open spec fn request_tokens_received(
    offer_key: Address,
    offer: Offer,
    calls: Seq<AcceptCall>,
) -> nat
    decreases calls.len(),
{
    if calls.len() == 0 {
        0
    } else {
        request_tokens_of(offer_key, offer, calls[0]) + request_tokens_received(
            offer_key,
            after_accept(offer, calls[0]),
            calls.drop_first(),
        )
    }
}

/// A granted request lowers each counter by exactly what its report says
/// changed hands, and pays in exactly what was asked.
pub proof fn lemma_accept_moves_what_it_reports(offer_key: Address, offer: Offer, call: AcceptCall)
    ensures
        offer_tokens_of(offer_key, offer, call) + after_accept(offer, call).remaining_offer_amount
            == offer.remaining_offer_amount,
        request_tokens_of(offer_key, offer, call) + after_accept(
            offer,
            call,
        ).remaining_request_amount == offer.remaining_request_amount,
        accepted(offer, call.request_amount, call.now) is Ok ==> request_tokens_of(
            offer_key,
            offer,
            call,
        ) == call.request_amount,
        offer.wf() ==> after_accept(offer, call).wf(),
{
    if offer.wf() {
        lemma_accepted_keeps_wf(
            offer,
            call.request_amount,
            call.now,
        );
    }
}

/// Whatever requests are made of an offer, in whatever order and whether
/// granted or refused: what they pay out and what is still in the vault add
/// up to what the vault held before, and likewise for what is paid in. So
/// the payouts never exceed the offered amount, nor the payments the
/// requested amount, and the record stays well-formed.
pub proof fn lemma_accepts_never_exceed_the_offer(
    offer_key: Address,
    offer: Offer,
    calls: Seq<AcceptCall>,
)
    requires
        offer.wf(),
    ensures
        after_accepts(offer, calls).wf(),
        offer_tokens_transferred(offer_key, offer, calls) + after_accepts(
            offer,
            calls,
        ).remaining_offer_amount == offer.remaining_offer_amount,
        request_tokens_received(offer_key, offer, calls) + after_accepts(
            offer,
            calls,
        ).remaining_request_amount == offer.remaining_request_amount,
        offer_tokens_transferred(offer_key, offer, calls) <= offer.offer_amount,
        request_tokens_received(offer_key, offer, calls) <= offer.request_amount,
    decreases calls.len(),
{
    if calls.len() > 0 {
        lemma_accept_moves_what_it_reports(offer_key, offer, calls[0]);
        lemma_accepts_never_exceed_the_offer(
            offer_key,
            after_accept(offer, calls[0]),
            calls.drop_first(),
        );
    }
}

/// Nothing is lost: when the vault of an offer is settled after any requests,
/// by a filling acceptance, a cancellation or a closing, the payouts and the
/// refund together are what the vault held at first. For a new offer that is
/// the whole offered amount, so what rounding down withheld from the
/// acceptors is returned to the creator.
pub proof fn lemma_payouts_and_refund_make_the_offer(
    offer_key: Address,
    offer: Offer,
    calls: Seq<AcceptCall>,
    rent_to: Address,
)
    requires
        offer.wf(),
    ensures
        offer_tokens_transferred(offer_key, offer, calls) + settle(
            offer_key,
            after_accepts(offer, calls),
            rent_to,
        ).refunded() == offer.remaining_offer_amount,
        offer.fresh() ==> offer_tokens_transferred(offer_key, offer, calls) + settle(
            offer_key,
            after_accepts(offer, calls),
            rent_to,
        ).refunded() == offer.offer_amount,
{
    lemma_accepts_never_exceed_the_offer(offer_key, offer, calls);
}

/// A well-formed offer is filled exactly when nothing remains to be paid: the
/// vault cannot run empty while part of the request is still open.
pub proof fn lemma_filled_means_paid(offer: Offer)
    requires
        offer.wf(),
    ensures
        offer.full_filled() <==> offer.remaining_request_amount == 0,
{
    let o = offer.offer_amount as int;
    let rr = offer.remaining_request_amount as int;
    if offer.remaining_offer_amount == 0 && rr > 0 {
        assert(o * rr > 0) by (nonlinear_arith)
            requires
                o > 0,
                rr > 0,
        ;
        assert(0 * (offer.request_amount as int) == 0);
    }
}

/// Paying all that remains of the request of an open offer, in time, fills
/// it: the payment is granted, the record is filled and not open, and the
/// same acceptance settles the vault and credits its rent to the creator.
pub proof fn lemma_paying_the_remainder_fills(ctx: AcceptOffer, now: i64)
    requires
        ctx.offer.wf(),
        !ctx.offer.expired_at(now),
        !ctx.offer.full_filled(),
    ensures
        accepted(ctx.offer, ctx.offer.remaining_request_amount, now) is Ok,
        ({
            let after = accepted(ctx.offer, ctx.offer.remaining_request_amount, now)->Ok_0;
            let plan = acceptance(ctx, after);
            &&& after.full_filled()
            &&& after.remaining_request_amount == 0
            &&& plan.event.is_full_acceptance
            &&& plan.event.request_tokens_received == ctx.offer.remaining_request_amount
            &&& plan.settlement == Some(settle(ctx.offer_key, after, ctx.offer.creator))
            &&& plan.settlement->Some_0.close_vault.account == ctx.offer.vault
            &&& plan.settlement->Some_0.close_vault.destination == ctx.offer.creator
            &&& plan.settlement->Some_0.close_offer.account == ctx.offer_key
            &&& plan.settlement->Some_0.close_offer.destination == ctx.offer.creator
            &&& plan.payout.amount + plan.settlement->Some_0.refunded()
                == ctx.offer.remaining_offer_amount
        }),
{
    lemma_accepted_keeps_wf(
        ctx.offer,
        ctx.offer.remaining_request_amount,
        now,
    );
}

/// Paying less than remains of the request leaves a well-formed offer open:
/// no settlement yet, and both counters still positive.
pub proof fn lemma_paying_less_leaves_open(ctx: AcceptOffer, request_amount: u64, now: i64)
    requires
        ctx.offer.wf(),
        !ctx.offer.expired_at(now),
        0 < request_amount < ctx.offer.remaining_request_amount,
    ensures
        accepted(ctx.offer, request_amount, now) is Ok,
        ({
            let after = accepted(ctx.offer, request_amount, now)->Ok_0;
            let plan = acceptance(ctx, after);
            &&& !after.full_filled()
            &&& !plan.event.is_full_acceptance
            &&& plan.settlement is None
            &&& after.remaining_request_amount < ctx.offer.remaining_request_amount
            &&& after.remaining_offer_amount <= ctx.offer.remaining_offer_amount
        }),
{
    lemma_filled_means_paid(ctx.offer);
    lemma_accepted_keeps_wf(ctx.offer, request_amount, now);
    let after = accepted(ctx.offer, request_amount, now)->Ok_0;
    lemma_filled_means_paid(after);
}

/// Asking, in time, for more than remains of the request is refused with
/// `InsufficientOfferAmount`, and the record stays as it was.
pub proof fn lemma_asking_too_much_is_refused(offer: Offer, call: AcceptCall)
    requires
        !offer.expired_at(call.now),
        call.request_amount > offer.remaining_request_amount,
    ensures
        accepted(offer, call.request_amount, call.now) == Err::<Offer, EscrowError>(
            EscrowError::InsufficientOfferAmount,
        ),
        after_accept(offer, call) == offer,
{
}

/// Only the creator cancels: anybody else is refused with `Unauthorized`,
/// with nothing for the ledger to do, and the creator is granted the refund
/// of all that the vault holds and the rent of vault and record.
pub proof fn lemma_only_the_creator_cancels(ctx: CancelOffer)
    ensures
        ctx.creator != ctx.offer.creator ==> cancelled(ctx) == Err::<Cancellation, EscrowError>(
            EscrowError::Unauthorized,
        ),
        ctx.creator == ctx.offer.creator ==> {
            let plan = cancelled(ctx)->Ok_0;
            &&& cancelled(ctx) is Ok
            &&& plan.settlement.refunded() == ctx.offer.remaining_offer_amount
            &&& plan.settlement.refund is Some ==> plan.settlement.refund->Some_0.to == ctx.creator
            &&& plan.settlement.close_vault.account == ctx.offer.vault
            &&& plan.settlement.close_vault.destination == ctx.creator
            &&& plan.settlement.close_offer.account == ctx.offer_key
            &&& plan.settlement.close_offer.destination == ctx.creator
            &&& plan.event.refunded_amount == ctx.offer.remaining_offer_amount
        },
{
}

/// Anyone closes an expired offer, and nobody an offer in time. After the
/// deadline the creator is refunded all that the vault holds whoever closes,
/// and the closer is credited the rent of vault and record.
pub proof fn lemma_closing_refunds_the_creator(
    offer_key: Address,
    offer: Offer,
    closer: Address,
    other_closer: Address,
    now: i64,
)
    ensures
        now <= offer.deadline ==> closed(CloseExpiredOffer { offer_key, offer, closer }, now)
            == Err::<ExpiredClosure, EscrowError>(EscrowError::OfferNotExpired),
        now > offer.deadline ==> {
            let outcome = closed(CloseExpiredOffer { offer_key, offer, closer }, now);
            let other = closed(CloseExpiredOffer { offer_key, offer, closer: other_closer }, now);
            let plan = outcome->Ok_0;
            &&& outcome is Ok
            &&& plan.settlement.refunded() == offer.remaining_offer_amount
            &&& plan.settlement.refund is Some ==> plan.settlement.refund->Some_0.to
                == offer.creator
            &&& plan.settlement.refund == other->Ok_0.settlement.refund
            &&& plan.settlement.close_vault.account == offer.vault
            &&& plan.settlement.close_vault.destination == closer
            &&& plan.settlement.close_offer.account == offer_key
            &&& plan.settlement.close_offer.destination == closer
            &&& plan.event.refunded_amount == offer.remaining_offer_amount
        },
{
}

} // verus!
