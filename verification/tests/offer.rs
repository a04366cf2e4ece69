use escrow::address::Address;
use escrow::errors::EscrowError;
use escrow::offer::Offer;

fn key(tag: u8) -> Address {
    Address::new([tag; 32])
}

fn offer(offer_amount: u64, request_amount: u64, remaining_offer: u64, remaining_request: u64) -> Offer {
    Offer {
        creator: key(1),
        offer_mint: key(3),
        request_mint: key(4),
        offer_amount,
        request_amount,
        remaining_offer_amount: remaining_offer,
        remaining_request_amount: remaining_request,
        deadline: 1000,
        vault: key(5),
        bump: 255,
        offer_id: 1,
    }
}

#[test]
fn address_keeps_its_bytes() {
    let mut bytes = [0u8; 32];
    for (i, b) in bytes.iter_mut().enumerate() {
        *b = i as u8;
    }
    let address = Address::new(bytes);
    assert_eq!(address.to_bytes(), bytes);
    assert_eq!(address.to_vec(), bytes.to_vec());
}

#[test]
fn addresses_are_equal_when_all_bytes_are() {
    assert_eq!(key(1), key(1));
    assert_ne!(key(1), key(2));
    let mut first = [5u8; 32];
    first[0] = 6;
    assert_ne!(Address::new(first), key(5));
}

#[test]
fn is_expired_only_after_the_deadline() {
    let o = offer(10, 10, 10, 10);
    assert!(!o.is_expired(999));
    assert!(!o.is_expired(1000));
    assert!(o.is_expired(1001));
    assert!(!o.is_expired(i64::MIN));
    assert!(o.is_expired(i64::MAX));
}

#[test]
fn is_full_filled_when_either_counter_is_zero() {
    assert!(!offer(10, 10, 10, 10).is_full_filled());
    assert!(!offer(10, 10, 1, 1).is_full_filled());
    assert!(offer(10, 10, 0, 0).is_full_filled());
    assert!(offer(10, 10, 1, 0).is_full_filled());
    assert!(offer(10, 10, 0, 1).is_full_filled());
}

#[test]
fn partial_fill_is_proportional() {
    let o = offer(1000, 500, 1000, 500);
    assert_eq!(o.calculate_partial_fill(250), Ok((500, 250)));
    assert_eq!(o.calculate_partial_fill(500), Ok((1000, 500)));
    assert_eq!(o.calculate_partial_fill(1), Ok((2, 1)));
}

#[test]
fn partial_fill_rounds_down() {
    let o = offer(3, 2, 3, 2);
    assert_eq!(o.calculate_partial_fill(1), Ok((1, 1)));
    let o = offer(10, 3, 10, 3);
    assert_eq!(o.calculate_partial_fill(1), Ok((3, 1)));
    assert_eq!(o.calculate_partial_fill(2), Ok((6, 2)));
    assert_eq!(o.calculate_partial_fill(3), Ok((10, 3)));
    let o = offer(1, 3, 1, 3);
    assert_eq!(o.calculate_partial_fill(2), Ok((0, 2)));
}

#[test]
fn partial_fill_uses_the_rate_fixed_at_creation_not_the_remainders() {
    let o = offer(1000, 500, 10, 100);
    assert_eq!(o.calculate_partial_fill(100), Ok((200, 100)));
}

#[test]
fn partial_fill_of_nothing_is_an_invalid_amount() {
    assert_eq!(offer(1000, 500, 1000, 500).calculate_partial_fill(0), Err(EscrowError::InvalidAmount));
    assert_eq!(offer(1000, 500, 0, 0).calculate_partial_fill(0), Err(EscrowError::InvalidAmount));
}

#[test]
fn partial_fill_beyond_the_remainder_is_insufficient() {
    let o = offer(1000, 500, 500, 250);
    assert_eq!(o.calculate_partial_fill(251), Err(EscrowError::InsufficientOfferAmount));
    assert_eq!(o.calculate_partial_fill(u64::MAX), Err(EscrowError::InsufficientOfferAmount));
    assert_eq!(o.calculate_partial_fill(250), Ok((500, 250)));
}

#[test]
fn partial_fill_does_not_overflow_on_the_largest_amounts() {
    let o = offer(u64::MAX, u64::MAX, u64::MAX, u64::MAX);
    assert_eq!(o.calculate_partial_fill(u64::MAX), Ok((u64::MAX, u64::MAX)));
    assert_eq!(o.calculate_partial_fill(1), Ok((1, 1)));
    let o = offer(u64::MAX, 2, u64::MAX, 2);
    assert_eq!(o.calculate_partial_fill(1), Ok((u64::MAX / 2, 1)));
}

#[test]
fn partial_fill_against_a_zero_request_overflows() {
    let o = offer(1000, 0, 1000, 5);
    assert_eq!(o.calculate_partial_fill(5), Err(EscrowError::MathOverflow));
}

#[test]
fn partial_fill_that_does_not_fit_overflows() {
    let o = offer(u64::MAX, 1, u64::MAX, 2);
    assert_eq!(o.calculate_partial_fill(2), Err(EscrowError::MathOverflow));
    assert_eq!(o.calculate_partial_fill(1), Ok((u64::MAX, 1)));
}

#[test]
fn every_error_has_its_message() {
    assert_eq!(EscrowError::OfferExpired.message(), "The offer has expired");
    assert_eq!(EscrowError::OfferNotExpired.message(), "The offer has not expired yet");
    assert_eq!(EscrowError::InvalidAmount.message(), "Invalid amount specified");
    assert_eq!(
        EscrowError::InsufficientOfferAmount.message(),
        "Insufficient offer amount remaining"
    );
    assert_eq!(EscrowError::MathOverflow.message(), "Math overflow occurred");
    assert_eq!(
        EscrowError::Unauthorized.message(),
        "Only the offer creator can perform this action"
    );
    assert_eq!(EscrowError::InvalidDeadline.message(), "The deadline must be in the future");
}
