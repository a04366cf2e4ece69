//! A bilateral token-swap escrow: the offer record, its partial-fill
//! arithmetic, and the four lifecycle transitions.

pub mod accounting;
pub mod address;
pub mod custody;
pub mod derivation;
pub mod errors;
pub mod events;
pub mod instructions;
pub mod offer;
