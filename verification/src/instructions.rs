//! The four lifecycle transitions.
//!
//! Each one decides from the record, the caller and the trusted time whether
//! it applies, and if so returns the new record together with what the ledger
//! is to do. Nothing here moves a token: the ledger carries out the transfers
//! and closings that a transition returns, all of them or none.

pub mod accept_offer;
pub mod cancel_offer;
pub mod close_expired_offer;
pub mod create_offer;
