//! A token escrow with a Dutch-auction price, modelled over plain values.
//!
//! A maker locks token A in a vault and asks for token B in return. A preferred
//! taker may get an exclusive window at the opening price; after it the price
//! decays linearly to a floor, and the offer expires at a fixed time. The
//! instruction handlers here decide every outcome and describe the token
//! movements that the runtime then performs.

pub mod pubkey;
pub mod error;
pub mod clock;
pub mod state;
pub mod transfer;
pub mod instructions;
pub mod program;
pub mod laws;
