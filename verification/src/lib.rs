//! A trustless two-party atomic token swap.
//!
//! Swap terms are recorded in a `SwapInfo` record stored at an address derived
//! deterministically from a seed; a program-controlled authority over locked or
//! delegated funds is reconstructed from that seed, and the `take` operation
//! executes both legs of the trade atomically or fails leaving state untouched.
//! Two authority models are provided: delegation (`delegate` module) and
//! escrow (`escrow` module).

pub mod authority;
pub mod codec;
pub mod delegate;
pub mod escrow;
pub mod identity;
pub mod laws;
pub mod request;
pub mod table;
pub mod token;
