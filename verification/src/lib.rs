//! A two-party token escrow: one party places an asset in a vault that only
//! the program can move, and names what it wants in return; a taker completes
//! the swap, or the initializer cancels and takes the deposit back.

pub mod address;
pub mod authority;
pub mod cancel;
pub mod exchange;
pub mod initialize;
pub mod laws;
pub mod ledger;
pub mod lifecycle;
pub mod record;
