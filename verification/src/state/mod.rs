//! The accounts that the escrow owns.
pub mod trade;
