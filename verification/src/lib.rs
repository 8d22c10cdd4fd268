//! An escrow of lamports and SPL tokens between a depositor and a beneficiary.
//!
//! The library holds the rules of the escrow: which trades may be opened,
//! updated, cancelled or fulfilled, how a trade record changes, and which
//! transfers each instruction asks the Solana runtime to carry out.
pub mod pubkey;

pub mod constants;
pub mod errors;
pub mod state;
pub mod transfers;
pub mod lamports;
pub mod instructions;
pub mod lifecycle;
pub mod laws;
