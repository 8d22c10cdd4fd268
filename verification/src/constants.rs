//! Constants shared by the instructions.
use vstd::prelude::*;

verus! {

/// Size in bytes of the discriminator that precedes an account's data.
pub const DISCRIMINATOR: usize = 8;

/// The seed from which trade agreement addresses are derived.
pub const TRADE_SEED: &'static str = "trade";

} // verus!
