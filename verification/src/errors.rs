//! The errors that the escrow reports.
//!
//! Each enum numbers its variants from `ERROR_CODE_OFFSET` in the order in
//! which they are declared: that number, the variant's name and its message
//! are what a client of the program sees.
use vstd::prelude::*;

verus! {

/// The number given to the first variant of each error enum.
pub const ERROR_CODE_OFFSET: u32 = 6000;

/// Errors common to all instructions.
#[derive(Clone, Copy, Debug, PartialEq, Eq, Structural)]
pub enum TradeErrors {
    InvalidTokenProgramId,
}

/// Errors of the instruction that opens a trade.
#[derive(Clone, Copy, Debug, PartialEq, Eq, Structural)]
pub enum InitTradeErrors {
    InsufficientLamports,
    InsufficientTokens,
}

/// Errors of the instruction that fulfills a trade.
#[derive(Clone, Copy, Debug, PartialEq, Eq, Structural)]
pub enum FulfillTradeErrors {
    AskDepositTokenProgramMismatch,
    InsufficientLamports,
    TradeNotOpen,
    TradeAlreadyFulfilled,
    VersionMismatch,
}

/// Errors of the instruction that cancels a trade.
#[derive(Clone, Copy, Debug, PartialEq, Eq, Structural)]
pub enum CancelTradeErrors {
    TradeNotOpen,
}

/// Errors of the instruction that updates a trade.
#[derive(Clone, Copy, Debug, PartialEq, Eq, Structural)]
pub enum UpdateTradeErrors {
    TradeNotOpen,
    TradeAlreadyFulfilled,
}

/// Any error that an instruction of the escrow can end with.
#[derive(Clone, Copy, Debug, PartialEq, Eq, Structural)]
pub enum EscrowError {
    Trade(TradeErrors),
    InitTrade(InitTradeErrors),
    FulfillTrade(FulfillTradeErrors),
    CancelTrade(CancelTradeErrors),
    UpdateTrade(UpdateTradeErrors),
    /// A lamport balance would leave the range of `u64`.
    ArithmeticOverflow,
}

impl TradeErrors {
    /// The position of the variant in its enum.
    pub open spec fn index(self) -> u32 {
        match self {
            TradeErrors::InvalidTokenProgramId => 0,
        }
    }

    /// The name of the variant.
    pub open spec fn spec_name(self) -> Seq<char> {
        match self {
            TradeErrors::InvalidTokenProgramId => "InvalidTokenProgramId"@,
        }
    }

    /// The message shown for the error.
    pub open spec fn spec_message(self) -> Seq<char> {
        match self {
            TradeErrors::InvalidTokenProgramId => "Invalid token program id"@,
        }
    }

    /// The number under which the error is reported.
    pub fn code(&self) -> (code: u32)
        ensures
            code == ERROR_CODE_OFFSET + self.index(),
    {
        match self {
            TradeErrors::InvalidTokenProgramId => ERROR_CODE_OFFSET,
        }
    }

    /// The name of the variant.
    pub fn name(&self) -> (name: &'static str)
        ensures
            name@ == self.spec_name(),
    {
        match self {
            TradeErrors::InvalidTokenProgramId => "InvalidTokenProgramId",
        }
    }

    /// The message shown for the error.
    pub fn message(&self) -> (msg: &'static str)
        ensures
            msg@ == self.spec_message(),
    {
        match self {
            TradeErrors::InvalidTokenProgramId => "Invalid token program id",
        }
    }
}

impl InitTradeErrors {
    /// The position of the variant in its enum.
    pub open spec fn index(self) -> u32 {
        match self {
            InitTradeErrors::InsufficientLamports => 0,
            InitTradeErrors::InsufficientTokens => 1,
        }
    }

    /// The name of the variant.
    pub open spec fn spec_name(self) -> Seq<char> {
        match self {
            InitTradeErrors::InsufficientLamports => "InsufficientLamports"@,
            InitTradeErrors::InsufficientTokens => "InsufficientTokens"@,
        }
    }

    /// The message shown for the error.
    pub open spec fn spec_message(self) -> Seq<char> {
        match self {
            InitTradeErrors::InsufficientLamports => "Not enough deposit Lamports"@,
            InitTradeErrors::InsufficientTokens => "Not enough deposit Tokens"@,
        }
    }

    /// The number under which the error is reported.
    pub fn code(&self) -> (code: u32)
        ensures
            code == ERROR_CODE_OFFSET + self.index(),
    {
        match self {
            InitTradeErrors::InsufficientLamports => ERROR_CODE_OFFSET,
            InitTradeErrors::InsufficientTokens => ERROR_CODE_OFFSET + 1,
        }
    }

    /// The name of the variant.
    pub fn name(&self) -> (name: &'static str)
        ensures
            name@ == self.spec_name(),
    {
        match self {
            InitTradeErrors::InsufficientLamports => "InsufficientLamports",
            InitTradeErrors::InsufficientTokens => "InsufficientTokens",
        }
    }

    /// The message shown for the error.
    pub fn message(&self) -> (msg: &'static str)
        ensures
            msg@ == self.spec_message(),
    {
        match self {
            InitTradeErrors::InsufficientLamports => "Not enough deposit Lamports",
            InitTradeErrors::InsufficientTokens => "Not enough deposit Tokens",
        }
    }
}

impl FulfillTradeErrors {
    /// The position of the variant in its enum.
    pub open spec fn index(self) -> u32 {
        match self {
            FulfillTradeErrors::AskDepositTokenProgramMismatch => 0,
            FulfillTradeErrors::InsufficientLamports => 1,
            FulfillTradeErrors::TradeNotOpen => 2,
            FulfillTradeErrors::TradeAlreadyFulfilled => 3,
            FulfillTradeErrors::VersionMismatch => 4,
        }
    }

    /// The name of the variant.
    pub open spec fn spec_name(self) -> Seq<char> {
        match self {
            FulfillTradeErrors::AskDepositTokenProgramMismatch => "AskDepositTokenProgramMismatch"@,
            FulfillTradeErrors::InsufficientLamports => "InsufficientLamports"@,
            FulfillTradeErrors::TradeNotOpen => "TradeNotOpen"@,
            FulfillTradeErrors::TradeAlreadyFulfilled => "TradeAlreadyFulfilled"@,
            FulfillTradeErrors::VersionMismatch => "VersionMismatch"@,
        }
    }

    /// The message shown for the error.
    pub open spec fn spec_message(self) -> Seq<char> {
        match self {
            FulfillTradeErrors::AskDepositTokenProgramMismatch => "Ask and deposit token programs do not match"@,
            FulfillTradeErrors::InsufficientLamports => "Not enough Lamports"@,
            FulfillTradeErrors::TradeNotOpen => "Trade is not open"@,
            FulfillTradeErrors::TradeAlreadyFulfilled => "Trade is already fulfilled"@,
            FulfillTradeErrors::VersionMismatch => "Trade version mismatch"@,
        }
    }

    /// The number under which the error is reported.
    pub fn code(&self) -> (code: u32)
        ensures
            code == ERROR_CODE_OFFSET + self.index(),
    {
        match self {
            FulfillTradeErrors::AskDepositTokenProgramMismatch => ERROR_CODE_OFFSET,
            FulfillTradeErrors::InsufficientLamports => ERROR_CODE_OFFSET + 1,
            FulfillTradeErrors::TradeNotOpen => ERROR_CODE_OFFSET + 2,
            FulfillTradeErrors::TradeAlreadyFulfilled => ERROR_CODE_OFFSET + 3,
            FulfillTradeErrors::VersionMismatch => ERROR_CODE_OFFSET + 4,
        }
    }

    /// The name of the variant.
    pub fn name(&self) -> (name: &'static str)
        ensures
            name@ == self.spec_name(),
    {
        match self {
            FulfillTradeErrors::AskDepositTokenProgramMismatch => "AskDepositTokenProgramMismatch",
            FulfillTradeErrors::InsufficientLamports => "InsufficientLamports",
            FulfillTradeErrors::TradeNotOpen => "TradeNotOpen",
            FulfillTradeErrors::TradeAlreadyFulfilled => "TradeAlreadyFulfilled",
            FulfillTradeErrors::VersionMismatch => "VersionMismatch",
        }
    }

    /// The message shown for the error.
    pub fn message(&self) -> (msg: &'static str)
        ensures
            msg@ == self.spec_message(),
    {
        match self {
            FulfillTradeErrors::AskDepositTokenProgramMismatch => "Ask and deposit token programs do not match",
            FulfillTradeErrors::InsufficientLamports => "Not enough Lamports",
            FulfillTradeErrors::TradeNotOpen => "Trade is not open",
            FulfillTradeErrors::TradeAlreadyFulfilled => "Trade is already fulfilled",
            FulfillTradeErrors::VersionMismatch => "Trade version mismatch",
        }
    }
}

impl CancelTradeErrors {
    /// The position of the variant in its enum.
    pub open spec fn index(self) -> u32 {
        match self {
            CancelTradeErrors::TradeNotOpen => 0,
        }
    }

    /// The name of the variant.
    pub open spec fn spec_name(self) -> Seq<char> {
        match self {
            CancelTradeErrors::TradeNotOpen => "TradeNotOpen"@,
        }
    }

    /// The message shown for the error.
    pub open spec fn spec_message(self) -> Seq<char> {
        match self {
            CancelTradeErrors::TradeNotOpen => "Trade is not open"@,
        }
    }

    /// The number under which the error is reported.
    pub fn code(&self) -> (code: u32)
        ensures
            code == ERROR_CODE_OFFSET + self.index(),
    {
        match self {
            CancelTradeErrors::TradeNotOpen => ERROR_CODE_OFFSET,
        }
    }

    /// The name of the variant.
    pub fn name(&self) -> (name: &'static str)
        ensures
            name@ == self.spec_name(),
    {
        match self {
            CancelTradeErrors::TradeNotOpen => "TradeNotOpen",
        }
    }

    /// The message shown for the error.
    pub fn message(&self) -> (msg: &'static str)
        ensures
            msg@ == self.spec_message(),
    {
        match self {
            CancelTradeErrors::TradeNotOpen => "Trade is not open",
        }
    }
}

impl UpdateTradeErrors {
    /// The position of the variant in its enum.
    pub open spec fn index(self) -> u32 {
        match self {
            UpdateTradeErrors::TradeNotOpen => 0,
            UpdateTradeErrors::TradeAlreadyFulfilled => 1,
        }
    }

    /// The name of the variant.
    pub open spec fn spec_name(self) -> Seq<char> {
        match self {
            UpdateTradeErrors::TradeNotOpen => "TradeNotOpen"@,
            UpdateTradeErrors::TradeAlreadyFulfilled => "TradeAlreadyFulfilled"@,
        }
    }

    /// The message shown for the error.
    pub open spec fn spec_message(self) -> Seq<char> {
        match self {
            UpdateTradeErrors::TradeNotOpen => "Trade is not open"@,
            UpdateTradeErrors::TradeAlreadyFulfilled => "Trade is already fulfilled"@,
        }
    }

    /// The number under which the error is reported.
    pub fn code(&self) -> (code: u32)
        ensures
            code == ERROR_CODE_OFFSET + self.index(),
    {
        match self {
            UpdateTradeErrors::TradeNotOpen => ERROR_CODE_OFFSET,
            UpdateTradeErrors::TradeAlreadyFulfilled => ERROR_CODE_OFFSET + 1,
        }
    }

    /// The name of the variant.
    pub fn name(&self) -> (name: &'static str)
        ensures
            name@ == self.spec_name(),
    {
        match self {
            UpdateTradeErrors::TradeNotOpen => "TradeNotOpen",
            UpdateTradeErrors::TradeAlreadyFulfilled => "TradeAlreadyFulfilled",
        }
    }

    /// The message shown for the error.
    pub fn message(&self) -> (msg: &'static str)
        ensures
            msg@ == self.spec_message(),
    {
        match self {
            UpdateTradeErrors::TradeNotOpen => "Trade is not open",
            UpdateTradeErrors::TradeAlreadyFulfilled => "Trade is already fulfilled",
        }
    }
}

} // verus!
