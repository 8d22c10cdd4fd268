//! The trade agreement record and the token programs it can name.
use vstd::prelude::*;

use crate::errors::TradeErrors;
use crate::pubkey::Pubkey;

verus! {

/// The bytes of the address of the SPL Token program
/// (`TokenkegQfeZyiNwAJbNbGKPFXCWuBvf9Ss623VQ5DA` in base 58).
pub open spec fn legacy_token_program_id_bytes() -> Seq<u8> {
    seq![
        6u8, 221, 246, 225, 215, 101, 161, 147, 217, 203, 225, 70, 206, 235, 121, 172,
        28, 180, 133, 237, 95, 91, 55, 145, 58, 140, 245, 133, 126, 255, 0, 169,
    ]
}

/// The bytes of the address of the SPL Token-2022 program
/// (`TokenzQdBNbLqP5VEhdkAS6EPFLC1PHnBqCXEpPxuEb` in base 58).
pub open spec fn token_2022_program_id_bytes() -> Seq<u8> {
    seq![
        6u8, 221, 246, 225, 238, 117, 143, 222, 24, 66, 93, 188, 228, 108, 205, 218,
        182, 26, 252, 77, 131, 185, 13, 39, 254, 189, 249, 40, 216, 161, 139, 252,
    ]
}

/// The address of the SPL Token program, `anchor_spl::token::ID`.
///
/// Trusted: the contract states the bytes that the crate's `declare_id!`
/// gives that constant, decoded from its base-58 text.
#[verifier::external_body]
fn legacy_token_program_id() -> (id: Pubkey)
    ensures
        id@ == legacy_token_program_id_bytes(),
{
    Pubkey { bytes: anchor_spl::token::ID.to_bytes() }
}

/// The address of the SPL Token-2022 program, `anchor_spl::token_2022::ID`.
///
/// Trusted: the contract states the bytes that the crate's `declare_id!`
/// gives that constant, decoded from its base-58 text.
#[verifier::external_body]
fn token_2022_program_id() -> (id: Pubkey)
    ensures
        id@ == token_2022_program_id_bytes(),
{
    Pubkey { bytes: anchor_spl::token_2022::ID.to_bytes() }
}

/// Where a trade stands.
#[derive(Clone, Copy, Debug, PartialEq, Eq, Structural)]
pub enum TradeStatus {
    Open,
    Fulfilled,
    Cancelled,
}

/// The token program that holds one side of a trade.
#[derive(Clone, Copy, Debug, PartialEq, Eq, Structural)]
pub enum TradeTokenProgramVersion {
    LegacyToken,
    Token2022,
}

impl TradeTokenProgramVersion {
    /// The bytes of the address of the program.
    pub open spec fn program_id(self) -> Seq<u8> {
        match self {
            TradeTokenProgramVersion::LegacyToken => legacy_token_program_id_bytes(),
            TradeTokenProgramVersion::Token2022 => token_2022_program_id_bytes(),
        }
    }

    /// Whether `id` is the address of one of the two token programs.
    pub open spec fn is_token_program_id(id: Seq<u8>) -> bool {
        id == legacy_token_program_id_bytes() || id == token_2022_program_id_bytes()
    }

    /// The version whose program has the address `id`, for such an address.
    pub open spec fn version_of(id: Seq<u8>) -> TradeTokenProgramVersion {
        if id == legacy_token_program_id_bytes() {
            TradeTokenProgramVersion::LegacyToken
        } else {
            TradeTokenProgramVersion::Token2022
        }
    }

    /// The address of the program.
    pub fn get_program_id(&self) -> (id: Pubkey)
        ensures
            id@ == self.program_id(),
    {
        match self {
            TradeTokenProgramVersion::LegacyToken => legacy_token_program_id(),
            TradeTokenProgramVersion::Token2022 => token_2022_program_id(),
        }
    }

    /// The version whose program has the address `id`; `id` must be the
    /// address of one of the two token programs.
    pub fn from_id(id: &Pubkey) -> (version: TradeTokenProgramVersion)
        requires
            Self::is_token_program_id(id@),
        ensures
            version == Self::version_of(id@),
            version.program_id() == id@,
    {
        let legacy = legacy_token_program_id();
        if *id == legacy {
            TradeTokenProgramVersion::LegacyToken
        } else {
            TradeTokenProgramVersion::Token2022
        }
    }

    /// The version whose program has the address `id`, or
    /// `InvalidTokenProgramId` where `id` is the address of neither.
    pub fn try_from_id(id: &Pubkey) -> (version: Result<TradeTokenProgramVersion, TradeErrors>)
        ensures
            Self::is_token_program_id(id@) <==> version is Ok,
            version matches Ok(v) ==> v == Self::version_of(id@) && v.program_id() == id@,
            version matches Err(e) ==> e == TradeErrors::InvalidTokenProgramId,
    {
        let legacy = legacy_token_program_id();
        let token_2022 = token_2022_program_id();
        if *id == legacy {
            Ok(TradeTokenProgramVersion::LegacyToken)
        } else if *id == token_2022 {
            Ok(TradeTokenProgramVersion::Token2022)
        } else {
            Err(TradeErrors::InvalidTokenProgramId)
        }
    }
}

/// The two token programs have different addresses.
pub proof fn lemma_program_ids_differ()
    ensures
        legacy_token_program_id_bytes() != token_2022_program_id_bytes(),
{
    assert(legacy_token_program_id_bytes()[4] != token_2022_program_id_bytes()[4]);
}

/// The version found from the address of a version's program is that
/// version, and the program of the version found from an address of a token
/// program has that address.
pub proof fn lemma_program_id_round_trip(version: TradeTokenProgramVersion, id: Seq<u8>)
    ensures
        TradeTokenProgramVersion::is_token_program_id(version.program_id()),
        TradeTokenProgramVersion::version_of(version.program_id()) == version,
        TradeTokenProgramVersion::is_token_program_id(id) ==> TradeTokenProgramVersion::version_of(
            id,
        ).program_id() == id,
{
    lemma_program_ids_differ();
}

/// Trade agreement state
#[derive(Clone, Copy, Debug, PartialEq, Eq)]
pub struct TradeAgreement {
    /// (1) The trade id
    pub id: u8,
    /// (8) The initially deposited assets by the principal party.
    pub deposit_lamps: u64,
    /// (8) The deposit tokens
    pub deposit_tokens: u64,
    /// (32) The deposit mint
    pub deposit_mint: Pubkey,
    /// (1) The deposit mint version (either legacy token or token 2022)
    pub deposit_token_program: TradeTokenProgramVersion,
    /// (8) The depositor ask for the fulfillment of the trade.
    pub ask_lamps: u64,
    /// (8) The ask tokens
    pub ask_tokens: u64,
    /// (32) The ask mint
    pub ask_mint: Pubkey,
    /// (1) The ask mint program version (either legacy token or token 2022)
    pub ask_token_program: TradeTokenProgramVersion,
    /// (32) The depositor public key
    pub depositor: Pubkey,
    /// (32) The beneficiary public key
    pub beneficiary: Pubkey,
    /// (3) The state of the trade
    pub status: TradeStatus,
    /// (1) The bump of the trade agreement account
    pub bump: u8,
    /// (1) The version of the trade agreement (used to prevent frontrunning)
    pub version: u8,
}

impl TradeAgreement {
    pub const TRADE_ID_LENGTH: usize = 32;
    pub const LEN: usize = 1 + 8 + 8 + 32 + 1 + 8 + 8 + 32 + 1 + 32 + 32 + 32 + 32 + 32 + 3 + 1;
}

} // verus!
