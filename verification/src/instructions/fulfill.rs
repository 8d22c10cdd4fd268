//! Fulfilling a trade: the beneficiary pays what the depositor asks and
//! receives what the depositor put in escrow.
use vstd::prelude::*;

use crate::errors::{EscrowError, FulfillTradeErrors};
use crate::pubkey::Pubkey;
use crate::state::trade::{TradeAgreement, TradeStatus};
use crate::transfers::{AccountRole, LamportMove, Step, SystemTransfer, TokenTransfer, TradeSigner};

verus! {

/// The input of the instruction that fulfills a trade.
#[derive(Clone, Copy, Debug, PartialEq, Eq, Structural)]
pub struct FulfillTradeInput {
    pub id: u8,
    /// The version of the trade that the beneficiary agrees to.
    pub version: u8,
}

/// What the instruction that fulfills a trade reads of its accounts.
#[derive(Clone, Copy, Debug, PartialEq, Eq)]
pub struct FulfillTradeAccounts {
    /// The address of the depositor.
    pub depositor: Pubkey,
    /// The address of the beneficiary, who signs.
    pub beneficiary: Pubkey,
    /// The lamports that the beneficiary holds.
    pub beneficiary_lamports: u64,
    /// The decimals of the mint of the deposited tokens.
    pub deposit_mint_decimals: u8,
    /// The decimals of the mint of the asked tokens.
    pub ask_mint_decimals: u8,
    /// The address of the token program given for the deposit mint.
    pub deposit_token_program: Pubkey,
    /// The address of the token program given for the ask mint.
    pub ask_token_program: Pubkey,
}

/// The checks on the accounts that the trade itself names: each token
/// program given must be the one that the trade records for its side.
pub open spec fn fulfill_constraints(trade: TradeAgreement, accounts: FulfillTradeAccounts) -> Result<
    (),
    FulfillTradeErrors,
> {
    if accounts.deposit_token_program@ != trade.deposit_token_program.program_id() {
        Err(FulfillTradeErrors::AskDepositTokenProgramMismatch)
    } else if accounts.ask_token_program@ != trade.ask_token_program.program_id() {
        Err(FulfillTradeErrors::AskDepositTokenProgramMismatch)
    } else {
        Ok(())
    }
}

/// The system transfer of the asked lamports from the beneficiary to the
/// depositor.
pub open spec fn ask_lamps_transfer(ask: u64) -> SystemTransfer {
    SystemTransfer { from: AccountRole::Beneficiary, to: AccountRole::Depositor, lamports: ask }
}

/// The token transfer of the asked tokens from the beneficiary to the
/// depositor, which the beneficiary signs.
pub open spec fn ask_tokens_transfer(trade: TradeAgreement, accounts: FulfillTradeAccounts) -> TokenTransfer {
    TokenTransfer {
        from: AccountRole::BeneficiaryAskTokenAccount,
        to: AccountRole::DepositorAskTokenAccount,
        authority: AccountRole::Beneficiary,
        mint: AccountRole::AskMint,
        token_program: AccountRole::AskTokenProgram,
        amount: trade.ask_tokens,
        decimals: accounts.ask_mint_decimals,
        signer: None,
    }
}

/// The move of the deposited lamports from the trade agreement account to
/// the beneficiary.
pub open spec fn deposit_lamps_move(trade: TradeAgreement) -> LamportMove {
    LamportMove::Guarded {
        from: AccountRole::Trade,
        to: AccountRole::Beneficiary,
        amount: trade.deposit_lamps,
    }
}

/// The token transfer of the deposited tokens from the trade's token account
/// to the beneficiary, which the trade signs.
pub open spec fn deposit_tokens_transfer(trade: TradeAgreement, accounts: FulfillTradeAccounts) -> TokenTransfer {
    TokenTransfer {
        from: AccountRole::TradeTokenAccount,
        to: AccountRole::BeneficiaryDepositTokenAccount,
        authority: AccountRole::Trade,
        mint: AccountRole::DepositMint,
        token_program: AccountRole::DepositTokenProgram,
        amount: trade.deposit_tokens,
        decimals: accounts.deposit_mint_decimals,
        signer: Some(TradeSigner::spec_of(trade, accounts.depositor, accounts.beneficiary)),
    }
}

/// The steps of fulfilling a trade: the asked lamports and tokens go to the
/// depositor, then the deposited lamports and tokens go to the beneficiary.
pub open spec fn fulfill_steps(trade: TradeAgreement, accounts: FulfillTradeAccounts) -> Seq<Step> {
    seq![
        Step::System(ask_lamps_transfer(trade.ask_lamps)),
        Step::Token(ask_tokens_transfer(trade, accounts)),
        Step::Lamports(deposit_lamps_move(trade)),
        Step::Token(deposit_tokens_transfer(trade, accounts)),
    ]
}

/// What the handler gives for accounts that passed their checks:
/// `TradeAlreadyFulfilled` for a fulfilled trade; else `TradeNotOpen` for a
/// trade that is not open; else `VersionMismatch` where the trade's version is not the one that the
/// beneficiary agreed to (it was updated since); else `InsufficientLamports`
/// where the beneficiary holds fewer lamports than the trade asks; else the
/// steps.
pub open spec fn fulfill_handler_result(
    trade: TradeAgreement,
    accounts: FulfillTradeAccounts,
    input: FulfillTradeInput,
) -> Result<Seq<Step>, EscrowError> {
    if trade.status == TradeStatus::Fulfilled {
        Err(EscrowError::FulfillTrade(FulfillTradeErrors::TradeAlreadyFulfilled))
    } else if trade.status != TradeStatus::Open {
        Err(EscrowError::FulfillTrade(FulfillTradeErrors::TradeNotOpen))
    } else if trade.version != input.version {
        Err(EscrowError::FulfillTrade(FulfillTradeErrors::VersionMismatch))
    } else if trade.ask_lamps > accounts.beneficiary_lamports {
        Err(EscrowError::FulfillTrade(FulfillTradeErrors::InsufficientLamports))
    } else {
        Ok(fulfill_steps(trade, accounts))
    }
}

/// What the instruction gives: the checks on the accounts, then the handler.
pub open spec fn fulfill_result(
    trade: TradeAgreement,
    accounts: FulfillTradeAccounts,
    input: FulfillTradeInput,
) -> Result<Seq<Step>, EscrowError> {
    match fulfill_constraints(trade, accounts) {
        Err(e) => Err(EscrowError::FulfillTrade(e)),
        Ok(()) => fulfill_handler_result(trade, accounts, input),
    }
}

/// The record of a fulfilled trade: only its status changes.
pub open spec fn fulfilled_record(trade: TradeAgreement) -> TradeAgreement {
    TradeAgreement { status: TradeStatus::Fulfilled, ..trade }
}

/// The record after an attempt to fulfill a trade.
pub open spec fn fulfill_record(
    trade: TradeAgreement,
    accounts: FulfillTradeAccounts,
    input: FulfillTradeInput,
) -> TradeAgreement {
    if fulfill_result(trade, accounts, input) is Ok {
        fulfilled_record(trade)
    } else {
        trade
    }
}

/// Checks the accounts that the trade itself names.
pub fn check_fulfill_constraints(trade: &TradeAgreement, accounts: &FulfillTradeAccounts) -> (result:
    Result<(), FulfillTradeErrors>)
    ensures
        result == fulfill_constraints(*trade, *accounts),
{
    if accounts.deposit_token_program != trade.deposit_token_program.get_program_id() {
        return Err(FulfillTradeErrors::AskDepositTokenProgramMismatch);
    }
    if accounts.ask_token_program != trade.ask_token_program.get_program_id() {
        return Err(FulfillTradeErrors::AskDepositTokenProgramMismatch);
    }
    Ok(())
}

/// Transfer ask from beneficiary to depositor
fn transfer_ask_lamps(beneficiary_lamports: u64, ask: u64) -> (transfer: Result<
    SystemTransfer,
    FulfillTradeErrors,
>)
    ensures
        transfer is Ok <==> ask <= beneficiary_lamports,
        transfer matches Ok(t) ==> t == ask_lamps_transfer(ask),
        transfer matches Err(e) ==> e == FulfillTradeErrors::InsufficientLamports,
{
    if beneficiary_lamports < ask {
        return Err(FulfillTradeErrors::InsufficientLamports);
    }
    Ok(SystemTransfer { from: AccountRole::Beneficiary, to: AccountRole::Depositor, lamports: ask })
}

/// Transfer deposit from trade agreement account to beneficiary: the move
/// that the program makes itself, once the transfers before it are done.
fn transfer_lamps_trade_to_beneficiary(deposit: u64) -> (mv: LamportMove)
    ensures
        mv == (LamportMove::Guarded { from: AccountRole::Trade, to: AccountRole::Beneficiary, amount: deposit }),
{
    LamportMove::Guarded { from: AccountRole::Trade, to: AccountRole::Beneficiary, amount: deposit }
}

/// A checked token transfer between two token accounts, signed by the trade
/// where `signer` is given.
fn transfer_fulfill_tokens(
    from: AccountRole,
    to: AccountRole,
    authority: AccountRole,
    token_program: AccountRole,
    mint: AccountRole,
    decimals: u8,
    amount: u64,
    signer: Option<TradeSigner>,
) -> (transfer: TokenTransfer)
    ensures
        transfer == (TokenTransfer { from, to, authority, mint, token_program, amount, decimals, signer }),
{
    TokenTransfer { from, to, authority, mint, token_program, amount, decimals, signer }
}

/// Fulfill a trade agreement, handler of the "fulfill" instruction, for
/// accounts that passed their checks. On success it returns the transfers
/// to carry out, in order.
pub fn _fulfill(trade: &mut TradeAgreement, accounts: &FulfillTradeAccounts, input: &FulfillTradeInput) -> (result:
    Result<Vec<Step>, EscrowError>)
    requires
        fulfill_constraints(*old(trade), *accounts) is Ok,
    ensures
        crate::transfers::steps_view(result) == fulfill_handler_result(*old(trade), *accounts, *input),
        *final(trade) == (if result is Ok { fulfilled_record(*old(trade)) } else { *old(trade) }),
{
    // Only an open trade is fulfilled, and only once
    if trade.status == TradeStatus::Fulfilled {
        return Err(EscrowError::FulfillTrade(FulfillTradeErrors::TradeAlreadyFulfilled));
    }
    if trade.status != TradeStatus::Open {
        return Err(EscrowError::FulfillTrade(FulfillTradeErrors::TradeNotOpen));
    }
    // A trade updated since the beneficiary read it is not fulfilled
    if trade.version != input.version {
        return Err(EscrowError::FulfillTrade(FulfillTradeErrors::VersionMismatch));
    }
    let signer = TradeSigner::of(trade, &accounts.depositor, &accounts.beneficiary);

    // Transfer ask lamports from beneficiary to depositor
    let ask_lamps = match transfer_ask_lamps(accounts.beneficiary_lamports, trade.ask_lamps) {
        Ok(t) => t,
        Err(e) => return Err(EscrowError::FulfillTrade(e)),
    };

    // Transfer ask tokens from beneficiary to depositor
    let ask_tokens = transfer_fulfill_tokens(
        AccountRole::BeneficiaryAskTokenAccount,
        AccountRole::DepositorAskTokenAccount,
        AccountRole::Beneficiary,
        AccountRole::AskTokenProgram,
        AccountRole::AskMint,
        accounts.ask_mint_decimals,
        trade.ask_tokens,
        None,
    );

    // Transfer deposit lamports from trade agreement account to beneficiary
    let deposit_lamps = transfer_lamps_trade_to_beneficiary(trade.deposit_lamps);

    // Transfer deposit tokens from trade agreement account to beneficiary
    let deposit_tokens = transfer_fulfill_tokens(
        AccountRole::TradeTokenAccount,
        AccountRole::BeneficiaryDepositTokenAccount,
        AccountRole::Trade,
        AccountRole::DepositTokenProgram,
        AccountRole::DepositMint,
        accounts.deposit_mint_decimals,
        trade.deposit_tokens,
        Some(signer),
    );

    let mut steps: Vec<Step> = Vec::new();
    steps.push(Step::System(ask_lamps));
    steps.push(Step::Token(ask_tokens));
    steps.push(Step::Lamports(deposit_lamps));
    steps.push(Step::Token(deposit_tokens));
    assert(steps@ =~= fulfill_steps(*old(trade), *accounts));

    trade.status = TradeStatus::Fulfilled;
    Ok(steps)
}

/// Handler for fulfilling an escrow trade: checks the accounts that the
/// trade names, then fulfills it.
pub fn fulfill(trade: &mut TradeAgreement, accounts: &FulfillTradeAccounts, input: &FulfillTradeInput) -> (result:
    Result<Vec<Step>, EscrowError>)
    ensures
        crate::transfers::steps_view(result) == fulfill_result(*old(trade), *accounts, *input),
        *final(trade) == fulfill_record(*old(trade), *accounts, *input),
{
    match check_fulfill_constraints(trade, accounts) {
        Err(e) => Err(EscrowError::FulfillTrade(e)),
        Ok(()) => _fulfill(trade, accounts, input),
    }
}

} // verus!
