//! Opening a trade: the depositor puts lamports and tokens in escrow and
//! states what it asks of the beneficiary in return.
use vstd::prelude::*;

use crate::errors::{EscrowError, InitTradeErrors, TradeErrors};
use crate::pubkey::Pubkey;
use crate::state::trade::{TradeAgreement, TradeStatus, TradeTokenProgramVersion};
use crate::transfers::{AccountRole, Step, SystemTransfer, TokenTransfer};

verus! {

/// The input of the instruction that opens a trade.
#[derive(Clone, Copy, Debug, PartialEq, Eq, Structural)]
pub struct InitTradeInput {
    pub id: u8,
    pub deposit_lamps: u64,
    pub deposit_tokens: u64,
    pub ask_lamps: u64,
    pub ask_tokens: u64,
}

/// What the instruction that opens a trade reads of its accounts.
#[derive(Clone, Copy, Debug, PartialEq, Eq)]
pub struct InitTradeAccounts {
    /// The address of the depositor, who signs.
    pub depositor: Pubkey,
    /// The lamports that the depositor holds.
    pub depositor_lamports: u64,
    /// The tokens of the deposit mint that the depositor's token account holds.
    pub depositor_tokens: u64,
    /// The address of the beneficiary.
    pub beneficiary: Pubkey,
    /// The address of the mint of the deposited tokens.
    pub deposit_mint: Pubkey,
    /// The decimals of the mint of the deposited tokens.
    pub deposit_mint_decimals: u8,
    /// The address of the mint of the asked tokens.
    pub ask_mint: Pubkey,
    /// The address of the program that owns the mint of the asked tokens.
    pub ask_mint_owner: Pubkey,
    /// The address of the token program of the deposited tokens.
    pub token_program: Pubkey,
    /// The bump with which the trade's address was derived.
    pub trade_bump: u8,
}

/// The system transfer of the deposited lamports from the depositor to the
/// trade agreement account.
pub open spec fn lamps_deposit_transfer(deposit: u64) -> SystemTransfer {
    SystemTransfer { from: AccountRole::Depositor, to: AccountRole::Trade, lamports: deposit }
}

/// The token transfer of the deposited tokens from the depositor's token
/// account to the trade's token account, which the depositor signs.
pub open spec fn tokens_deposit_transfer(deposit_mint_decimals: u8, deposit: u64) -> TokenTransfer {
    TokenTransfer {
        from: AccountRole::DepositorTokenAccount,
        to: AccountRole::TradeTokenAccount,
        authority: AccountRole::Depositor,
        mint: AccountRole::DepositMint,
        token_program: AccountRole::TokenProgram,
        amount: deposit,
        decimals: deposit_mint_decimals,
        signer: None,
    }
}

/// The steps of opening a trade: the lamports, then the tokens.
pub open spec fn init_steps(accounts: InitTradeAccounts, input: InitTradeInput) -> Seq<Step> {
    seq![
        Step::System(lamps_deposit_transfer(input.deposit_lamps)),
        Step::Token(tokens_deposit_transfer(accounts.deposit_mint_decimals, input.deposit_tokens)),
    ]
}

/// What opening a trade gives: `InvalidTokenProgramId` where the token
/// program given, or the owner of the ask mint, is neither token program;
/// else `InsufficientLamports` where the depositor holds fewer lamports than
/// it deposits; else `InsufficientTokens` where its token account holds fewer
/// tokens than it deposits; else the steps.
pub open spec fn init_result(accounts: InitTradeAccounts, input: InitTradeInput) -> Result<
    Seq<Step>,
    EscrowError,
> {
    if !TradeTokenProgramVersion::is_token_program_id(accounts.token_program@)
        || !TradeTokenProgramVersion::is_token_program_id(accounts.ask_mint_owner@) {
        Err(EscrowError::Trade(TradeErrors::InvalidTokenProgramId))
    } else if input.deposit_lamps > accounts.depositor_lamports {
        Err(EscrowError::InitTrade(InitTradeErrors::InsufficientLamports))
    } else if input.deposit_tokens > accounts.depositor_tokens {
        Err(EscrowError::InitTrade(InitTradeErrors::InsufficientTokens))
    } else {
        Ok(init_steps(accounts, input))
    }
}

/// The record of a trade that has just been opened: the input, the parties,
/// the mints, their token programs and the bump are written, the trade is
/// open, its version is 0, and the other fields keep what the new account
/// held.
pub open spec fn opened_record(
    trade: TradeAgreement,
    accounts: InitTradeAccounts,
    input: InitTradeInput,
) -> TradeAgreement {
    TradeAgreement {
        id: input.id,
        depositor: accounts.depositor,
        beneficiary: accounts.beneficiary,
        deposit_lamps: input.deposit_lamps,
        deposit_tokens: input.deposit_tokens,
        deposit_mint: accounts.deposit_mint,
        deposit_token_program: TradeTokenProgramVersion::version_of(accounts.token_program@),
        ask_lamps: input.ask_lamps,
        ask_tokens: input.ask_tokens,
        ask_mint: accounts.ask_mint,
        ask_token_program: TradeTokenProgramVersion::version_of(accounts.ask_mint_owner@),
        status: TradeStatus::Open,
        bump: accounts.trade_bump,
        version: 0,
        ..trade
    }
}

/// The record after an attempt to open a trade.
pub open spec fn init_record(
    trade: TradeAgreement,
    accounts: InitTradeAccounts,
    input: InitTradeInput,
) -> TradeAgreement {
    if init_result(accounts, input) is Ok {
        opened_record(trade, accounts, input)
    } else {
        trade
    }
}

/// Transfer deposit from depositor to trade agreement
fn transfer_lamps_deposit(depositor_lamports: u64, deposit: u64) -> (transfer: Result<
    SystemTransfer,
    InitTradeErrors,
>)
    ensures
        transfer is Ok <==> deposit <= depositor_lamports,
        transfer matches Ok(t) ==> t == lamps_deposit_transfer(deposit),
        transfer matches Err(e) ==> e == InitTradeErrors::InsufficientLamports,
{
    if depositor_lamports < deposit {
        return Err(InitTradeErrors::InsufficientLamports);
    }
    Ok(SystemTransfer { from: AccountRole::Depositor, to: AccountRole::Trade, lamports: deposit })
}

/// The transfer of the deposited tokens from the depositor's token account to
/// the trade's token account, or `InsufficientTokens` where that account
/// holds fewer.
pub fn transfer_tokens_deposit(depositor_tokens: u64, deposit_mint_decimals: u8, deposit: u64) -> (transfer:
    Result<TokenTransfer, InitTradeErrors>)
    ensures
        transfer is Ok <==> deposit <= depositor_tokens,
        transfer matches Ok(t) ==> t == tokens_deposit_transfer(deposit_mint_decimals, deposit),
        transfer matches Err(e) ==> e == InitTradeErrors::InsufficientTokens,
{
    if depositor_tokens < deposit {
        return Err(InitTradeErrors::InsufficientTokens);
    }
    Ok(TokenTransfer {
        from: AccountRole::DepositorTokenAccount,
        to: AccountRole::TradeTokenAccount,
        authority: AccountRole::Depositor,
        mint: AccountRole::DepositMint,
        token_program: AccountRole::TokenProgram,
        amount: deposit,
        decimals: deposit_mint_decimals,
        signer: None,
    })
}

/// Initialize a new trade agreement, handler of the "init" instruction.
///
/// `trade` is the record of the account that the instruction has just
/// created. On success it returns the transfers to carry out, in order.
pub fn _init(trade: &mut TradeAgreement, accounts: &InitTradeAccounts, input: &InitTradeInput) -> (result:
    Result<Vec<Step>, EscrowError>)
    ensures
        crate::transfers::steps_view(result) == init_result(*accounts, *input),
        *final(trade) == init_record(*old(trade), *accounts, *input),
{
    // The token programs of the two sides
    let deposit_token_program = match TradeTokenProgramVersion::try_from_id(&accounts.token_program) {
        Ok(v) => v,
        Err(e) => return Err(EscrowError::Trade(e)),
    };
    let ask_token_program = match TradeTokenProgramVersion::try_from_id(&accounts.ask_mint_owner) {
        Ok(v) => v,
        Err(e) => return Err(EscrowError::Trade(e)),
    };

    // Transfer the deposit lamports from the depositor to the trade agreement account
    let lamps = match transfer_lamps_deposit(accounts.depositor_lamports, input.deposit_lamps) {
        Ok(t) => t,
        Err(e) => return Err(EscrowError::InitTrade(e)),
    };
    // Transfer the deposit tokens from the depositor to the trade's token account
    let tokens = match transfer_tokens_deposit(
        accounts.depositor_tokens,
        accounts.deposit_mint_decimals,
        input.deposit_tokens,
    ) {
        Ok(t) => t,
        Err(e) => return Err(EscrowError::InitTrade(e)),
    };

    // We then set the trade agreement account metadata
    trade.id = input.id;
    trade.depositor = accounts.depositor;
    trade.beneficiary = accounts.beneficiary;
    trade.deposit_lamps = input.deposit_lamps;
    trade.deposit_tokens = input.deposit_tokens;
    trade.deposit_mint = accounts.deposit_mint;
    trade.deposit_token_program = deposit_token_program;
    trade.ask_lamps = input.ask_lamps;
    trade.ask_tokens = input.ask_tokens;
    trade.ask_mint = accounts.ask_mint;
    trade.ask_token_program = ask_token_program;
    trade.status = TradeStatus::Open;
    trade.bump = accounts.trade_bump;
    trade.version = 0;

    let mut steps: Vec<Step> = Vec::new();
    steps.push(Step::System(lamps));
    steps.push(Step::Token(tokens));
    assert(steps@ =~= init_steps(*accounts, *input));
    Ok(steps)
}

/// Handler for initializing an escrow trade.
pub fn init(trade: &mut TradeAgreement, accounts: &InitTradeAccounts, input: &InitTradeInput) -> (result:
    Result<Vec<Step>, EscrowError>)
    ensures
        crate::transfers::steps_view(result) == init_result(*accounts, *input),
        *final(trade) == init_record(*old(trade), *accounts, *input),
{
    _init(trade, accounts, input)
}

} // verus!
