//! Cancelling an open trade: the depositor takes back what it put in escrow.
use vstd::prelude::*;

use crate::errors::{CancelTradeErrors, EscrowError};
use crate::pubkey::Pubkey;
use crate::state::trade::{TradeAgreement, TradeStatus};
use crate::transfers::{AccountRole, LamportMove, Step, TokenTransfer, TradeSigner};

verus! {

/// What the instruction that cancels a trade reads of its accounts.
#[derive(Clone, Copy, Debug, PartialEq, Eq)]
pub struct CancelTradeAccounts {
    /// The address of the depositor, who signs.
    pub depositor: Pubkey,
    /// The address of the beneficiary.
    pub beneficiary: Pubkey,
    /// The decimals of the mint of the deposited tokens.
    pub deposit_mint_decimals: u8,
}

/// The check on the trade: only an open trade can be cancelled.
pub open spec fn cancel_constraints(trade: TradeAgreement) -> Result<(), CancelTradeErrors> {
    if trade.status == TradeStatus::Open {
        Ok(())
    } else {
        Err(CancelTradeErrors::TradeNotOpen)
    }
}

/// The token transfer that returns the deposited tokens from the trade's
/// token account to the depositor, which the trade signs with its seeds.
pub open spec fn tokens_refund_transfer(trade: TradeAgreement, accounts: CancelTradeAccounts) -> TokenTransfer {
    TokenTransfer {
        from: AccountRole::TradeTokenAccount,
        to: AccountRole::DepositorTokenAccount,
        authority: AccountRole::Trade,
        mint: AccountRole::DepositMint,
        token_program: AccountRole::DepositTokenProgram,
        amount: trade.deposit_tokens,
        decimals: accounts.deposit_mint_decimals,
        signer: Some(TradeSigner::spec_of(trade, accounts.depositor, accounts.beneficiary)),
    }
}

/// The move that returns the deposited lamports from the trade agreement
/// account to the depositor.
pub open spec fn lamps_refund_move(trade: TradeAgreement) -> LamportMove {
    LamportMove::Checked {
        from: AccountRole::Trade,
        to: AccountRole::Depositor,
        amount: trade.deposit_lamps,
    }
}

/// The steps of cancelling a trade: the tokens, then the lamports go back.
pub open spec fn cancel_steps(trade: TradeAgreement, accounts: CancelTradeAccounts) -> Seq<Step> {
    seq![
        Step::Token(tokens_refund_transfer(trade, accounts)),
        Step::Lamports(lamps_refund_move(trade)),
    ]
}

/// What the instruction gives: the check on the trade, then the steps.
pub open spec fn cancel_result(trade: TradeAgreement, accounts: CancelTradeAccounts) -> Result<
    Seq<Step>,
    EscrowError,
> {
    match cancel_constraints(trade) {
        Err(e) => Err(EscrowError::CancelTrade(e)),
        Ok(()) => Ok(cancel_steps(trade, accounts)),
    }
}

/// The record of a cancelled trade: only its status changes.
pub open spec fn cancelled_record(trade: TradeAgreement) -> TradeAgreement {
    TradeAgreement { status: TradeStatus::Cancelled, ..trade }
}

/// The record after an attempt to cancel a trade.
pub open spec fn cancel_record(trade: TradeAgreement) -> TradeAgreement {
    if cancel_constraints(trade) is Ok {
        cancelled_record(trade)
    } else {
        trade
    }
}

/// Checks that the trade can be cancelled.
pub fn check_cancel_constraints(trade: &TradeAgreement) -> (result: Result<(), CancelTradeErrors>)
    ensures
        result == cancel_constraints(*trade),
{
    if trade.status == TradeStatus::Open {
        Ok(())
    } else {
        Err(CancelTradeErrors::TradeNotOpen)
    }
}

/// The refund of the deposit tokens (from the trade's token account to the
/// depositor's).
fn refund_tokens_deposit(trade: &TradeAgreement, accounts: &CancelTradeAccounts) -> (transfer: TokenTransfer)
    ensures
        transfer == tokens_refund_transfer(*trade, *accounts),
{
    let signer = TradeSigner::of(trade, &accounts.depositor, &accounts.beneficiary);
    TokenTransfer {
        from: AccountRole::TradeTokenAccount,
        to: AccountRole::DepositorTokenAccount,
        authority: AccountRole::Trade,
        mint: AccountRole::DepositMint,
        token_program: AccountRole::DepositTokenProgram,
        amount: trade.deposit_tokens,
        decimals: accounts.deposit_mint_decimals,
        signer: Some(signer),
    }
}

/// The refund of the deposit lamports (from the trade account to the
/// depositor's).
fn refund_lamps_deposit(trade: &TradeAgreement) -> (mv: LamportMove)
    ensures
        mv == lamps_refund_move(*trade),
{
    LamportMove::Checked { from: AccountRole::Trade, to: AccountRole::Depositor, amount: trade.deposit_lamps }
}

/// Cancel an open trade agreement, for accounts that passed their checks.
/// It returns the transfers to carry out, in order.
pub fn _cancel(trade: &mut TradeAgreement, accounts: &CancelTradeAccounts) -> (steps: Vec<Step>)
    requires
        cancel_constraints(*old(trade)) is Ok,
    ensures
        steps@ == cancel_steps(*old(trade), *accounts),
        *final(trade) == cancelled_record(*old(trade)),
{
    // Refund the deposit tokens (from trade ATA to depositor ATA)
    let tokens = refund_tokens_deposit(trade, accounts);
    // Refund the lamps (from trade acc to depositor acc)
    let lamps = refund_lamps_deposit(trade);

    let mut steps: Vec<Step> = Vec::new();
    steps.push(Step::Token(tokens));
    steps.push(Step::Lamports(lamps));
    assert(steps@ =~= cancel_steps(*old(trade), *accounts));

    trade.status = TradeStatus::Cancelled;
    steps
}

/// Handler for cancelling an escrow trade: checks that the trade is open,
/// then cancels it.
pub fn cancel(trade: &mut TradeAgreement, accounts: &CancelTradeAccounts) -> (result: Result<
    Vec<Step>,
    EscrowError,
>)
    ensures
        crate::transfers::steps_view(result) == cancel_result(*old(trade), *accounts),
        *final(trade) == cancel_record(*old(trade)),
{
    match check_cancel_constraints(trade) {
        Err(e) => Err(EscrowError::CancelTrade(e)),
        Ok(()) => Ok(_cancel(trade, accounts)),
    }
}

} // verus!
