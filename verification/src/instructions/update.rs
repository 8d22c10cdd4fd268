//! Updating an open trade: the depositor changes what it deposits and what
//! it asks, and the trade's version moves on.
use vstd::prelude::*;

use crate::errors::{EscrowError, UpdateTradeErrors};
use crate::pubkey::Pubkey;
use crate::state::trade::{TradeAgreement, TradeStatus};
use crate::transfers::{
    lamport_flow, token_flow, AccountRole, LamportMove, Step, SystemTransfer, TokenTransfer, TradeSigner,
};

verus! {

/// The input of the instruction that updates a trade.
#[derive(Clone, Copy, Debug, PartialEq, Eq, Structural)]
pub struct UpdateTradeInput {
    pub id: u8,
    pub updated_deposit_lamps: u64,
    pub updated_deposit_tokens: u64,
    pub updated_ask_lamps: u64,
    pub updated_ask_tokens: u64,
}

/// What the instruction that updates a trade reads of its accounts.
#[derive(Clone, Copy, Debug, PartialEq, Eq)]
pub struct UpdateTradeAccounts {
    /// The address of the depositor, who signs.
    pub depositor: Pubkey,
    /// The address of the beneficiary.
    pub beneficiary: Pubkey,
    /// The decimals of the mint of the deposited tokens.
    pub deposit_mint_decimals: u8,
}

/// The checks on the trade: a fulfilled trade is refused with
/// `TradeAlreadyFulfilled`, any other trade that is not open with
/// `TradeNotOpen`.
pub open spec fn update_constraints(trade: TradeAgreement) -> Result<(), UpdateTradeErrors> {
    if trade.status == TradeStatus::Fulfilled {
        Err(UpdateTradeErrors::TradeAlreadyFulfilled)
    } else if trade.status != TradeStatus::Open {
        Err(UpdateTradeErrors::TradeNotOpen)
    } else {
        Ok(())
    }
}

/// The token transfer that brings the deposited tokens to `updated`: none
/// where they are equal; from the depositor to the trade where `updated` is
/// larger; back from the trade, which signs, where it is smaller.
pub open spec fn tokens_adjustment(
    trade: TradeAgreement,
    accounts: UpdateTradeAccounts,
    updated: u64,
) -> Option<TokenTransfer> {
    if updated == trade.deposit_tokens {
        None
    } else if updated > trade.deposit_tokens {
        Some(
            TokenTransfer {
                from: AccountRole::DepositorTokenAccount,
                to: AccountRole::TradeTokenAccount,
                authority: AccountRole::Depositor,
                mint: AccountRole::DepositMint,
                token_program: AccountRole::DepositTokenProgram,
                amount: (updated - trade.deposit_tokens) as u64,
                decimals: accounts.deposit_mint_decimals,
                signer: None,
            },
        )
    } else {
        Some(
            TokenTransfer {
                from: AccountRole::TradeTokenAccount,
                to: AccountRole::DepositorTokenAccount,
                authority: AccountRole::Trade,
                mint: AccountRole::DepositMint,
                token_program: AccountRole::DepositTokenProgram,
                amount: (trade.deposit_tokens - updated) as u64,
                decimals: accounts.deposit_mint_decimals,
                signer: Some(TradeSigner::spec_of(trade, accounts.depositor, accounts.beneficiary)),
            },
        )
    }
}

/// The step that brings the deposited lamports to `updated`: none where
/// they are equal; a system transfer of the difference from the depositor to
/// the trade where `updated` is larger; a move of the difference that the
/// program makes from the trade account back to the depositor where it is
/// smaller.
pub open spec fn lamps_adjustment(trade: TradeAgreement, updated: u64) -> Option<Step> {
    if updated == trade.deposit_lamps {
        None
    } else if updated > trade.deposit_lamps {
        Some(
            Step::System(
                SystemTransfer {
                    from: AccountRole::Depositor,
                    to: AccountRole::Trade,
                    lamports: (updated - trade.deposit_lamps) as u64,
                },
            ),
        )
    } else {
        Some(
            Step::Lamports(
                LamportMove::Checked {
                    from: AccountRole::Trade,
                    to: AccountRole::Depositor,
                    amount: (trade.deposit_lamps - updated) as u64,
                },
            ),
        )
    }
}

/// The steps of updating a trade: the token adjustment, then the lamport
/// adjustment, each where there is one.
pub open spec fn update_steps(
    trade: TradeAgreement,
    accounts: UpdateTradeAccounts,
    input: UpdateTradeInput,
) -> Seq<Step> {
    let tokens = match tokens_adjustment(trade, accounts, input.updated_deposit_tokens) {
        Some(t) => seq![Step::Token(t)],
        None => Seq::empty(),
    };
    let lamps = match lamps_adjustment(trade, input.updated_deposit_lamps) {
        Some(step) => seq![step],
        None => Seq::empty(),
    };
    tokens + lamps
}

/// What the instruction gives: the checks on the trade, then the steps.
pub open spec fn update_result(
    trade: TradeAgreement,
    accounts: UpdateTradeAccounts,
    input: UpdateTradeInput,
) -> Result<Seq<Step>, EscrowError> {
    match update_constraints(trade) {
        Err(e) => Err(EscrowError::UpdateTrade(e)),
        Ok(()) => Ok(update_steps(trade, accounts, input)),
    }
}

/// The version that follows `version`, after 255 comes 0.
pub open spec fn next_version(version: u8) -> u8 {
    if version == 255 {
        0
    } else {
        (version + 1) as u8
    }
}

/// The record of an updated trade: the deposit and the ask are those of the
/// input, the version is the next one, and nothing else changes.
pub open spec fn updated_record(trade: TradeAgreement, input: UpdateTradeInput) -> TradeAgreement {
    TradeAgreement {
        deposit_lamps: input.updated_deposit_lamps,
        deposit_tokens: input.updated_deposit_tokens,
        ask_lamps: input.updated_ask_lamps,
        ask_tokens: input.updated_ask_tokens,
        version: next_version(trade.version),
        ..trade
    }
}

/// The record after an attempt to update a trade.
pub open spec fn update_record(trade: TradeAgreement, input: UpdateTradeInput) -> TradeAgreement {
    if update_constraints(trade) is Ok {
        updated_record(trade, input)
    } else {
        trade
    }
}

/// Checks that the trade can be updated.
pub fn check_update_constraints(trade: &TradeAgreement) -> (result: Result<(), UpdateTradeErrors>)
    ensures
        result == update_constraints(*trade),
{
    if trade.status == TradeStatus::Fulfilled {
        return Err(UpdateTradeErrors::TradeAlreadyFulfilled);
    }
    if trade.status != TradeStatus::Open {
        return Err(UpdateTradeErrors::TradeNotOpen);
    }
    Ok(())
}

/// Transfer or refund the deposit tokens
///
/// if the updated deposit tokens are greater than the current deposit tokens -> transfer the difference to the trade agreement account
///
/// if the updated deposit tokens are less than the current deposit tokens -> refund the difference to the depositor
pub fn transfer_or_refund_tokens_deposit(
    trade: &TradeAgreement,
    accounts: &UpdateTradeAccounts,
    updated_deposit_tokens: u64,
) -> (transfer: Option<TokenTransfer>)
    ensures
        transfer == tokens_adjustment(*trade, *accounts, updated_deposit_tokens),
{
    let old_deposit_tokens = trade.deposit_tokens;

    // If the updated deposit tokens are the same as the current deposit tokens, do nothing
    if updated_deposit_tokens == old_deposit_tokens {
        return None;
    }
    if updated_deposit_tokens > old_deposit_tokens {
        // transfer the difference to the trade agreement account
        let difference = updated_deposit_tokens - old_deposit_tokens;
        Some(
            TokenTransfer {
                from: AccountRole::DepositorTokenAccount,
                to: AccountRole::TradeTokenAccount,
                authority: AccountRole::Depositor,
                mint: AccountRole::DepositMint,
                token_program: AccountRole::DepositTokenProgram,
                amount: difference,
                decimals: accounts.deposit_mint_decimals,
                signer: None,
            },
        )
    } else {
        // refund the difference to the depositor
        let difference = old_deposit_tokens - updated_deposit_tokens;
        let signer = TradeSigner::of(trade, &accounts.depositor, &accounts.beneficiary);
        Some(
            TokenTransfer {
                from: AccountRole::TradeTokenAccount,
                to: AccountRole::DepositorTokenAccount,
                authority: AccountRole::Trade,
                mint: AccountRole::DepositMint,
                token_program: AccountRole::DepositTokenProgram,
                amount: difference,
                decimals: accounts.deposit_mint_decimals,
                signer: Some(signer),
            },
        )
    }
}

/// Transfer or refund the deposit lamps
///
/// if the updated deposit lamps are greater than the current deposit lamps -> transfer the difference to the trade agreement account
///
/// if the updated deposit lamps are less than the current deposit lamps -> refund the difference to the depositor
pub fn transfer_or_refund_lamps_deposit(trade: &TradeAgreement, updated_deposit_lamps: u64) -> (step:
    Option<Step>)
    ensures
        step == lamps_adjustment(*trade, updated_deposit_lamps),
{
    let old_deposit_lamps = trade.deposit_lamps;

    // If the updated deposit lamps are the same as the current deposit lamps, do nothing
    if updated_deposit_lamps == old_deposit_lamps {
        return None;
    }
    if updated_deposit_lamps > old_deposit_lamps {
        // transfer the difference to the trade agreement account
        let difference = updated_deposit_lamps - old_deposit_lamps;
        Some(Step::System(SystemTransfer { from: AccountRole::Depositor, to: AccountRole::Trade, lamports: difference }))
    } else {
        // refund the difference to the depositor
        let difference = old_deposit_lamps - updated_deposit_lamps;
        Some(Step::Lamports(LamportMove::Checked { from: AccountRole::Trade, to: AccountRole::Depositor, amount: difference }))
    }
}

/// The token adjustment of an update, carried out on a trade token account
/// holding `trade_amount` tokens and a depositor token account holding
/// `depositor_amount`, moves the trade's balance by the change of the
/// recorded deposit and keeps the sum of the two; a trade token account that
/// backed the old deposit backs the new one.
pub proof fn lemma_tokens_adjustment_moves_the_difference(
    trade: TradeAgreement,
    accounts: UpdateTradeAccounts,
    updated: u64,
    trade_amount: int,
    depositor_amount: int,
)
    ensures
        ({
            let steps = match tokens_adjustment(trade, accounts, updated) {
                Some(t) => seq![Step::Token(t)],
                None => Seq::<Step>::empty(),
            };
            let trade_after = trade_amount + token_flow(steps, AccountRole::TradeTokenAccount);
            let depositor_after = depositor_amount + token_flow(steps, AccountRole::DepositorTokenAccount);
            &&& trade_after - trade_amount == updated - trade.deposit_tokens
            &&& trade_after + depositor_after == trade_amount + depositor_amount
            &&& trade_amount >= trade.deposit_tokens ==> trade_after >= updated
        }),
{
    reveal_with_fuel(token_flow, 2);
}

/// The lamport adjustment of an update, carried out between a trade account
/// holding `trade_lamports` and a depositor holding `depositor_lamports`,
/// moves the trade's balance by the change of the recorded deposit and keeps
/// the sum of the two; a trade account that held `rent` on top of the old
/// deposit holds it on top of the new one. The refund, which the program
/// makes itself, succeeds exactly where it can be carried out, and then
/// gives those balances.
pub proof fn lemma_lamps_adjustment_moves_the_difference(
    trade: TradeAgreement,
    updated: u64,
    trade_lamports: u64,
    depositor_lamports: u64,
    rent: u64,
)
    ensures
        lamps_adjustment(trade, updated) is None <==> updated == trade.deposit_lamps,
        ({
            let steps = match lamps_adjustment(trade, updated) {
                Some(step) => seq![step],
                None => Seq::<Step>::empty(),
            };
            let trade_after = trade_lamports + lamport_flow(steps, AccountRole::Trade);
            let depositor_after = depositor_lamports + lamport_flow(steps, AccountRole::Depositor);
            &&& trade_after - trade_lamports == updated - trade.deposit_lamps
            &&& trade_after + depositor_after == trade_lamports + depositor_lamports
            &&& trade_lamports >= rent + trade.deposit_lamps ==> trade_after >= rent + updated
        }),
        lamps_adjustment(trade, updated) matches Some(Step::Lamports(m)) ==> {
            &&& m.source() == AccountRole::Trade
            &&& m.destination() == AccountRole::Depositor
            &&& (m.outcome(trade_lamports, depositor_lamports) is Ok <==> trade_lamports >= m.lamports()
                && depositor_lamports + m.lamports() <= u64::MAX)
            &&& m.outcome(trade_lamports, depositor_lamports) matches Ok((trade_after, depositor_after)) ==> {
                &&& trade_after == trade_lamports + updated - trade.deposit_lamps
                &&& depositor_after == depositor_lamports - updated + trade.deposit_lamps
            }
        },
{
    reveal_with_fuel(lamport_flow, 2);
}

/// Update the deposit and the ask of a trade, for accounts that passed their
/// checks. It returns the transfers to carry out, in order.
pub fn _update(trade: &mut TradeAgreement, accounts: &UpdateTradeAccounts, input: &UpdateTradeInput) -> (steps:
    Vec<Step>)
    requires
        update_constraints(*old(trade)) is Ok,
    ensures
        steps@ == update_steps(*old(trade), *accounts, *input),
        *final(trade) == updated_record(*old(trade), *input),
{
    let old_deposit_tokens = trade.deposit_tokens;
    let old_deposit_lamps = trade.deposit_lamps;
    let updated_deposit_tokens = input.updated_deposit_tokens;
    let updated_deposit_lamps = input.updated_deposit_lamps;

    let mut steps: Vec<Step> = Vec::new();
    if updated_deposit_tokens != old_deposit_tokens {
        if let Some(t) = transfer_or_refund_tokens_deposit(trade, accounts, updated_deposit_tokens) {
            steps.push(Step::Token(t));
        }
    }
    if updated_deposit_lamps != old_deposit_lamps {
        if let Some(step) = transfer_or_refund_lamps_deposit(trade, updated_deposit_lamps) {
            steps.push(step);
        }
    }
    assert(steps@ =~= update_steps(*old(trade), *accounts, *input));

    // Update the trade agreement account
    trade.deposit_lamps = input.updated_deposit_lamps;
    trade.deposit_tokens = input.updated_deposit_tokens;
    trade.ask_lamps = input.updated_ask_lamps;
    trade.ask_tokens = input.updated_ask_tokens;
    trade.version = trade.version.wrapping_add(1);
    steps
}

/// Handler for updating an escrow trade: checks that the trade is open, then
/// updates it.
pub fn update(trade: &mut TradeAgreement, accounts: &UpdateTradeAccounts, input: &UpdateTradeInput) -> (result:
    Result<Vec<Step>, EscrowError>)
    ensures
        crate::transfers::steps_view(result) == update_result(*old(trade), *accounts, *input),
        *final(trade) == update_record(*old(trade), *input),
{
    match check_update_constraints(trade) {
        Err(e) => Err(EscrowError::UpdateTrade(e)),
        Ok(()) => Ok(_update(trade, accounts, input)),
    }
}

} // verus!
