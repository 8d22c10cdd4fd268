//! What holds of a trade across its instructions.
//!
//! The trade holds in escrow what its record says it holds: opening a trade
//! brings the recorded deposit in, an update brings in or gives back the
//! difference, and cancelling or fulfilling gives the recorded deposit out.
use vstd::prelude::*;

use crate::instructions::cancel::{cancel_constraints, cancel_record, cancel_result, cancel_steps, CancelTradeAccounts};
use crate::instructions::fulfill::{
    fulfill_constraints, fulfill_record, fulfill_result, fulfill_steps, FulfillTradeAccounts,
    FulfillTradeInput,
};
use crate::instructions::init::{init_record, init_result, init_steps, InitTradeAccounts, InitTradeInput};
use crate::instructions::update::{
    next_version, update_record, update_result, update_steps, UpdateTradeAccounts, UpdateTradeInput,
};
use crate::errors::{CancelTradeErrors, EscrowError, FulfillTradeErrors, UpdateTradeErrors};
use crate::state::trade::{lemma_program_id_round_trip, TradeAgreement, TradeStatus, TradeTokenProgramVersion};
use crate::transfers::{lamport_flow, lemma_flow_of_concatenation, token_flow, AccountRole, Step};

verus! {

/// The tokens that a sequence of steps brings to the trade's token account,
/// less those that it takes from it.
pub open spec fn escrow_token_flow(steps: Seq<Step>) -> int {
    token_flow(steps, AccountRole::TradeTokenAccount)
}

/// The lamports that a sequence of steps brings to the trade account, less
/// those that it takes from it.
pub open spec fn escrow_lamport_flow(steps: Seq<Step>) -> int {
    lamport_flow(steps, AccountRole::Trade)
}

/// Whether two records name the same trade: everything but the deposit, the
/// ask, the status and the version is the same.
pub open spec fn same_trade(a: TradeAgreement, b: TradeAgreement) -> bool {
    &&& a.id == b.id
    &&& a.depositor == b.depositor
    &&& a.beneficiary == b.beneficiary
    &&& a.deposit_mint == b.deposit_mint
    &&& a.deposit_token_program == b.deposit_token_program
    &&& a.ask_mint == b.ask_mint
    &&& a.ask_token_program == b.ask_token_program
    &&& a.bump == b.bump
}

/// Opening a trade succeeds exactly where both token programs are known and
/// the depositor holds the deposited lamports and tokens; the new trade is open, at
/// version 0, records the input and the versions of its two token programs,
/// and its steps bring the recorded deposit into the trade and its token
/// account, out of the depositor's wallet and token account.
pub proof fn lemma_init_escrows_the_deposit(
    trade: TradeAgreement,
    accounts: InitTradeAccounts,
    input: InitTradeInput,
)
    ensures
        init_result(accounts, input) is Ok <==> {
            &&& input.deposit_lamps <= accounts.depositor_lamports
            &&& input.deposit_tokens <= accounts.depositor_tokens
            &&& TradeTokenProgramVersion::is_token_program_id(accounts.token_program@)
            &&& TradeTokenProgramVersion::is_token_program_id(accounts.ask_mint_owner@)
        },
        init_result(accounts, input) is Ok ==> {
            let steps = init_steps(accounts, input);
            let record = init_record(trade, accounts, input);
            &&& record.status == TradeStatus::Open
            &&& record.id == input.id
            &&& record.depositor == accounts.depositor
            &&& record.beneficiary == accounts.beneficiary
            &&& record.deposit_lamps == input.deposit_lamps
            &&& record.deposit_tokens == input.deposit_tokens
            &&& record.ask_lamps == input.ask_lamps
            &&& record.ask_tokens == input.ask_tokens
            &&& record.version == 0
            &&& record.deposit_token_program.program_id() == accounts.token_program@
            &&& record.ask_token_program.program_id() == accounts.ask_mint_owner@
            &&& escrow_lamport_flow(steps) == record.deposit_lamps
            &&& escrow_token_flow(steps) == record.deposit_tokens
            &&& lamport_flow(steps, AccountRole::Depositor) == -record.deposit_lamps
            &&& token_flow(steps, AccountRole::DepositorTokenAccount) == -record.deposit_tokens
        },
        init_result(accounts, input) is Err ==> init_record(trade, accounts, input) == trade,
{
    reveal_with_fuel(token_flow, 3);
    reveal_with_fuel(lamport_flow, 3);
    lemma_program_id_round_trip(TradeTokenProgramVersion::LegacyToken, accounts.token_program@);
    lemma_program_id_round_trip(TradeTokenProgramVersion::LegacyToken, accounts.ask_mint_owner@);
}

/// Fulfilling a trade pays the depositor the recorded ask, in lamports and
/// in tokens of the ask mint, and gives the beneficiary the recorded
/// deposit, which leaves the trade; only the status of the record changes,
/// to fulfilled. It succeeds only on the version that the beneficiary agreed
/// to.
pub proof fn lemma_fulfill_exchanges_ask_for_deposit(
    trade: TradeAgreement,
    accounts: FulfillTradeAccounts,
    input: FulfillTradeInput,
)
    requires
        fulfill_result(trade, accounts, input) is Ok,
    ensures
        ({
            let steps = fulfill_steps(trade, accounts);
            &&& trade.version == input.version
            &&& fulfill_result(trade, accounts, input) == Ok::<Seq<Step>, EscrowError>(steps)
            &&& lamport_flow(steps, AccountRole::Depositor) == trade.ask_lamps
            &&& token_flow(steps, AccountRole::DepositorAskTokenAccount) == trade.ask_tokens
            &&& token_flow(steps, AccountRole::BeneficiaryAskTokenAccount) == -trade.ask_tokens
            &&& lamport_flow(steps, AccountRole::Beneficiary) == trade.deposit_lamps - trade.ask_lamps
            &&& token_flow(steps, AccountRole::BeneficiaryDepositTokenAccount) == trade.deposit_tokens
            &&& escrow_lamport_flow(steps) == -trade.deposit_lamps
            &&& escrow_token_flow(steps) == -trade.deposit_tokens
        }),
        fulfill_record(trade, accounts, input) == (TradeAgreement { status: TradeStatus::Fulfilled, ..trade }),
{
    reveal_with_fuel(token_flow, 5);
    reveal_with_fuel(lamport_flow, 5);
}

/// The steps of fulfilling a trade create and destroy nothing: the lamports
/// that the depositor, the beneficiary and the trade gain sum to nothing, and
/// so do the tokens of each mint over the token accounts of that mint.
pub proof fn lemma_fulfill_conserves(trade: TradeAgreement, accounts: FulfillTradeAccounts)
    ensures
        ({
            let steps = fulfill_steps(trade, accounts);
            &&& lamport_flow(steps, AccountRole::Depositor) + lamport_flow(steps, AccountRole::Beneficiary)
                + lamport_flow(steps, AccountRole::Trade) == 0
            &&& token_flow(steps, AccountRole::BeneficiaryAskTokenAccount) + token_flow(
                steps,
                AccountRole::DepositorAskTokenAccount,
            ) == 0
            &&& token_flow(steps, AccountRole::TradeTokenAccount) + token_flow(
                steps,
                AccountRole::BeneficiaryDepositTokenAccount,
            ) == 0
        }),
{
    reveal_with_fuel(token_flow, 5);
    reveal_with_fuel(lamport_flow, 5);
}

/// Cancelling a trade succeeds exactly where it is open; it gives the
/// recorded deposit back to the depositor, and only the status of the
/// record changes, to cancelled.
pub proof fn lemma_cancel_refunds_the_deposit(trade: TradeAgreement, accounts: CancelTradeAccounts)
    ensures
        cancel_result(trade, accounts) is Ok <==> trade.status == TradeStatus::Open,
        trade.status == TradeStatus::Open ==> {
            let steps = cancel_steps(trade, accounts);
            &&& cancel_result(trade, accounts) == Ok::<Seq<Step>, EscrowError>(steps)
            &&& escrow_token_flow(steps) == -trade.deposit_tokens
            &&& token_flow(steps, AccountRole::DepositorTokenAccount) == trade.deposit_tokens
            &&& escrow_lamport_flow(steps) == -trade.deposit_lamps
            &&& lamport_flow(steps, AccountRole::Depositor) == trade.deposit_lamps
            &&& cancel_record(trade) == (TradeAgreement { status: TradeStatus::Cancelled, ..trade })
        },
{
    reveal_with_fuel(token_flow, 3);
    reveal_with_fuel(lamport_flow, 3);
}

/// The flows of the steps of an update: the trade gains what its recorded
/// deposit grows by, the depositor the opposite.
proof fn lemma_update_flows(trade: TradeAgreement, accounts: UpdateTradeAccounts, input: UpdateTradeInput)
    ensures
        ({
            let steps = update_steps(trade, accounts, input);
            &&& escrow_token_flow(steps) == input.updated_deposit_tokens - trade.deposit_tokens
            &&& token_flow(steps, AccountRole::DepositorTokenAccount) == trade.deposit_tokens
                - input.updated_deposit_tokens
            &&& escrow_lamport_flow(steps) == input.updated_deposit_lamps - trade.deposit_lamps
            &&& lamport_flow(steps, AccountRole::Depositor) == trade.deposit_lamps
                - input.updated_deposit_lamps
        }),
{
    reveal_with_fuel(token_flow, 2);
    reveal_with_fuel(lamport_flow, 2);
    let tokens = match crate::instructions::update::tokens_adjustment(
        trade,
        accounts,
        input.updated_deposit_tokens,
    ) {
        Some(t) => seq![Step::Token(t)],
        None => Seq::<Step>::empty(),
    };
    let lamps = match crate::instructions::update::lamps_adjustment(trade, input.updated_deposit_lamps) {
        Some(step) => seq![step],
        None => Seq::<Step>::empty(),
    };
    assert(update_steps(trade, accounts, input) == tokens + lamps);
    lemma_flow_of_concatenation(tokens, lamps, AccountRole::Trade);
    lemma_flow_of_concatenation(tokens, lamps, AccountRole::TradeTokenAccount);
    lemma_flow_of_concatenation(tokens, lamps, AccountRole::DepositorTokenAccount);
    lemma_flow_of_concatenation(tokens, lamps, AccountRole::Depositor);
}

/// Updating a trade succeeds exactly where it is open; it records the new
/// deposit and ask, moves the version on, so that it differs from the one
/// before, and keeps everything else; its steps bring into the trade what
/// its recorded deposit grows by, and give back what it shrinks by.
pub proof fn lemma_update_adjusts_the_escrow(
    trade: TradeAgreement,
    accounts: UpdateTradeAccounts,
    input: UpdateTradeInput,
)
    ensures
        update_result(trade, accounts, input) is Ok <==> trade.status == TradeStatus::Open,
        trade.status == TradeStatus::Open ==> {
            let steps = update_steps(trade, accounts, input);
            let record = update_record(trade, input);
            &&& update_result(trade, accounts, input) == Ok::<Seq<Step>, EscrowError>(steps)
            &&& same_trade(record, trade)
            &&& record.status == trade.status
            &&& record.deposit_lamps == input.updated_deposit_lamps
            &&& record.deposit_tokens == input.updated_deposit_tokens
            &&& record.ask_lamps == input.updated_ask_lamps
            &&& record.ask_tokens == input.updated_ask_tokens
            &&& record.version == next_version(trade.version)
            &&& record.version != trade.version
            &&& escrow_token_flow(steps) == record.deposit_tokens - trade.deposit_tokens
            &&& escrow_lamport_flow(steps) == record.deposit_lamps - trade.deposit_lamps
            &&& lamport_flow(steps, AccountRole::Depositor) == trade.deposit_lamps
                - record.deposit_lamps
        },
{
    lemma_update_flows(trade, accounts, input);
}

/// A trade that is not open can be neither cancelled, nor updated, nor
/// fulfilled: each instruction fails and leaves the record as it was. A
/// fulfilled trade is refused with `TradeAlreadyFulfilled` by update, and by
/// fulfil where its token programs pass their checks; any other closed trade
/// with `TradeNotOpen`.
pub proof fn lemma_closed_trade_is_final(
    trade: TradeAgreement,
    cancel_accounts: CancelTradeAccounts,
    update_accounts: UpdateTradeAccounts,
    input: UpdateTradeInput,
    fulfill_accounts: FulfillTradeAccounts,
    fulfill_input: FulfillTradeInput,
)
    requires
        trade.status != TradeStatus::Open,
    ensures
        cancel_result(trade, cancel_accounts) == Err::<Seq<Step>, EscrowError>(
            EscrowError::CancelTrade(CancelTradeErrors::TradeNotOpen),
        ),
        cancel_record(trade) == trade,
        update_result(trade, update_accounts, input) == Err::<Seq<Step>, EscrowError>(
            EscrowError::UpdateTrade(
                if trade.status == TradeStatus::Fulfilled {
                    UpdateTradeErrors::TradeAlreadyFulfilled
                } else {
                    UpdateTradeErrors::TradeNotOpen
                },
            ),
        ),
        update_record(trade, input) == trade,
        fulfill_result(trade, fulfill_accounts, fulfill_input) is Err,
        fulfill_record(trade, fulfill_accounts, fulfill_input) == trade,
        fulfill_constraints(trade, fulfill_accounts) is Ok ==> fulfill_result(
            trade,
            fulfill_accounts,
            fulfill_input,
        ) == Err::<Seq<Step>, EscrowError>(
            EscrowError::FulfillTrade(
                if trade.status == TradeStatus::Fulfilled {
                    FulfillTradeErrors::TradeAlreadyFulfilled
                } else {
                    FulfillTradeErrors::TradeNotOpen
                },
            ),
        ),
{
}

/// Once cancelled or fulfilled, a trade stays so: no cancellation, update
/// or fulfilment of it succeeds, and a trade is fulfilled at most once: a
/// second fulfilment with the same accounts is refused with
/// `TradeAlreadyFulfilled`.
pub proof fn lemma_cancelled_and_fulfilled_trades_stay_closed(
    trade: TradeAgreement,
    fulfill_accounts: FulfillTradeAccounts,
    fulfill_input: FulfillTradeInput,
    cancel_accounts: CancelTradeAccounts,
    update_accounts: UpdateTradeAccounts,
    input: UpdateTradeInput,
)
    ensures
        cancel_result(trade, cancel_accounts) is Ok ==> {
            let cancelled = cancel_record(trade);
            &&& cancelled.status == TradeStatus::Cancelled
            &&& cancel_result(cancelled, cancel_accounts) is Err
            &&& update_result(cancelled, update_accounts, input) is Err
            &&& fulfill_result(cancelled, fulfill_accounts, fulfill_input) is Err
        },
        fulfill_result(trade, fulfill_accounts, fulfill_input) is Ok ==> {
            let fulfilled = fulfill_record(trade, fulfill_accounts, fulfill_input);
            &&& fulfilled.status == TradeStatus::Fulfilled
            &&& cancel_result(fulfilled, cancel_accounts) is Err
            &&& update_result(fulfilled, update_accounts, input) is Err
            &&& fulfill_result(fulfilled, fulfill_accounts, fulfill_input) == Err::<Seq<Step>, EscrowError>(
                EscrowError::FulfillTrade(FulfillTradeErrors::TradeAlreadyFulfilled),
            )
        },
{
}

/// A trade opened, updated any number of times and then cancelled gives
/// back all that it took: here one update, whose deposit may be larger or
/// smaller than the first. The lamports and the tokens that the trade
/// gains over the three instructions sum to nothing, and so do the
/// depositor's lamports.
pub proof fn lemma_open_update_cancel_returns_everything(
    trade: TradeAgreement,
    init_accounts: InitTradeAccounts,
    init_input: InitTradeInput,
    update_accounts: UpdateTradeAccounts,
    update_input: UpdateTradeInput,
    cancel_accounts: CancelTradeAccounts,
)
    requires
        init_result(init_accounts, init_input) is Ok,
    ensures
        ({
            let opened = init_record(trade, init_accounts, init_input);
            let updated = update_record(opened, update_input);
            let opening = init_steps(init_accounts, init_input);
            let updating = update_steps(opened, update_accounts, update_input);
            let cancelling = cancel_steps(updated, cancel_accounts);
            &&& update_result(opened, update_accounts, update_input) == Ok::<Seq<Step>, EscrowError>(
                updating,
            )
            &&& cancel_result(updated, cancel_accounts) == Ok::<Seq<Step>, EscrowError>(cancelling)
            &&& cancel_record(updated).status == TradeStatus::Cancelled
            &&& escrow_token_flow(opening) + escrow_token_flow(updating) + escrow_token_flow(
                cancelling,
            ) == 0
            &&& escrow_lamport_flow(opening) + escrow_lamport_flow(updating) + escrow_lamport_flow(
                cancelling,
            ) == 0
            &&& lamport_flow(opening, AccountRole::Depositor) + lamport_flow(
                updating,
                AccountRole::Depositor,
            ) + lamport_flow(cancelling, AccountRole::Depositor) == 0
        }),
{
    let opened = init_record(trade, init_accounts, init_input);
    let updated = update_record(opened, update_input);
    lemma_init_escrows_the_deposit(trade, init_accounts, init_input);
    lemma_update_adjusts_the_escrow(opened, update_accounts, update_input);
    lemma_cancel_refunds_the_deposit(updated, cancel_accounts);
}

/// A trade opened and then fulfilled leaves nothing in escrow, pays the
/// depositor the ask given when it was opened, and gives the beneficiary the
/// deposit given then.
pub proof fn lemma_open_then_fulfill_exchanges_the_input(
    trade: TradeAgreement,
    init_accounts: InitTradeAccounts,
    input: InitTradeInput,
    fulfill_accounts: FulfillTradeAccounts,
    fulfill_input: FulfillTradeInput,
)
    requires
        init_result(init_accounts, input) is Ok,
        fulfill_result(init_record(trade, init_accounts, input), fulfill_accounts, fulfill_input) is Ok,
    ensures
        ({
            let opened = init_record(trade, init_accounts, input);
            let opening = init_steps(init_accounts, input);
            let fulfilling = fulfill_steps(opened, fulfill_accounts);
            &&& fulfill_record(opened, fulfill_accounts, fulfill_input).status == TradeStatus::Fulfilled
            &&& escrow_token_flow(opening) + escrow_token_flow(fulfilling) == 0
            &&& escrow_lamport_flow(opening) + escrow_lamport_flow(fulfilling) == 0
            &&& lamport_flow(fulfilling, AccountRole::Depositor) == input.ask_lamps
            &&& token_flow(fulfilling, AccountRole::DepositorAskTokenAccount) == input.ask_tokens
            &&& token_flow(fulfilling, AccountRole::BeneficiaryDepositTokenAccount) == input.deposit_tokens
            &&& lamport_flow(fulfilling, AccountRole::Beneficiary) == input.deposit_lamps - input.ask_lamps
        }),
{
    let opened = init_record(trade, init_accounts, input);
    lemma_init_escrows_the_deposit(trade, init_accounts, input);
    lemma_fulfill_exchanges_ask_for_deposit(opened, fulfill_accounts, fulfill_input);
}

/// An update undone by a second one that asks for the first deposit and ask
/// again gives back the record as it was, but for a version two steps on,
/// and its steps sum to nothing for the trade and for the depositor.
pub proof fn lemma_update_undone(
    trade: TradeAgreement,
    accounts: UpdateTradeAccounts,
    input: UpdateTradeInput,
    back: UpdateTradeInput,
)
    requires
        trade.status == TradeStatus::Open,
        back.updated_deposit_lamps == trade.deposit_lamps,
        back.updated_deposit_tokens == trade.deposit_tokens,
        back.updated_ask_lamps == trade.ask_lamps,
        back.updated_ask_tokens == trade.ask_tokens,
    ensures
        ({
            let once = update_record(trade, input);
            let twice = update_record(once, back);
            let first = update_steps(trade, accounts, input);
            let second = update_steps(once, accounts, back);
            &&& update_result(once, accounts, back) is Ok
            &&& twice == (TradeAgreement {
                version: next_version(next_version(trade.version)),
                ..trade
            })
            &&& escrow_token_flow(first) + escrow_token_flow(second) == 0
            &&& escrow_lamport_flow(first) + escrow_lamport_flow(second) == 0
            &&& lamport_flow(first, AccountRole::Depositor) + lamport_flow(
                second,
                AccountRole::Depositor,
            ) == 0
        }),
{
    let once = update_record(trade, input);
    lemma_update_adjusts_the_escrow(trade, accounts, input);
    lemma_update_adjusts_the_escrow(once, accounts, back);
}

} // verus!
