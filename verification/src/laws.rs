//! What each instruction must do, stated over its inputs and results.
//!
//! Each law says when an instruction succeeds, which errors it ends with
//! otherwise, what the record becomes, and that every transfer it plans is
//! one that the runtime accepts: a token transfer moves tokens of one mint
//! between two accounts of that mint, with that mint's decimals and token
//! program, on the authority of the source account's owner, signed with the
//! trade's own seeds exactly where the trade is that owner; a system
//! transfer leaves a wallet; a move that the program makes itself leaves the
//! trade account, the only one it owns.
use vstd::prelude::*;
use vstd::string::StringSliceAdditionalSpecFns;

use crate::errors::{
    CancelTradeErrors, EscrowError, FulfillTradeErrors, InitTradeErrors, TradeErrors, UpdateTradeErrors,
};
use crate::instructions::cancel::{cancel_record, cancel_result, CancelTradeAccounts};
use crate::instructions::fulfill::{
    fulfill_constraints, fulfill_record, fulfill_result, FulfillTradeAccounts, FulfillTradeInput,
};
use crate::instructions::init::{init_record, init_result, InitTradeAccounts, InitTradeInput};
use crate::instructions::update::{
    lamps_adjustment, next_version, tokens_adjustment, update_record, update_result, UpdateTradeAccounts,
    UpdateTradeInput,
};
use crate::lamports::{added, subtracted};
use crate::lifecycle::{escrow_lamport_flow, escrow_token_flow};
use crate::pubkey::Pubkey;
use crate::state::trade::{
    legacy_token_program_id_bytes, lemma_program_ids_differ, token_2022_program_id_bytes, TradeAgreement,
    TradeStatus, TradeTokenProgramVersion,
};
use crate::transfers::{
    lamport_flow, token_flow, AccountRole, LamportMove, Step, TokenTransfer, TradeSigner,
};

verus! {

/// The party that owns an account: the depositor and the beneficiary own
/// their wallets and token accounts, the trade its own account and token
/// account.
pub open spec fn owner_of(account: AccountRole) -> AccountRole {
    match account {
        AccountRole::DepositorTokenAccount => AccountRole::Depositor,
        AccountRole::DepositorAskTokenAccount => AccountRole::Depositor,
        AccountRole::TradeTokenAccount => AccountRole::Trade,
        AccountRole::BeneficiaryAskTokenAccount => AccountRole::Beneficiary,
        AccountRole::BeneficiaryDepositTokenAccount => AccountRole::Beneficiary,
        other => other,
    }
}

/// The mint of a token account.
pub open spec fn mint_of(account: AccountRole) -> Option<AccountRole> {
    match account {
        AccountRole::DepositorTokenAccount => Some(AccountRole::DepositMint),
        AccountRole::TradeTokenAccount => Some(AccountRole::DepositMint),
        AccountRole::BeneficiaryDepositTokenAccount => Some(AccountRole::DepositMint),
        AccountRole::DepositorAskTokenAccount => Some(AccountRole::AskMint),
        AccountRole::BeneficiaryAskTokenAccount => Some(AccountRole::AskMint),
        _ => None,
    }
}

/// A token transfer that a token program accepts: between two distinct
/// token accounts of its mint, with that mint's decimals and a token program
/// of that mint (`deposit_program` for the deposit mint), on the authority of the source's owner, and signed with
/// `signer` exactly where the trade is that owner.
pub open spec fn token_transfer_fits(
    t: TokenTransfer,
    signer: TradeSigner,
    deposit_program: AccountRole,
    deposit_decimals: u8,
    ask_decimals: u8,
) -> bool {
    &&& t.from != t.to
    &&& mint_of(t.from) == Some(t.mint)
    &&& mint_of(t.to) == Some(t.mint)
    &&& t.authority == owner_of(t.from)
    &&& t.mint == AccountRole::DepositMint ==> t.decimals == deposit_decimals && t.token_program
        == deposit_program
    &&& t.mint == AccountRole::AskMint ==> t.decimals == ask_decimals && t.token_program
        == AccountRole::AskTokenProgram
    &&& (t.signer is Some <==> t.authority == AccountRole::Trade)
    &&& t.signer is Some ==> t.signer == Some(signer)
}

/// A step that the runtime accepts: a token transfer as above; a system
/// transfer out of a wallet into another account; a move that the program
/// makes out of the trade account into another account.
pub open spec fn step_fits(
    step: Step,
    signer: TradeSigner,
    deposit_program: AccountRole,
    deposit_decimals: u8,
    ask_decimals: u8,
) -> bool {
    match step {
        Step::Token(t) => token_transfer_fits(t, signer, deposit_program, deposit_decimals, ask_decimals),
        Step::System(s) => (s.from == AccountRole::Depositor || s.from == AccountRole::Beneficiary)
            && s.from != s.to,
        Step::Lamports(m) => m.source() == AccountRole::Trade && m.destination() != AccountRole::Trade,
    }
}

/// Every step of a plan is one that the runtime accepts.
pub open spec fn steps_fit(
    steps: Seq<Step>,
    signer: TradeSigner,
    deposit_program: AccountRole,
    deposit_decimals: u8,
    ask_decimals: u8,
) -> bool {
    forall|i: int|
        0 <= i < steps.len() ==> #[trigger] step_fits(steps[i], signer, deposit_program, deposit_decimals, ask_decimals)
}

/// Every token transfer of a plan moves tokens of the deposit mint.
pub open spec fn only_deposit_mint(steps: Seq<Step>) -> bool {
    forall|i: int| 0 <= i < steps.len() ==> (#[trigger] steps[i] matches Step::Token(t) ==> t.mint
        == AccountRole::DepositMint)
}

/// The trade's own signer, with the parties given to the instruction.
pub open spec fn own_signer(trade: TradeAgreement, depositor: Pubkey, beneficiary: Pubkey) -> TradeSigner {
    TradeSigner { id: trade.id, depositor, beneficiary, bump: trade.bump }
}

/// Fulfilling succeeds exactly for an open trade at the version that the
/// beneficiary agreed to, whose token programs are those that the trade
/// records and whose beneficiary holds the asked lamports. Otherwise it
/// ends, in this order, with `AskDepositTokenProgramMismatch`,
/// `TradeAlreadyFulfilled`, `TradeNotOpen`, `VersionMismatch` or
/// `InsufficientLamports`, and leaves the record. On success it plans four
/// steps that the runtime accepts, which pay the depositor the ask and the
/// beneficiary the deposit and leave nothing in escrow, and only the status
/// of the record changes, to fulfilled. The ask is paid, by the first two
/// steps, before anything leaves the escrow.
pub proof fn lemma_fulfill_outcome(
    trade: TradeAgreement,
    accounts: FulfillTradeAccounts,
    input: FulfillTradeInput,
)
    ensures
        ({
            let programs_match = accounts.deposit_token_program@ == trade.deposit_token_program.program_id()
                && accounts.ask_token_program@ == trade.ask_token_program.program_id();
            let r = fulfill_result(trade, accounts, input);
            &&& programs_match <==> fulfill_constraints(trade, accounts) is Ok
            &&& r is Ok <==> {
                &&& programs_match
                &&& trade.status == TradeStatus::Open
                &&& trade.version == input.version
                &&& trade.ask_lamps <= accounts.beneficiary_lamports
            }
            &&& !programs_match ==> r == Err::<Seq<Step>, EscrowError>(
                EscrowError::FulfillTrade(FulfillTradeErrors::AskDepositTokenProgramMismatch),
            )
            &&& programs_match && trade.status == TradeStatus::Fulfilled ==> r == Err::<Seq<Step>, EscrowError>(
                EscrowError::FulfillTrade(FulfillTradeErrors::TradeAlreadyFulfilled),
            )
            &&& programs_match && trade.status == TradeStatus::Cancelled ==> r == Err::<Seq<Step>, EscrowError>(
                EscrowError::FulfillTrade(FulfillTradeErrors::TradeNotOpen),
            )
            &&& programs_match && trade.status == TradeStatus::Open && trade.version != input.version ==> r
                == Err::<Seq<Step>, EscrowError>(EscrowError::FulfillTrade(FulfillTradeErrors::VersionMismatch))
            &&& programs_match && trade.status == TradeStatus::Open && trade.version == input.version
                && trade.ask_lamps > accounts.beneficiary_lamports ==> r == Err::<Seq<Step>, EscrowError>(
                EscrowError::FulfillTrade(FulfillTradeErrors::InsufficientLamports),
            )
            &&& r is Err ==> fulfill_record(trade, accounts, input) == trade
            &&& r matches Ok(steps) ==> {
                &&& steps.len() == 4
                &&& lamport_flow(steps.take(2), AccountRole::Depositor) == trade.ask_lamps
                &&& token_flow(steps.take(2), AccountRole::DepositorAskTokenAccount) == trade.ask_tokens
                &&& escrow_lamport_flow(steps.take(2)) == 0
                &&& escrow_token_flow(steps.take(2)) == 0
                &&& steps_fit(
                    steps,
                    own_signer(trade, accounts.depositor, accounts.beneficiary),
                    AccountRole::DepositTokenProgram,
                    accounts.deposit_mint_decimals,
                    accounts.ask_mint_decimals,
                )
                &&& lamport_flow(steps, AccountRole::Depositor) == trade.ask_lamps
                &&& token_flow(steps, AccountRole::DepositorAskTokenAccount) == trade.ask_tokens
                &&& lamport_flow(steps, AccountRole::Beneficiary) == trade.deposit_lamps - trade.ask_lamps
                &&& token_flow(steps, AccountRole::BeneficiaryDepositTokenAccount) == trade.deposit_tokens
                &&& escrow_lamport_flow(steps) == -trade.deposit_lamps
                &&& escrow_token_flow(steps) == -trade.deposit_tokens
                &&& fulfill_record(trade, accounts, input) == (TradeAgreement {
                    status: TradeStatus::Fulfilled,
                    ..trade
                })
            }
        }),
{
    reveal_with_fuel(token_flow, 5);
    reveal_with_fuel(lamport_flow, 5);
    if let Ok(steps) = fulfill_result(trade, accounts, input) {
        let signer = own_signer(trade, accounts.depositor, accounts.beneficiary);
        assert(step_fits(steps[0], signer, AccountRole::DepositTokenProgram, accounts.deposit_mint_decimals, accounts.ask_mint_decimals));
        assert(step_fits(steps[1], signer, AccountRole::DepositTokenProgram, accounts.deposit_mint_decimals, accounts.ask_mint_decimals));
        assert(step_fits(steps[2], signer, AccountRole::DepositTokenProgram, accounts.deposit_mint_decimals, accounts.ask_mint_decimals));
        assert(step_fits(steps[3], signer, AccountRole::DepositTokenProgram, accounts.deposit_mint_decimals, accounts.ask_mint_decimals));
    }
}

/// Opening succeeds exactly where both token programs are known and the
/// depositor holds the deposited lamports and tokens; otherwise it ends, in
/// this order, with `InvalidTokenProgramId`, `InsufficientLamports` or
/// `InsufficientTokens`, and leaves the record. On success the record is
/// open at version 0 and holds the input, the two parties, the two mints
/// given, their token programs and the bump; and the two steps, which the
/// runtime accepts, take the deposit from the depositor into the trade.
pub proof fn lemma_init_outcome(trade: TradeAgreement, accounts: InitTradeAccounts, input: InitTradeInput)
    ensures
        ({
            let programs_known = TradeTokenProgramVersion::is_token_program_id(accounts.token_program@)
                && TradeTokenProgramVersion::is_token_program_id(accounts.ask_mint_owner@);
            let r = init_result(accounts, input);
            let record = init_record(trade, accounts, input);
            &&& r is Ok <==> {
                &&& programs_known
                &&& input.deposit_lamps <= accounts.depositor_lamports
                &&& input.deposit_tokens <= accounts.depositor_tokens
            }
            &&& !programs_known ==> r == Err::<Seq<Step>, EscrowError>(
                EscrowError::Trade(TradeErrors::InvalidTokenProgramId),
            )
            &&& programs_known && input.deposit_lamps > accounts.depositor_lamports ==> r == Err::<
                Seq<Step>,
                EscrowError,
            >(EscrowError::InitTrade(InitTradeErrors::InsufficientLamports))
            &&& programs_known && input.deposit_lamps <= accounts.depositor_lamports
                && input.deposit_tokens > accounts.depositor_tokens ==> r == Err::<Seq<Step>, EscrowError>(
                EscrowError::InitTrade(InitTradeErrors::InsufficientTokens),
            )
            &&& r is Err ==> record == trade
            &&& r matches Ok(steps) ==> {
                &&& record.id == input.id
                &&& record.depositor == accounts.depositor
                &&& record.beneficiary == accounts.beneficiary
                &&& record.deposit_mint == accounts.deposit_mint
                &&& record.ask_mint == accounts.ask_mint
                &&& record.deposit_token_program.program_id() == accounts.token_program@
                &&& record.ask_token_program.program_id() == accounts.ask_mint_owner@
                &&& record.deposit_lamps == input.deposit_lamps
                &&& record.deposit_tokens == input.deposit_tokens
                &&& record.ask_lamps == input.ask_lamps
                &&& record.ask_tokens == input.ask_tokens
                &&& record.bump == accounts.trade_bump
                &&& record.status == TradeStatus::Open
                &&& record.version == 0
                &&& steps.len() == 2
                &&& steps_fit(
                    steps,
                    own_signer(record, accounts.depositor, accounts.beneficiary),
                    AccountRole::TokenProgram,
                    accounts.deposit_mint_decimals,
                    accounts.deposit_mint_decimals,
                )
                &&& only_deposit_mint(steps)
                &&& escrow_lamport_flow(steps) == input.deposit_lamps
                &&& escrow_token_flow(steps) == input.deposit_tokens
                &&& lamport_flow(steps, AccountRole::Depositor) == -input.deposit_lamps
                &&& token_flow(steps, AccountRole::DepositorTokenAccount) == -input.deposit_tokens
            }
        }),
{
    reveal_with_fuel(token_flow, 3);
    reveal_with_fuel(lamport_flow, 3);
    lemma_program_ids_differ();
    if let Ok(steps) = init_result(accounts, input) {
        let record = init_record(trade, accounts, input);
        let signer = own_signer(record, accounts.depositor, accounts.beneficiary);
        assert(step_fits(steps[0], signer, AccountRole::TokenProgram, accounts.deposit_mint_decimals, accounts.deposit_mint_decimals));
        assert(step_fits(steps[1], signer, AccountRole::TokenProgram, accounts.deposit_mint_decimals, accounts.deposit_mint_decimals));
        assert(steps[0] matches Step::System(_));
    }
}

/// Cancelling succeeds exactly for an open trade, and otherwise ends with
/// `TradeNotOpen` and leaves the record. On success its two steps, which the
/// runtime accepts and which move only deposit tokens, give the recorded
/// deposit back to the depositor, and only the status changes, to
/// cancelled.
pub proof fn lemma_cancel_outcome(trade: TradeAgreement, accounts: CancelTradeAccounts)
    ensures
        ({
            let r = cancel_result(trade, accounts);
            &&& r is Ok <==> trade.status == TradeStatus::Open
            &&& r is Err ==> r == Err::<Seq<Step>, EscrowError>(
                EscrowError::CancelTrade(CancelTradeErrors::TradeNotOpen),
            ) && cancel_record(trade) == trade
            &&& r matches Ok(steps) ==> {
                &&& steps.len() == 2
                &&& steps_fit(
                    steps,
                    own_signer(trade, accounts.depositor, accounts.beneficiary),
                    AccountRole::DepositTokenProgram,
                    accounts.deposit_mint_decimals,
                    accounts.deposit_mint_decimals,
                )
                &&& only_deposit_mint(steps)
                &&& escrow_token_flow(steps) == -trade.deposit_tokens
                &&& token_flow(steps, AccountRole::DepositorTokenAccount) == trade.deposit_tokens
                &&& escrow_lamport_flow(steps) == -trade.deposit_lamps
                &&& lamport_flow(steps, AccountRole::Depositor) == trade.deposit_lamps
                &&& cancel_record(trade) == (TradeAgreement { status: TradeStatus::Cancelled, ..trade })
            }
        }),
{
    reveal_with_fuel(token_flow, 3);
    reveal_with_fuel(lamport_flow, 3);
    if let Ok(steps) = cancel_result(trade, accounts) {
        let signer = own_signer(trade, accounts.depositor, accounts.beneficiary);
        assert(step_fits(steps[0], signer, AccountRole::DepositTokenProgram, accounts.deposit_mint_decimals, accounts.deposit_mint_decimals));
        assert(step_fits(steps[1], signer, AccountRole::DepositTokenProgram, accounts.deposit_mint_decimals, accounts.deposit_mint_decimals));
    }
}

/// The token adjustment of an update, where there is one, is a transfer
/// that the runtime accepts, of deposit tokens, with the deposit mint's
/// decimals, of the difference between the two deposits: into the trade's
/// token account where the deposit grows, out of it where it shrinks. The
/// lamport adjustment is a system transfer from the depositor into the trade
/// where the deposit grows, and a move out of the trade account back to the
/// depositor where it shrinks.
pub proof fn lemma_update_adjustments(
    trade: TradeAgreement,
    accounts: UpdateTradeAccounts,
    input: UpdateTradeInput,
)
    ensures
        ({
            let signer = own_signer(trade, accounts.depositor, accounts.beneficiary);
            let new_tokens = input.updated_deposit_tokens;
            let new_lamps = input.updated_deposit_lamps;
            &&& tokens_adjustment(trade, accounts, new_tokens) is None <==> new_tokens == trade.deposit_tokens
            &&& tokens_adjustment(trade, accounts, new_tokens) matches Some(t) ==> {
                &&& token_transfer_fits(t, signer, AccountRole::DepositTokenProgram, accounts.deposit_mint_decimals, accounts.deposit_mint_decimals)
                &&& t.mint == AccountRole::DepositMint
                &&& t.decimals == accounts.deposit_mint_decimals
                &&& t.token_program == AccountRole::DepositTokenProgram
                &&& new_tokens > trade.deposit_tokens ==> t.to == AccountRole::TradeTokenAccount && t.amount
                    == new_tokens - trade.deposit_tokens
                &&& new_tokens < trade.deposit_tokens ==> t.from == AccountRole::TradeTokenAccount && t.amount
                    == trade.deposit_tokens - new_tokens
            }
            &&& lamps_adjustment(trade, new_lamps) is None <==> new_lamps == trade.deposit_lamps
            &&& lamps_adjustment(trade, new_lamps) matches Some(step) ==> {
                &&& step_fits(step, signer, AccountRole::DepositTokenProgram, accounts.deposit_mint_decimals, accounts.deposit_mint_decimals)
                &&& new_lamps > trade.deposit_lamps ==> (step matches Step::System(s) && s.from
                    == AccountRole::Depositor && s.to == AccountRole::Trade && s.lamports == new_lamps
                    - trade.deposit_lamps)
                &&& new_lamps < trade.deposit_lamps ==> (step matches Step::Lamports(m) && m.destination()
                    == AccountRole::Depositor && m.lamports() == trade.deposit_lamps - new_lamps)
            }
        }),
{
}

/// Updating succeeds exactly for an open trade; a fulfilled trade is refused
/// with `TradeAlreadyFulfilled` and a cancelled one with `TradeNotOpen`, and
/// the record is left. On success the steps, which the runtime accepts and
/// which move only deposit tokens, bring the trade from the old deposit to
/// the new one; the record holds the new deposit and ask, its version is one
/// on (after 255 comes 0), and nothing else changes.
pub proof fn lemma_update_outcome(trade: TradeAgreement, accounts: UpdateTradeAccounts, input: UpdateTradeInput)
    ensures
        ({
            let r = update_result(trade, accounts, input);
            let record = update_record(trade, input);
            &&& r is Ok <==> trade.status == TradeStatus::Open
            &&& trade.status == TradeStatus::Fulfilled ==> r == Err::<Seq<Step>, EscrowError>(
                EscrowError::UpdateTrade(UpdateTradeErrors::TradeAlreadyFulfilled),
            )
            &&& trade.status == TradeStatus::Cancelled ==> r == Err::<Seq<Step>, EscrowError>(
                EscrowError::UpdateTrade(UpdateTradeErrors::TradeNotOpen),
            )
            &&& r is Err ==> record == trade
            &&& r matches Ok(steps) ==> {
                &&& steps.len() <= 2
                &&& steps_fit(
                    steps,
                    own_signer(trade, accounts.depositor, accounts.beneficiary),
                    AccountRole::DepositTokenProgram,
                    accounts.deposit_mint_decimals,
                    accounts.deposit_mint_decimals,
                )
                &&& only_deposit_mint(steps)
                &&& escrow_token_flow(steps) == input.updated_deposit_tokens - trade.deposit_tokens
                &&& escrow_lamport_flow(steps) == input.updated_deposit_lamps - trade.deposit_lamps
                &&& record == (TradeAgreement {
                    deposit_lamps: input.updated_deposit_lamps,
                    deposit_tokens: input.updated_deposit_tokens,
                    ask_lamps: input.updated_ask_lamps,
                    ask_tokens: input.updated_ask_tokens,
                    version: ((trade.version + 1) % 256) as u8,
                    ..trade
                })
            }
        }),
{
    lemma_update_adjustments(trade, accounts, input);
    crate::lifecycle::lemma_update_adjusts_the_escrow(trade, accounts, input);
    let signer = own_signer(trade, accounts.depositor, accounts.beneficiary);
    let d = accounts.deposit_mint_decimals;
    if let Ok(steps) = update_result(trade, accounts, input) {
        let tokens = match tokens_adjustment(trade, accounts, input.updated_deposit_tokens) {
            Some(t) => seq![Step::Token(t)],
            None => Seq::<Step>::empty(),
        };
        let lamps = match lamps_adjustment(trade, input.updated_deposit_lamps) {
            Some(step) => seq![step],
            None => Seq::<Step>::empty(),
        };
        assert(steps == tokens + lamps);
        assert forall|i: int| 0 <= i < steps.len() implies #[trigger] step_fits(steps[i], signer, AccountRole::DepositTokenProgram, d, d) by {
            if i < tokens.len() {
                assert(steps[i] == tokens[i]);
            } else {
                assert(steps[i] == lamps[i - tokens.len()]);
            }
        }
        assert forall|i: int| 0 <= i < steps.len() implies (#[trigger] steps[i] matches Step::Token(t) ==> t.mint
            == AccountRole::DepositMint) by {
            if i < tokens.len() {
                assert(steps[i] == tokens[i]);
            } else {
                assert(steps[i] == lamps[i - tokens.len()]);
            }
        }
    }
}

/// A move of lamports that the program makes succeeds where it can be
/// made: a guarded move exactly where its source holds the amount, whatever
/// the destination holds; a checked move exactly where its source holds the
/// amount and the destination can take it. On success the amount leaves the
/// source and reaches the destination; a guarded move short of lamports ends
/// with `InsufficientLamports`, a checked one with `ArithmeticOverflow`.
pub proof fn lemma_lamport_move_outcome(mv: LamportMove, from_balance: u64, to_balance: u64)
    ensures
        mv is Guarded ==> {
            &&& mv.outcome(from_balance, to_balance) is Ok <==> mv.lamports() <= from_balance
            &&& mv.lamports() > from_balance ==> mv.outcome(from_balance, to_balance) == Err::<
                (u64, u64),
                EscrowError,
            >(EscrowError::FulfillTrade(FulfillTradeErrors::InsufficientLamports))
        },
        mv is Checked ==> {
            &&& mv.outcome(from_balance, to_balance) is Ok <==> mv.lamports() <= from_balance && to_balance
                + mv.lamports() <= u64::MAX
            &&& mv.outcome(from_balance, to_balance) is Err ==> mv.outcome(from_balance, to_balance) == Err::<
                (u64, u64),
                EscrowError,
            >(EscrowError::ArithmeticOverflow)
        },
        mv.can_apply(from_balance, to_balance) ==> (mv.outcome(from_balance, to_balance) matches Ok(
            (from_after, to_after),
        ) ==> from_after == from_balance - mv.lamports() && to_after == to_balance + mv.lamports()),
{
}

/// Adding lamports succeeds exactly where the sum fits in `u64`, and gives
/// the sum; taking them succeeds exactly where the balance holds them, and
/// gives the difference. Both fail with `ArithmeticOverflow` otherwise.
pub proof fn lemma_lamport_arithmetic(balance: u64, amount: u64)
    ensures
        added(balance, amount) is Ok <==> balance + amount <= u64::MAX,
        added(balance, amount) matches Ok(sum) ==> sum == balance + amount,
        added(balance, amount) is Err ==> added(balance, amount) == Err::<u64, EscrowError>(
            EscrowError::ArithmeticOverflow,
        ),
        subtracted(balance, amount) is Ok <==> amount <= balance,
        subtracted(balance, amount) matches Ok(rest) ==> rest == balance - amount,
        subtracted(balance, amount) is Err ==> subtracted(balance, amount) == Err::<u64, EscrowError>(
            EscrowError::ArithmeticOverflow,
        ),
{
}

/// Within each error enum the variants are numbered from 0, one number each:
/// the codes reported are `ERROR_CODE_OFFSET` onwards and no two variants of
/// an enum share one.
pub proof fn lemma_error_codes_are_distinct(
    a: TradeErrors,
    b: TradeErrors,
    c: InitTradeErrors,
    d: InitTradeErrors,
    e: FulfillTradeErrors,
    f: FulfillTradeErrors,
    g: CancelTradeErrors,
    h: CancelTradeErrors,
    i: UpdateTradeErrors,
    j: UpdateTradeErrors,
)
    ensures
        a.index() < 1 && (a.index() == b.index() ==> a == b),
        c.index() < 2 && (c.index() == d.index() ==> c == d),
        e.index() < 5 && (e.index() == f.index() ==> e == f),
        g.index() < 1 && (g.index() == h.index() ==> g == h),
        i.index() < 2 && (i.index() == j.index() ==> i == j),
{
}

/// The version after `version` is one more, modulo 256.
pub proof fn lemma_next_version(version: u8)
    ensures
        next_version(version) == (version + 1) % 256,
{
}

/// Each version names its own program: the legacy version the SPL Token
/// program, the 2022 version the SPL Token-2022 program.
pub proof fn lemma_versions_name_their_programs()
    ensures
        TradeTokenProgramVersion::LegacyToken.program_id() == legacy_token_program_id_bytes(),
        TradeTokenProgramVersion::Token2022.program_id() == token_2022_program_id_bytes(),
        TradeTokenProgramVersion::version_of(legacy_token_program_id_bytes())
            == TradeTokenProgramVersion::LegacyToken,
        TradeTokenProgramVersion::version_of(token_2022_program_id_bytes())
            == TradeTokenProgramVersion::Token2022,
{
    lemma_program_ids_differ();
}

/// Two addresses are equal exactly where their bytes are.
pub proof fn lemma_pubkey_equality(a: Pubkey, b: Pubkey)
    ensures
        vstd::std_specs::cmp::PartialEqSpec::eq_spec(&a, &b) <==> a.bytes@ == b.bytes@,
{
}

/// The trade's signer seeds are the trade seed, the trade id, the two
/// parties' addresses and the bump, in that order.
pub proof fn lemma_signer_seeds(signer: TradeSigner)
    ensures
        signer.spec_seeds().len() == 5,
        signer.spec_seeds()[0] == crate::constants::TRADE_SEED.spec_bytes(),
        signer.spec_seeds()[1] == seq![signer.id],
        signer.spec_seeds()[2] == signer.depositor.bytes@,
        signer.spec_seeds()[3] == signer.beneficiary.bytes@,
        signer.spec_seeds()[4] == seq![signer.bump],
{
}

} // verus!
