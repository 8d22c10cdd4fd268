use eskplus::constants::{DISCRIMINATOR, TRADE_SEED};
use eskplus::errors::{
    CancelTradeErrors, EscrowError, FulfillTradeErrors, InitTradeErrors, TradeErrors,
    UpdateTradeErrors, ERROR_CODE_OFFSET,
};
use eskplus::instructions::cancel::{_cancel, cancel, CancelTradeAccounts};
use eskplus::instructions::fulfill::{
    _fulfill, check_fulfill_constraints, fulfill, FulfillTradeAccounts, FulfillTradeInput,
};
use eskplus::instructions::init::{_init, init, transfer_tokens_deposit, InitTradeAccounts, InitTradeInput};
use eskplus::instructions::update::{
    _update, transfer_or_refund_lamps_deposit, transfer_or_refund_tokens_deposit, update,
    UpdateTradeAccounts, UpdateTradeInput,
};
use eskplus::lamports::{add_lamports, sub_lamports};
use eskplus::pubkey::Pubkey;
use eskplus::state::trade::{TradeAgreement, TradeStatus, TradeTokenProgramVersion};
use eskplus::transfers::{AccountRole, LamportMove, Step, SystemTransfer, TokenTransfer, TradeSigner};

const LEGACY: [u8; 32] = [
    6, 221, 246, 225, 215, 101, 161, 147, 217, 203, 225, 70, 206, 235, 121, 172, 28, 180, 133,
    237, 95, 91, 55, 145, 58, 140, 245, 133, 126, 255, 0, 169,
];
const TOKEN_2022: [u8; 32] = [
    6, 221, 246, 225, 238, 117, 143, 222, 24, 66, 93, 188, 228, 108, 205, 218, 182, 26, 252, 77,
    131, 185, 13, 39, 254, 189, 249, 40, 216, 161, 139, 252,
];

fn key(b: u8) -> Pubkey {
    Pubkey::new_from_array([b; 32])
}

fn blank_trade() -> TradeAgreement {
    TradeAgreement {
        id: 0,
        deposit_lamps: 0,
        deposit_tokens: 0,
        deposit_mint: key(0),
        deposit_token_program: TradeTokenProgramVersion::LegacyToken,
        ask_lamps: 0,
        ask_tokens: 0,
        ask_mint: key(0),
        ask_token_program: TradeTokenProgramVersion::LegacyToken,
        depositor: key(0),
        beneficiary: key(0),
        status: TradeStatus::Open,
        bump: 0,
        version: 0,
    }
}

fn open_trade() -> TradeAgreement {
    TradeAgreement {
        id: 7,
        deposit_lamps: 1_000,
        deposit_tokens: 500,
        deposit_mint: key(3),
        deposit_token_program: TradeTokenProgramVersion::LegacyToken,
        ask_lamps: 300,
        ask_tokens: 40,
        ask_mint: key(4),
        ask_token_program: TradeTokenProgramVersion::Token2022,
        depositor: key(1),
        beneficiary: key(2),
        status: TradeStatus::Open,
        bump: 254,
        version: 5,
    }
}

fn signer() -> TradeSigner {
    TradeSigner { id: 7, depositor: key(1), beneficiary: key(2), bump: 254 }
}

fn init_accounts(depositor_lamports: u64) -> InitTradeAccounts {
    InitTradeAccounts {
        depositor: key(1),
        depositor_lamports,
        depositor_tokens: 500,
        beneficiary: key(2),
        deposit_mint: key(3),
        deposit_mint_decimals: 6,
        ask_mint: key(4),
        ask_mint_owner: Pubkey::new_from_array(TOKEN_2022),
        token_program: Pubkey::new_from_array(LEGACY),
        trade_bump: 254,
    }
}

fn init_input() -> InitTradeInput {
    InitTradeInput { id: 7, deposit_lamps: 1_000, deposit_tokens: 500, ask_lamps: 300, ask_tokens: 40 }
}

fn fulfill_accounts(beneficiary_lamports: u64) -> FulfillTradeAccounts {
    FulfillTradeAccounts {
        depositor: key(1),
        beneficiary: key(2),
        beneficiary_lamports,
        deposit_mint_decimals: 6,
        ask_mint_decimals: 9,
        deposit_token_program: Pubkey::new_from_array(LEGACY),
        ask_token_program: Pubkey::new_from_array(TOKEN_2022),
    }
}

fn cancel_accounts() -> CancelTradeAccounts {
    CancelTradeAccounts { depositor: key(1), beneficiary: key(2), deposit_mint_decimals: 6 }
}

fn update_accounts() -> UpdateTradeAccounts {
    UpdateTradeAccounts { depositor: key(1), beneficiary: key(2), deposit_mint_decimals: 6 }
}

fn update_input(deposit_lamps: u64, deposit_tokens: u64) -> UpdateTradeInput {
    UpdateTradeInput {
        id: 7,
        updated_deposit_lamps: deposit_lamps,
        updated_deposit_tokens: deposit_tokens,
        updated_ask_lamps: 333,
        updated_ask_tokens: 44,
    }
}

/// The net tokens into and lamports into the trade (its account and its token account).
fn escrow_flows(steps: &[Step]) -> (i128, i128) {
    let mut tokens: i128 = 0;
    let mut lamports: i128 = 0;
    let held = |r: AccountRole| r == AccountRole::TradeTokenAccount;
    for s in steps {
        match s {
            Step::Token(t) => {
                if held(t.to) {
                    tokens += t.amount as i128;
                }
                if held(t.from) {
                    tokens -= t.amount as i128;
                }
            }
            Step::System(t) => {
                if t.to == AccountRole::Trade {
                    lamports += t.lamports as i128;
                }
                if t.from == AccountRole::Trade {
                    lamports -= t.lamports as i128;
                }
            }
            Step::Lamports(LamportMove::Guarded { from, to, amount })
            | Step::Lamports(LamportMove::Checked { from, to, amount }) => {
                if *to == AccountRole::Trade {
                    lamports += *amount as i128;
                }
                if *from == AccountRole::Trade {
                    lamports -= *amount as i128;
                }
            }
        }
    }
    (tokens, lamports)
}

#[test]
fn constants_have_their_values() {
    assert_eq!(DISCRIMINATOR, 8);
    assert_eq!(TRADE_SEED, "trade");
    assert_eq!(TradeAgreement::LEN, 263);
    assert_eq!(TradeAgreement::TRADE_ID_LENGTH, 32);
}

#[test]
fn program_ids_are_those_of_the_token_programs() {
    let legacy = TradeTokenProgramVersion::LegacyToken.get_program_id();
    let token_2022 = TradeTokenProgramVersion::Token2022.get_program_id();
    assert_eq!(legacy.to_bytes(), LEGACY);
    assert_eq!(token_2022.to_bytes(), TOKEN_2022);
    assert_eq!(legacy.to_bytes(), anchor_spl::token::ID.to_bytes());
    assert_eq!(token_2022.to_bytes(), anchor_spl::token_2022::ID.to_bytes());
    assert!(legacy != token_2022);
}

#[test]
fn version_round_trips_through_its_program_id() {
    for v in [TradeTokenProgramVersion::LegacyToken, TradeTokenProgramVersion::Token2022] {
        let id = v.get_program_id();
        assert_eq!(TradeTokenProgramVersion::from_id(&id), v);
        assert_eq!(TradeTokenProgramVersion::try_from_id(&id), Ok(v));
    }
}

#[test]
fn unknown_program_id_is_refused() {
    assert_eq!(
        TradeTokenProgramVersion::try_from_id(&key(9)),
        Err(TradeErrors::InvalidTokenProgramId)
    );
}

#[test]
fn pubkeys_compare_by_bytes() {
    let mut bytes = [5u8; 32];
    assert!(Pubkey::new_from_array(bytes) == key(5));
    bytes[31] = 6;
    assert!(Pubkey::new_from_array(bytes) != key(5));
}

#[test]
fn error_codes_names_and_messages() {
    assert_eq!(ERROR_CODE_OFFSET, 6000);
    assert_eq!(TradeErrors::InvalidTokenProgramId.code(), 6000);
    assert_eq!(TradeErrors::InvalidTokenProgramId.message(), "Invalid token program id");
    assert_eq!(InitTradeErrors::InsufficientTokens.code(), 6001);
    assert_eq!(InitTradeErrors::InsufficientLamports.message(), "Not enough deposit Lamports");
    assert_eq!(FulfillTradeErrors::VersionMismatch.code(), 6004);
    assert_eq!(FulfillTradeErrors::VersionMismatch.name(), "VersionMismatch");
    assert_eq!(
        FulfillTradeErrors::AskDepositTokenProgramMismatch.message(),
        "Ask and deposit token programs do not match"
    );
    assert_eq!(CancelTradeErrors::TradeNotOpen.message(), "Trade is not open");
    assert_eq!(UpdateTradeErrors::TradeAlreadyFulfilled.code(), 6001);
    assert_eq!(UpdateTradeErrors::TradeAlreadyFulfilled.message(), "Trade is already fulfilled");
}

#[test]
fn signer_seeds_are_seed_id_parties_bump() {
    let seeds = signer().seeds();
    assert_eq!(
        seeds,
        vec![b"trade".to_vec(), vec![7], vec![1; 32], vec![2; 32], vec![254]]
    );
}

#[test]
fn init_records_the_trade_and_plans_the_deposit() {
    let mut trade = blank_trade();
    trade.version = 3;
    let steps = _init(&mut trade, &init_accounts(5_000), &init_input()).unwrap();
    assert_eq!(
        steps,
        vec![
            Step::System(SystemTransfer {
                from: AccountRole::Depositor,
                to: AccountRole::Trade,
                lamports: 1_000
            }),
            Step::Token(TokenTransfer {
                from: AccountRole::DepositorTokenAccount,
                to: AccountRole::TradeTokenAccount,
                authority: AccountRole::Depositor,
                mint: AccountRole::DepositMint,
                token_program: AccountRole::TokenProgram,
                amount: 500,
                decimals: 6,
                signer: None,
            }),
        ]
    );
    let mut expected = open_trade();
    expected.version = 0;
    assert_eq!(trade, expected);
    assert_eq!(escrow_flows(&steps), (500, 1_000));
}

#[test]
fn init_refuses_a_deposit_larger_than_the_depositors_lamports() {
    let mut trade = blank_trade();
    let result = init(&mut trade, &init_accounts(999), &init_input());
    assert_eq!(result, Err(EscrowError::InitTrade(InitTradeErrors::InsufficientLamports)));
    assert_eq!(trade, blank_trade());
    let exact = init(&mut trade, &init_accounts(1_000), &init_input());
    assert!(exact.is_ok());
}

#[test]
fn token_deposit_transfer() {
    assert_eq!(transfer_tokens_deposit(11, 9, 12), Err(InitTradeErrors::InsufficientTokens));
    let t = transfer_tokens_deposit(12, 9, 12).unwrap();
    assert_eq!(t.amount, 12);
    assert_eq!(t.decimals, 9);
    assert_eq!(t.from, AccountRole::DepositorTokenAccount);
    assert_eq!(t.to, AccountRole::TradeTokenAccount);
    assert_eq!(t.signer, None);
}

#[test]
fn fulfill_exchanges_ask_for_deposit() {
    let mut trade = open_trade();
    let steps = fulfill(&mut trade, &fulfill_accounts(300), &FulfillTradeInput { id: 7, version: 5 }).unwrap();
    assert_eq!(
        steps,
        vec![
            Step::System(SystemTransfer {
                from: AccountRole::Beneficiary,
                to: AccountRole::Depositor,
                lamports: 300
            }),
            Step::Token(TokenTransfer {
                from: AccountRole::BeneficiaryAskTokenAccount,
                to: AccountRole::DepositorAskTokenAccount,
                authority: AccountRole::Beneficiary,
                mint: AccountRole::AskMint,
                token_program: AccountRole::AskTokenProgram,
                amount: 40,
                decimals: 9,
                signer: None,
            }),
            Step::Lamports(LamportMove::Guarded {
                from: AccountRole::Trade,
                to: AccountRole::Beneficiary,
                amount: 1_000
            }),
            Step::Token(TokenTransfer {
                from: AccountRole::TradeTokenAccount,
                to: AccountRole::BeneficiaryDepositTokenAccount,
                authority: AccountRole::Trade,
                mint: AccountRole::DepositMint,
                token_program: AccountRole::DepositTokenProgram,
                amount: 500,
                decimals: 6,
                signer: Some(signer()),
            }),
        ]
    );
    let mut expected = open_trade();
    expected.status = TradeStatus::Fulfilled;
    assert_eq!(trade, expected);
    assert_eq!(escrow_flows(&steps), (-500, -1_000));
}

#[test]
fn fulfill_refuses_a_beneficiary_short_of_lamports() {
    let mut trade = open_trade();
    let result = fulfill(&mut trade, &fulfill_accounts(299), &FulfillTradeInput { id: 7, version: 5 });
    assert_eq!(result, Err(EscrowError::FulfillTrade(FulfillTradeErrors::InsufficientLamports)));
    assert_eq!(trade, open_trade());
}

#[test]
fn fulfill_refuses_other_token_programs() {
    let mut trade = open_trade();
    let mut accounts = fulfill_accounts(10_000);
    accounts.ask_token_program = Pubkey::new_from_array(LEGACY);
    assert_eq!(
        check_fulfill_constraints(&trade, &accounts),
        Err(FulfillTradeErrors::AskDepositTokenProgramMismatch)
    );
    let result = fulfill(&mut trade, &accounts, &FulfillTradeInput { id: 7, version: 5 });
    assert_eq!(
        result,
        Err(EscrowError::FulfillTrade(FulfillTradeErrors::AskDepositTokenProgramMismatch))
    );
    accounts = fulfill_accounts(10_000);
    accounts.deposit_token_program = key(8);
    assert_eq!(
        check_fulfill_constraints(&trade, &accounts),
        Err(FulfillTradeErrors::AskDepositTokenProgramMismatch)
    );
    assert_eq!(trade, open_trade());
}

#[test]
fn fulfill_refuses_a_cancelled_trade() {
    let mut trade = open_trade();
    trade.status = TradeStatus::Cancelled;
    let before = trade;
    let result = _fulfill(&mut trade, &fulfill_accounts(300), &FulfillTradeInput { id: 7, version: 5 });
    assert_eq!(result, Err(EscrowError::FulfillTrade(FulfillTradeErrors::TradeNotOpen)));
    assert_eq!(trade, before);
}

#[test]
fn a_trade_is_fulfilled_at_most_once() {
    let mut trade = open_trade();
    let input = FulfillTradeInput { id: 7, version: 5 };
    assert!(fulfill(&mut trade, &fulfill_accounts(300), &input).is_ok());
    let before = trade;
    assert_eq!(
        fulfill(&mut trade, &fulfill_accounts(300), &input),
        Err(EscrowError::FulfillTrade(FulfillTradeErrors::TradeAlreadyFulfilled))
    );
    assert_eq!(trade, before);
}

#[test]
fn cancel_refunds_the_deposit() {
    let mut trade = open_trade();
    let steps = cancel(&mut trade, &cancel_accounts()).unwrap();
    assert_eq!(
        steps,
        vec![
            Step::Token(TokenTransfer {
                from: AccountRole::TradeTokenAccount,
                to: AccountRole::DepositorTokenAccount,
                authority: AccountRole::Trade,
                mint: AccountRole::DepositMint,
                token_program: AccountRole::DepositTokenProgram,
                amount: 500,
                decimals: 6,
                signer: Some(signer()),
            }),
            Step::Lamports(LamportMove::Checked {
                from: AccountRole::Trade,
                to: AccountRole::Depositor,
                amount: 1_000
            }),
        ]
    );
    assert_eq!(trade.status, TradeStatus::Cancelled);
    assert_eq!(escrow_flows(&steps), (-500, -1_000));
}

#[test]
fn cancel_and_update_refuse_a_closed_trade() {
    for status in [TradeStatus::Cancelled, TradeStatus::Fulfilled] {
        let mut trade = open_trade();
        trade.status = status;
        let before = trade;
        assert_eq!(
            cancel(&mut trade, &cancel_accounts()),
            Err(EscrowError::CancelTrade(CancelTradeErrors::TradeNotOpen))
        );
        let expected = if status == TradeStatus::Fulfilled {
            UpdateTradeErrors::TradeAlreadyFulfilled
        } else {
            UpdateTradeErrors::TradeNotOpen
        };
        assert_eq!(
            update(&mut trade, &update_accounts(), &update_input(1, 1)),
            Err(EscrowError::UpdateTrade(expected))
        );
        assert_eq!(trade, before);
    }
}

#[test]
fn cancel_handler_sets_the_status() {
    let mut trade = open_trade();
    let steps = _cancel(&mut trade, &cancel_accounts());
    assert_eq!(steps.len(), 2);
    assert_eq!(trade.status, TradeStatus::Cancelled);
}

#[test]
fn update_with_a_larger_deposit_brings_in_the_difference() {
    let mut trade = open_trade();
    let steps = update(&mut trade, &update_accounts(), &update_input(1_250, 800)).unwrap();
    assert_eq!(
        steps,
        vec![
            Step::Token(TokenTransfer {
                from: AccountRole::DepositorTokenAccount,
                to: AccountRole::TradeTokenAccount,
                authority: AccountRole::Depositor,
                mint: AccountRole::DepositMint,
                token_program: AccountRole::DepositTokenProgram,
                amount: 300,
                decimals: 6,
                signer: None,
            }),
            Step::System(SystemTransfer {
                from: AccountRole::Depositor,
                to: AccountRole::Trade,
                lamports: 250
            }),
        ]
    );
    assert_eq!(trade.deposit_lamps, 1_250);
    assert_eq!(trade.deposit_tokens, 800);
    assert_eq!(trade.ask_lamps, 333);
    assert_eq!(trade.ask_tokens, 44);
    assert_eq!(trade.version, 6);
    assert_eq!(trade.status, TradeStatus::Open);
    assert_eq!(escrow_flows(&steps), (300, 250));
}

#[test]
fn update_with_a_smaller_deposit_gives_back_the_difference() {
    let mut trade = open_trade();
    let steps = _update(&mut trade, &update_accounts(), &update_input(400, 100));
    assert_eq!(
        steps,
        vec![
            Step::Token(TokenTransfer {
                from: AccountRole::TradeTokenAccount,
                to: AccountRole::DepositorTokenAccount,
                authority: AccountRole::Trade,
                mint: AccountRole::DepositMint,
                token_program: AccountRole::DepositTokenProgram,
                amount: 400,
                decimals: 6,
                signer: Some(signer()),
            }),
            Step::Lamports(LamportMove::Checked {
                from: AccountRole::Trade,
                to: AccountRole::Depositor,
                amount: 600
            }),
        ]
    );
    assert_eq!(escrow_flows(&steps), (-400, -600));
}

#[test]
fn update_with_the_same_deposit_moves_nothing() {
    let mut trade = open_trade();
    let steps = _update(&mut trade, &update_accounts(), &update_input(1_000, 500));
    assert!(steps.is_empty());
    assert_eq!(trade.ask_lamps, 333);
    assert_eq!(trade.version, 6);
}

#[test]
fn update_version_wraps_after_255() {
    let mut trade = open_trade();
    trade.version = 255;
    update(&mut trade, &update_accounts(), &update_input(1_000, 500)).unwrap();
    assert_eq!(trade.version, 0);
}

#[test]
fn update_undone_restores_the_record() {
    let mut trade = open_trade();
    let first = update(&mut trade, &update_accounts(), &update_input(2_000, 1)).unwrap();
    let back = UpdateTradeInput {
        id: 7,
        updated_deposit_lamps: 1_000,
        updated_deposit_tokens: 500,
        updated_ask_lamps: 300,
        updated_ask_tokens: 40,
    };
    let second = update(&mut trade, &update_accounts(), &back).unwrap();
    let mut expected = open_trade();
    expected.version = 7;
    assert_eq!(trade, expected);
    let (t1, l1) = escrow_flows(&first);
    let (t2, l2) = escrow_flows(&second);
    assert_eq!((t1 + t2, l1 + l2), (0, 0));
}

#[test]
fn open_update_cancel_returns_everything() {
    let mut trade = blank_trade();
    let opening = init(&mut trade, &init_accounts(10_000), &init_input()).unwrap();
    let updating = update(&mut trade, &update_accounts(), &update_input(700, 900)).unwrap();
    let cancelling = cancel(&mut trade, &cancel_accounts()).unwrap();
    let (t1, l1) = escrow_flows(&opening);
    let (t2, l2) = escrow_flows(&updating);
    let (t3, l3) = escrow_flows(&cancelling);
    assert_eq!((t1 + t2 + t3, l1 + l2 + l3), (0, 0));
    assert_eq!(trade.status, TradeStatus::Cancelled);
    assert!(cancel(&mut trade, &cancel_accounts()).is_err());
}

#[test]
fn guarded_move_checks_the_source() {
    let mv = LamportMove::Guarded { from: AccountRole::Trade, to: AccountRole::Beneficiary, amount: 100 };
    assert_eq!(
        mv.apply(99, 5),
        Err(EscrowError::FulfillTrade(FulfillTradeErrors::InsufficientLamports))
    );
    assert_eq!(mv.apply(100, 5), Ok((0, 105)));
}

#[test]
fn checked_move_fails_on_overflow_either_side() {
    let mv = LamportMove::Checked { from: AccountRole::Trade, to: AccountRole::Depositor, amount: 10 };
    assert_eq!(mv.apply(9, 0), Err(EscrowError::ArithmeticOverflow));
    assert_eq!(mv.apply(10, u64::MAX - 9), Err(EscrowError::ArithmeticOverflow));
    assert_eq!(mv.apply(10, u64::MAX - 10), Ok((0, u64::MAX)));
    let (a, b) = mv.apply(1_000, 2_000).unwrap();
    assert_eq!(a + b, 3_000);
}

#[test]
fn lamport_arithmetic_is_checked() {
    assert_eq!(add_lamports(u64::MAX, 1), Err(EscrowError::ArithmeticOverflow));
    assert_eq!(add_lamports(1, 2), Ok(3));
    assert_eq!(sub_lamports(1, 2), Err(EscrowError::ArithmeticOverflow));
    assert_eq!(sub_lamports(5, 2), Ok(3));
}

#[test]
fn open_then_fulfill_leaves_nothing_in_escrow() {
    let mut trade = blank_trade();
    let opening = init(&mut trade, &init_accounts(10_000), &init_input()).unwrap();
    let fulfilling = fulfill(&mut trade, &fulfill_accounts(300), &FulfillTradeInput { id: 7, version: 0 }).unwrap();
    let (t1, l1) = escrow_flows(&opening);
    let (t2, l2) = escrow_flows(&fulfilling);
    assert_eq!((t1 + t2, l1 + l2), (0, 0));
    assert_eq!(trade.status, TradeStatus::Fulfilled);
}

#[test]
fn init_records_the_token_programs_of_both_sides() {
    let mut trade = blank_trade();
    trade.version = 9;
    let mut accounts = init_accounts(5_000);
    accounts.token_program = Pubkey::new_from_array(TOKEN_2022);
    accounts.ask_mint_owner = Pubkey::new_from_array(LEGACY);
    init(&mut trade, &accounts, &init_input()).unwrap();
    assert_eq!(trade.deposit_token_program, TradeTokenProgramVersion::Token2022);
    assert_eq!(trade.ask_token_program, TradeTokenProgramVersion::LegacyToken);
    assert_eq!(trade.version, 0);
}

#[test]
fn init_refuses_an_unknown_token_program() {
    let mut trade = blank_trade();
    let mut accounts = init_accounts(5_000);
    accounts.ask_mint_owner = key(9);
    assert_eq!(
        init(&mut trade, &accounts, &init_input()),
        Err(EscrowError::Trade(TradeErrors::InvalidTokenProgramId))
    );
    accounts = init_accounts(5_000);
    accounts.token_program = key(9);
    assert_eq!(
        init(&mut trade, &accounts, &init_input()),
        Err(EscrowError::Trade(TradeErrors::InvalidTokenProgramId))
    );
    assert_eq!(trade, blank_trade());
}

#[test]
fn opened_token2022_trade_can_be_fulfilled() {
    let mut trade = blank_trade();
    init(&mut trade, &init_accounts(5_000), &init_input()).unwrap();
    let result = fulfill(&mut trade, &fulfill_accounts(300), &FulfillTradeInput { id: 7, version: 0 });
    assert!(result.is_ok());
}

#[test]
fn fulfill_refuses_a_trade_updated_since_it_was_read() {
    let mut trade = open_trade();
    update(&mut trade, &update_accounts(), &update_input(1_000, 500)).unwrap();
    let before = trade;
    let result = fulfill(&mut trade, &fulfill_accounts(10_000), &FulfillTradeInput { id: 7, version: 5 });
    assert_eq!(result, Err(EscrowError::FulfillTrade(FulfillTradeErrors::VersionMismatch)));
    assert_eq!(trade, before);
    assert!(fulfill(&mut trade, &fulfill_accounts(10_000), &FulfillTradeInput { id: 7, version: 6 }).is_ok());
}

#[test]
fn update_helpers_take_the_larger_less_the_smaller() {
    let trade = open_trade();
    assert_eq!(transfer_or_refund_tokens_deposit(&trade, &update_accounts(), 500), None);
    let up = transfer_or_refund_tokens_deposit(&trade, &update_accounts(), u64::MAX).unwrap();
    assert_eq!((up.from, up.to, up.amount), (AccountRole::DepositorTokenAccount, AccountRole::TradeTokenAccount, u64::MAX - 500));
    let down = transfer_or_refund_tokens_deposit(&trade, &update_accounts(), 0).unwrap();
    assert_eq!((down.from, down.to, down.amount, down.authority), (AccountRole::TradeTokenAccount, AccountRole::DepositorTokenAccount, 500, AccountRole::Trade));
    assert_eq!(transfer_or_refund_lamps_deposit(&trade, 1_000), None);
    assert_eq!(
        transfer_or_refund_lamps_deposit(&trade, 1_200),
        Some(Step::System(SystemTransfer { from: AccountRole::Depositor, to: AccountRole::Trade, lamports: 200 }))
    );
    let mv = LamportMove::Checked { from: AccountRole::Trade, to: AccountRole::Depositor, amount: 1_000 };
    assert_eq!(transfer_or_refund_lamps_deposit(&trade, 0), Some(Step::Lamports(mv)));
    // The trade held rent (890) on top of its deposit; after the refund it holds the rent alone.
    assert_eq!(mv.apply(1_890, 50), Ok((890, 1_050)));
}

#[test]
fn init_refuses_a_deposit_larger_than_the_depositors_tokens() {
    let mut trade = blank_trade();
    let mut accounts = init_accounts(5_000);
    accounts.depositor_tokens = 499;
    assert_eq!(
        init(&mut trade, &accounts, &init_input()),
        Err(EscrowError::InitTrade(InitTradeErrors::InsufficientTokens))
    );
    assert_eq!(trade, blank_trade());
}

#[test]
fn init_checks_the_token_program_before_the_lamports() {
    let mut trade = blank_trade();
    let mut accounts = init_accounts(0);
    accounts.token_program = key(9);
    assert_eq!(
        init(&mut trade, &accounts, &init_input()),
        Err(EscrowError::Trade(TradeErrors::InvalidTokenProgramId))
    );
}
