//! The transfers that an instruction asks the runtime to carry out.
//!
//! An instruction of the escrow decides which lamports and tokens move between
//! which of its accounts, and in which order. The runtime, or a token program
//! that the runtime invokes, moves them; the instruction fails as a whole
//! where any of them fails.
use vstd::prelude::*;

use vstd::string::StringSliceAdditionalSpecFns;

use crate::constants::TRADE_SEED;
use crate::pubkey::Pubkey;
use crate::state::trade::TradeAgreement;

verus! {

/// An account that an instruction is given, named by the part it plays.
#[derive(Clone, Copy, Debug, PartialEq, Eq, Structural)]
pub enum AccountRole {
    /// The wallet of the party that deposits into the trade.
    Depositor,
    /// The wallet of the party that fulfills the trade.
    Beneficiary,
    /// The trade agreement account.
    Trade,
    /// The depositor's token account for the deposit mint.
    DepositorTokenAccount,
    /// The trade's token account for the deposit mint.
    TradeTokenAccount,
    /// The depositor's token account for the ask mint.
    DepositorAskTokenAccount,
    /// The beneficiary's token account for the ask mint.
    BeneficiaryAskTokenAccount,
    /// The beneficiary's token account for the deposit mint.
    BeneficiaryDepositTokenAccount,
    /// The mint of the deposited tokens.
    DepositMint,
    /// The mint of the asked tokens.
    AskMint,
    /// The token program given to the instruction that opens a trade.
    TokenProgram,
    /// The token program of the deposit mint.
    DepositTokenProgram,
    /// The token program of the ask mint.
    AskTokenProgram,
}

/// The values from which the address of a trade agreement is derived; the
/// trade signs for its own accounts with them.
#[derive(Clone, Copy, Debug, PartialEq, Eq)]
pub struct TradeSigner {
    pub id: u8,
    pub depositor: Pubkey,
    pub beneficiary: Pubkey,
    pub bump: u8,
}

/// The bytes of a slice, copied into a vector.
fn slice_to_vec(s: &[u8]) -> (v: Vec<u8>)
    ensures
        v@ == s@,
{
    let mut v: Vec<u8> = Vec::new();
    let mut i: usize = 0;
    while i < s.len()
        invariant
            i <= s@.len(),
            v@ == s@.subrange(0, i as int),
        decreases s@.len() - i,
    {
        v.push(s[i]);
        i = i + 1;
    }
    assert(v@ =~= s@);
    v
}

impl TradeSigner {
    /// The signer of the trade whose record is `trade`, between `depositor`
    /// and `beneficiary`.
    pub open spec fn spec_of(trade: TradeAgreement, depositor: Pubkey, beneficiary: Pubkey) -> TradeSigner {
        TradeSigner { id: trade.id, depositor, beneficiary, bump: trade.bump }
    }

    /// The signer seeds: the trade seed, the trade id, the two parties'
    /// addresses and the bump, in that order.
    pub open spec fn spec_seeds(self) -> Seq<Seq<u8>> {
        seq![
            TRADE_SEED.spec_bytes(),
            seq![self.id],
            self.depositor@,
            self.beneficiary@,
            seq![self.bump],
        ]
    }

    /// The signer of the trade whose record is `trade`, between `depositor`
    /// and `beneficiary`.
    pub fn of(trade: &TradeAgreement, depositor: &Pubkey, beneficiary: &Pubkey) -> (signer: TradeSigner)
        ensures
            signer == Self::spec_of(*trade, *depositor, *beneficiary),
    {
        TradeSigner { id: trade.id, depositor: *depositor, beneficiary: *beneficiary, bump: trade.bump }
    }

    /// The signer seeds of the trade.
    pub fn seeds(&self) -> (seeds: Vec<Vec<u8>>)
        ensures
            seeds.deep_view() == self.spec_seeds(),
    {
        let mut seeds: Vec<Vec<u8>> = Vec::new();
        seeds.push(slice_to_vec(TRADE_SEED.as_bytes()));
        seeds.push(vec![self.id]);
        seeds.push(slice_to_vec(self.depositor.bytes.as_slice()));
        seeds.push(slice_to_vec(self.beneficiary.bytes.as_slice()));
        seeds.push(vec![self.bump]);
        // The deep view of each seed is its plain view; then each seed in turn.
        assert forall|i: int| 0 <= i < 5 implies #[trigger] seeds@[i].deep_view() =~= seeds@[i]@ by {
            assert(seeds@[i].deep_view().len() == seeds@[i]@.len());
        }
        assert(seeds.deep_view().len() == 5);
        assert(seeds.deep_view()[0] == TRADE_SEED.spec_bytes());
        assert(seeds.deep_view()[1] == seq![self.id]);
        assert(seeds.deep_view()[2] == self.depositor@);
        assert(seeds.deep_view()[4] == seq![self.bump]);
        assert(seeds.deep_view() =~= self.spec_seeds());
        seeds
    }
}

/// A transfer of lamports by the system program.
#[derive(Clone, Copy, Debug, PartialEq, Eq, Structural)]
pub struct SystemTransfer {
    pub from: AccountRole,
    pub to: AccountRole,
    pub lamports: u64,
}

/// A checked transfer of tokens by a token program.
#[derive(Clone, Copy, Debug, PartialEq, Eq)]
pub struct TokenTransfer {
    pub from: AccountRole,
    pub to: AccountRole,
    pub authority: AccountRole,
    pub mint: AccountRole,
    pub token_program: AccountRole,
    pub amount: u64,
    pub decimals: u8,
    /// The trade signs the transfer where this is given.
    pub signer: Option<TradeSigner>,
}

/// A move of lamports that the escrow program makes itself, between
/// accounts whose balances it changes directly.
#[derive(Clone, Copy, Debug, PartialEq, Eq, Structural)]
pub enum LamportMove {
    /// Fails with `InsufficientLamports` where `from` holds less than
    /// `amount`.
    Guarded { from: AccountRole, to: AccountRole, amount: u64 },
    /// Fails with `ArithmeticOverflow` where a balance would leave the range
    /// of `u64`.
    Checked { from: AccountRole, to: AccountRole, amount: u64 },
}

/// One step of an instruction, in the order in which it is carried out.
#[derive(Clone, Copy, Debug, PartialEq, Eq)]
pub enum Step {
    System(SystemTransfer),
    Token(TokenTransfer),
    Lamports(LamportMove),
}

/// The tokens that a step brings to the account `role`, less those that it
/// takes from it.
pub open spec fn step_token_flow(step: Step, role: AccountRole) -> int {
    match step {
        Step::Token(t) => (if t.to == role { t.amount as int } else { 0 }) - (if t.from == role {
            t.amount as int
        } else {
            0
        }),
        _ => 0,
    }
}

/// The lamports that a step brings to the account `role`, less those that it
/// takes from it.
pub open spec fn step_lamport_flow(step: Step, role: AccountRole) -> int {
    match step {
        Step::System(t) => (if t.to == role { t.lamports as int } else { 0 }) - (if t.from == role {
            t.lamports as int
        } else {
            0
        }),
        Step::Lamports(m) => {
            let (from, to, amount) = match m {
                LamportMove::Guarded { from, to, amount } => (from, to, amount),
                LamportMove::Checked { from, to, amount } => (from, to, amount),
            };
            (if to == role { amount as int } else { 0 }) - (if from == role { amount as int } else { 0 })
        },
        Step::Token(_) => 0,
    }
}

/// The tokens that a sequence of steps brings to the account `role`, less
/// those that it takes from it.
pub open spec fn token_flow(steps: Seq<Step>, role: AccountRole) -> int
    decreases steps.len(),
{
    if steps.len() == 0 {
        0
    } else {
        token_flow(steps.drop_last(), role) + step_token_flow(steps.last(), role)
    }
}

/// The lamports that a sequence of steps brings to the account `role`, less
/// those that it takes from it.
pub open spec fn lamport_flow(steps: Seq<Step>, role: AccountRole) -> int
    decreases steps.len(),
{
    if steps.len() == 0 {
        0
    } else {
        lamport_flow(steps.drop_last(), role) + step_lamport_flow(steps.last(), role)
    }
}

/// The flow of steps run one after the other is the sum of their flows.
pub proof fn lemma_flow_of_concatenation(a: Seq<Step>, b: Seq<Step>, role: AccountRole)
    ensures
        token_flow(a + b, role) == token_flow(a, role) + token_flow(b, role),
        lamport_flow(a + b, role) == lamport_flow(a, role) + lamport_flow(b, role),
    decreases b.len(),
{
    if b.len() == 0 {
        assert(a + b =~= a);
    } else {
        assert((a + b).drop_last() =~= a + b.drop_last());
        lemma_flow_of_concatenation(a, b.drop_last(), role);
    }
}

/// The steps of an instruction's result, taken by their view.
pub open spec fn steps_view<E>(result: Result<Vec<Step>, E>) -> Result<Seq<Step>, E> {
    match result {
        Ok(steps) => Ok(steps@),
        Err(e) => Err(e),
    }
}

} // verus!
