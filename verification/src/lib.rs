//! Two-party atomic-swap escrow: a maker locks an amount of one fungible
//! asset and names the amount of a second asset expected in return; a taker
//! who supplies that amount may claim the locked funds, or the maker may
//! cancel and reclaim them.
//!
//! The crate verifies the escrow instruction state machine: the wire codec
//! for the three instructions, the escrow record's binary layout and
//! lifecycle, and the validation logic of the Make, Take and Refund
//! transitions. Each handler is a pure decision function from account
//! snapshots to either an error or the exact set of effects (storage writes
//! and transfer requests) that the surrounding runtime must apply
//! atomically.
use vstd::prelude::*;

pub mod accounts;
pub mod addresses;
pub mod error;
pub mod make;
pub mod refund;
pub mod requests;
pub mod state;
pub mod take;
pub mod util;

use crate::accounts::{views_of, AccountState, AccountView};
use crate::error::{spec_program_error, EscrowError, ProgramError};
use crate::make::{make, spec_make, spec_token_program_id, MakeAccounts, MakeAccountsView, MakeEffects, MakeEffectsView};
use crate::refund::{refund, spec_refund, RefundAccounts, RefundAccountsView, RefundEffects, RefundEffectsView};
use crate::take::{spec_take, take, TakeAccounts, TakeAccountsView, TakeEffects, TakeEffectsView};
use crate::util::{push_bytes, read_u64_le, res_view, zero_bytes, Pubkey};

verus! {

/// One decoded instruction. On the wire, byte 0 selects the variant
/// (0 Make, 1 Take, 2 Refund), bytes 1-8 hold `amount` and bytes 9-16 hold
/// `seed`, both as little-endian unsigned 64-bit integers.
#[derive(Debug, Clone, Copy, PartialEq, Eq, Structural)]
pub enum EscrowInstruction {
    /// Create an escrow: lock `amount` of one asset under an address
    /// derived from the maker and `seed`.
    Make { amount: u64, seed: u64 },
    /// Fulfil an escrow: supply the expected amount of the second asset
    /// and claim the locked funds.
    Take { amount: u64, seed: u64 },
    /// Cancel an escrow: the maker reclaims the locked funds.
    Refund { amount: u64, seed: u64 },
}

/// Exact wire bytes of an instruction: opcode, then amount, then seed.
pub open spec fn spec_encode(i: EscrowInstruction) -> Seq<u8> {
    match i {
        EscrowInstruction::Make { amount, seed } => seq![0u8]
            + vstd::bytes::spec_u64_to_le_bytes(amount) + vstd::bytes::spec_u64_to_le_bytes(seed),
        EscrowInstruction::Take { amount, seed } => seq![1u8]
            + vstd::bytes::spec_u64_to_le_bytes(amount) + vstd::bytes::spec_u64_to_le_bytes(seed),
        EscrowInstruction::Refund { amount, seed } => seq![2u8]
            + vstd::bytes::spec_u64_to_le_bytes(amount) + vstd::bytes::spec_u64_to_le_bytes(seed),
    }
}

/// What decoding a payload yields: the decoded variant, or the
/// invalid-instruction error when the payload is empty, carries an unknown
/// opcode, or is shorter than the 17 bytes the format requires.
pub open spec fn spec_unpack(input: Seq<u8>) -> Result<EscrowInstruction, ProgramError> {
    if input.len() == 0 {
        Err(spec_program_error(EscrowError::InvalidInstruction))
    } else if input[0] != 0 && input[0] != 1 && input[0] != 2 {
        Err(spec_program_error(EscrowError::InvalidInstruction))
    } else if input.len() < 17 {
        Err(spec_program_error(EscrowError::InvalidInstruction))
    } else {
        let amount = vstd::bytes::spec_u64_from_le_bytes(input.subrange(1, 9));
        let seed = vstd::bytes::spec_u64_from_le_bytes(input.subrange(9, 17));
        if input[0] == 0 {
            Ok(EscrowInstruction::Make { amount, seed })
        } else if input[0] == 1 {
            Ok(EscrowInstruction::Take { amount, seed })
        } else {
            Ok(EscrowInstruction::Refund { amount, seed })
        }
    }
}

impl EscrowInstruction {
    /// Decodes an instruction payload.
    pub fn unpack(input: &[u8]) -> (r: Result<EscrowInstruction, ProgramError>)
        ensures
            r == spec_unpack(input@),
    {
        let n: usize = input.len();
        if n == 0 {
            return Err(ProgramError::from(EscrowError::InvalidInstruction));
        }
        match input[0] {
            0 => {
                if n < 17 {
                    return Err(ProgramError::from(EscrowError::InvalidInstruction));
                }
                let amount = read_u64_le(input, 1);
                let seed = read_u64_le(input, 9);
                Ok(EscrowInstruction::Make { amount, seed })
            },
            1 => {
                if n < 17 {
                    return Err(ProgramError::from(EscrowError::InvalidInstruction));
                }
                let amount = read_u64_le(input, 1);
                let seed = read_u64_le(input, 9);
                Ok(EscrowInstruction::Take { amount, seed })
            },
            2 => {
                if n < 17 {
                    return Err(ProgramError::from(EscrowError::InvalidInstruction));
                }
                let amount = read_u64_le(input, 1);
                let seed = read_u64_le(input, 9);
                Ok(EscrowInstruction::Refund { amount, seed })
            },
            _ => Err(ProgramError::from(EscrowError::InvalidInstruction)),
        }
    }
}

/// Encodes an instruction into its wire bytes; the exact inverse of
/// decoding.
pub fn pack_instruction_data(instruction: &EscrowInstruction) -> (data: Vec<u8>)
    ensures
        data@ == spec_encode(*instruction),
{
    let mut data: Vec<u8> = Vec::new();
    let amount: u64;
    let seed: u64;
    match instruction {
        EscrowInstruction::Make { amount: a, seed: s } => {
            data.push(0u8);
            amount = *a;
            seed = *s;
        },
        EscrowInstruction::Take { amount: a, seed: s } => {
            data.push(1u8);
            amount = *a;
            seed = *s;
        },
        EscrowInstruction::Refund { amount: a, seed: s } => {
            data.push(2u8);
            amount = *a;
            seed = *s;
        },
    }
    let amount_bytes = vstd::bytes::u64_to_le_bytes(amount);
    push_bytes(&mut data, amount_bytes.as_slice());
    let seed_bytes = vstd::bytes::u64_to_le_bytes(seed);
    push_bytes(&mut data, seed_bytes.as_slice());
    proof {
        assert(data@ =~= spec_encode(*instruction));
    }
    data
}

/// Round trip: decoding an encoded instruction yields that instruction
/// back, for every variant and for all 64-bit amount and seed values.
pub proof fn lemma_round_trip(i: EscrowInstruction)
    ensures
        spec_unpack(spec_encode(i)) == Ok::<EscrowInstruction, ProgramError>(i),
{
    vstd::bytes::lemma_auto_spec_u64_to_from_le_bytes();
    let enc = spec_encode(i);
    match i {
        EscrowInstruction::Make { amount, seed } => {
            assert(enc.subrange(1, 9) =~= vstd::bytes::spec_u64_to_le_bytes(amount));
            assert(enc.subrange(9, 17) =~= vstd::bytes::spec_u64_to_le_bytes(seed));
        },
        EscrowInstruction::Take { amount, seed } => {
            assert(enc.subrange(1, 9) =~= vstd::bytes::spec_u64_to_le_bytes(amount));
            assert(enc.subrange(9, 17) =~= vstd::bytes::spec_u64_to_le_bytes(seed));
        },
        EscrowInstruction::Refund { amount, seed } => {
            assert(enc.subrange(1, 9) =~= vstd::bytes::spec_u64_to_le_bytes(amount));
            assert(enc.subrange(9, 17) =~= vstd::bytes::spec_u64_to_le_bytes(seed));
        },
    }
}

/// Malformed payloads are rejected: an empty payload, a payload shorter
/// than 17 bytes, and an opcode byte other than 0, 1 or 2 all decode to
/// the invalid-instruction error.
pub proof fn lemma_malformed_rejected(input: Seq<u8>)
    requires
        input.len() < 17 || (input[0] != 0 && input[0] != 1 && input[0] != 2),
    ensures
        spec_unpack(input) == Err::<EscrowInstruction, ProgramError>(
            spec_program_error(EscrowError::InvalidInstruction),
        ),
{
}

/// Everything one instruction asks the runtime to apply.
#[derive(Debug)]
pub enum Effects {
    /// Open a record and fund its vault.
    Make(MakeEffects),
    /// Settle both legs, close the vault, clear the record.
    Take(TakeEffects),
    /// Return the locked funds, close the vault, clear the record.
    Refund(RefundEffects),
}

/// Mathematical model of one instruction's effects.
pub enum EffectsView {
    /// Open a record and fund its vault.
    Make(MakeEffectsView),
    /// Settle both legs, close the vault, clear the record.
    Take(TakeEffectsView),
    /// Return the locked funds, close the vault, clear the record.
    Refund(RefundEffectsView),
}

impl View for Effects {
    type V = EffectsView;

    open spec fn view(&self) -> EffectsView {
        match self {
            Effects::Make(m) => EffectsView::Make(m@),
            Effects::Take(t) => EffectsView::Take(t@),
            Effects::Refund(f) => EffectsView::Refund(f@),
        }
    }
}

/// How many positional accounts the decoded instruction consumes.
pub open spec fn spec_accounts_needed(decoded: Result<EscrowInstruction, ProgramError>) -> int {
    match decoded {
        Ok(EscrowInstruction::Make { .. }) => 8,
        Ok(EscrowInstruction::Take { .. }) => 10,
        Ok(EscrowInstruction::Refund { .. }) => 5,
        Err(_) => 0,
    }
}

/// The accounts of a Make instruction, in positional order.
pub open spec fn spec_make_accounts(accounts: Seq<AccountView>) -> MakeAccountsView {
    MakeAccountsView {
        maker: accounts[0],
        mint_a: accounts[1],
        mint_b: accounts[2],
        maker_ata_a: accounts[3],
        escrow: accounts[4],
        vault: accounts[5],
        token_program: accounts[6],
        system_program: accounts[7],
    }
}

/// The accounts of a Take instruction, in positional order.
pub open spec fn spec_take_accounts(accounts: Seq<AccountView>) -> TakeAccountsView {
    TakeAccountsView {
        taker: accounts[0],
        maker: accounts[1],
        escrow: accounts[2],
        vault: accounts[3],
        mint_a: accounts[4],
        mint_b: accounts[5],
        taker_ata_a: accounts[6],
        taker_ata_b: accounts[7],
        maker_ata_b: accounts[8],
        token_program: accounts[9],
    }
}

/// The accounts of a Refund instruction, in positional order.
pub open spec fn spec_refund_accounts(accounts: Seq<AccountView>) -> RefundAccountsView {
    RefundAccountsView {
        maker: accounts[0],
        escrow: accounts[1],
        vault: accounts[2],
        maker_ata_a: accounts[3],
        token_program: accounts[4],
    }
}

/// What one instruction decides and produces: decode the payload, select
/// the transition, and hand back either its first failing precondition's
/// error or its exact effects.
pub open spec fn spec_process(
    program_id: Seq<u8>,
    accounts: Seq<AccountView>,
    instruction_data: Seq<u8>,
) -> Result<EffectsView, ProgramError> {
    match spec_unpack(instruction_data) {
        Err(e) => Err(e),
        Ok(EscrowInstruction::Make { amount, seed }) => match spec_make(
            program_id,
            spec_make_accounts(accounts),
            amount,
            seed,
        ) {
            Ok(m) => Ok(EffectsView::Make(m)),
            Err(e) => Err(e),
        },
        Ok(EscrowInstruction::Take { amount, seed }) => match spec_take(
            program_id,
            spec_take_accounts(accounts),
            amount,
            seed,
        ) {
            Ok(t) => Ok(EffectsView::Take(t)),
            Err(e) => Err(e),
        },
        Ok(EscrowInstruction::Refund { amount, seed }) => match spec_refund(
            program_id,
            spec_refund_accounts(accounts),
            amount,
            seed,
        ) {
            Ok(f) => Ok(EffectsView::Refund(f)),
            Err(e) => Err(e),
        },
    }
}

/// Decodes a payload, dispatches to the selected transition, and returns
/// its effects or its error.
pub fn process_instruction(
    program_id: &Pubkey,
    accounts: &Vec<AccountState>,
    instruction_data: &[u8],
) -> (r: Result<Effects, ProgramError>)
    requires
        accounts@.len() >= spec_accounts_needed(spec_unpack(instruction_data@)),
    ensures
        res_view(r) == spec_process(program_id@, views_of(accounts@), instruction_data@),
{
    let instruction = match EscrowInstruction::unpack(instruction_data) {
        Ok(i) => i,
        Err(e) => {
            return Err(e);
        },
    };
    match instruction {
        EscrowInstruction::Make { amount, seed } => {
            let make_accounts = MakeAccounts {
                maker: &accounts[0],
                mint_a: &accounts[1],
                mint_b: &accounts[2],
                maker_ata_a: &accounts[3],
                escrow: &accounts[4],
                vault: &accounts[5],
                token_program: &accounts[6],
                system_program: &accounts[7],
            };
            match make(program_id, make_accounts, amount, seed) {
                Ok(m) => Ok(Effects::Make(m)),
                Err(e) => Err(e),
            }
        },
        EscrowInstruction::Take { amount, seed } => {
            let take_accounts = TakeAccounts {
                taker: &accounts[0],
                maker: &accounts[1],
                escrow: &accounts[2],
                vault: &accounts[3],
                mint_a: &accounts[4],
                mint_b: &accounts[5],
                taker_ata_a: &accounts[6],
                taker_ata_b: &accounts[7],
                maker_ata_b: &accounts[8],
                token_program: &accounts[9],
            };
            match take(program_id, take_accounts, amount, seed) {
                Ok(t) => Ok(Effects::Take(t)),
                Err(e) => Err(e),
            }
        },
        EscrowInstruction::Refund { amount, seed } => {
            let refund_accounts = RefundAccounts {
                maker: &accounts[0],
                escrow: &accounts[1],
                vault: &accounts[2],
                maker_ata_a: &accounts[3],
                token_program: &accounts[4],
            };
            match refund(program_id, refund_accounts, amount, seed) {
                Ok(f) => Ok(Effects::Refund(f)),
                Err(e) => Err(e),
            }
        },
    }
}

/// Mutual exclusion of the terminal transitions after a successful Take:
/// the Take leaves the record storage zeroed, and against that storage no
/// later Take or Refund can ever succeed, whatever its signer, accounts
/// or declared amount — the cleared record is indistinguishable from an
/// uninitialized one. When the later caller did sign and named the right
/// custody collaborator, the failure is exactly the invalid-account-data
/// error; otherwise the earlier signature or identity check fails first
/// with its own error.
pub proof fn lemma_mutual_exclusion_after_take(
    program_id: Seq<u8>,
    first: TakeAccountsView,
    amount: u64,
    seed: u64,
    effects: TakeEffectsView,
    later_take: TakeAccountsView,
    later_refund: RefundAccountsView,
    amount2: u64,
    seed2: u64,
)
    requires
        spec_take(program_id, first, amount, seed) == Ok::<TakeEffectsView, ProgramError>(effects),
        later_take.escrow.data == effects.escrow_data,
        later_refund.escrow.data == effects.escrow_data,
    ensures
        spec_take(program_id, later_take, amount2, seed2) is Err,
        spec_refund(program_id, later_refund, amount2, seed2) is Err,
        later_take.taker.is_signer && later_take.token_program.key == spec_token_program_id()
            ==> spec_take(program_id, later_take, amount2, seed2) == Err::<
            TakeEffectsView,
            ProgramError,
        >(ProgramError::InvalidAccountData),
        later_refund.maker.is_signer && later_refund.token_program.key == spec_token_program_id()
            ==> spec_refund(program_id, later_refund, amount2, seed2) == Err::<
            RefundEffectsView,
            ProgramError,
        >(ProgramError::InvalidAccountData),
{
    crate::state::lemma_cleared_record_not_open(first.escrow.data.len());
}

/// Mutual exclusion of the terminal transitions after a successful
/// Refund: the Refund leaves the record storage zeroed, and against that
/// storage no later Take or Refund can ever succeed, whatever its signer,
/// accounts or declared amount. When the later caller did sign and named
/// the right custody collaborator, the failure is exactly the
/// invalid-account-data error; otherwise the earlier signature or
/// identity check fails first with its own error.
pub proof fn lemma_mutual_exclusion_after_refund(
    program_id: Seq<u8>,
    first: RefundAccountsView,
    amount: u64,
    seed: u64,
    effects: RefundEffectsView,
    later_take: TakeAccountsView,
    later_refund: RefundAccountsView,
    amount2: u64,
    seed2: u64,
)
    requires
        spec_refund(program_id, first, amount, seed) == Ok::<RefundEffectsView, ProgramError>(
            effects,
        ),
        later_take.escrow.data == effects.escrow_data,
        later_refund.escrow.data == effects.escrow_data,
    ensures
        spec_take(program_id, later_take, amount2, seed2) is Err,
        spec_refund(program_id, later_refund, amount2, seed2) is Err,
        later_take.taker.is_signer && later_take.token_program.key == spec_token_program_id()
            ==> spec_take(program_id, later_take, amount2, seed2) == Err::<
            TakeEffectsView,
            ProgramError,
        >(ProgramError::InvalidAccountData),
        later_refund.maker.is_signer && later_refund.token_program.key == spec_token_program_id()
            ==> spec_refund(program_id, later_refund, amount2, seed2) == Err::<
            RefundEffectsView,
            ProgramError,
        >(ProgramError::InvalidAccountData),
{
    crate::state::lemma_cleared_record_not_open(first.escrow.data.len());
}

/// End to end: the record a successful Make opens is claimed by a Take
/// whose accounts match it and whose declared amount is the Make amount —
/// both settlement legs move exactly that amount and the record storage
/// becomes all-zero — and against that cleared storage no Refund can ever
/// succeed, whatever its signer, accounts or declared amount.
pub proof fn lemma_end_to_end(
    program_id: Seq<u8>,
    make_accounts: MakeAccountsView,
    amount: u64,
    seed: u64,
    make_effects: MakeEffectsView,
    take_accounts: TakeAccountsView,
    later_refund: RefundAccountsView,
    amount2: u64,
    seed2: u64,
)
    requires
        make_accounts.maker.key.len() == 32,
        make_accounts.mint_a.key.len() == 32,
        make_accounts.mint_b.key.len() == 32,
        make_accounts.maker_ata_a.key.len() == 32,
        spec_make(program_id, make_accounts, amount, seed) == Ok::<MakeEffectsView, ProgramError>(
            make_effects,
        ),
        take_accounts.taker.is_signer,
        take_accounts.token_program.key == spec_token_program_id(),
        take_accounts.escrow.key == make_accounts.escrow.key,
        take_accounts.escrow.data == make_effects.escrow_data,
        take_accounts.maker.key == make_accounts.maker.key,
        take_accounts.mint_a.key == make_accounts.mint_a.key,
        take_accounts.mint_b.key == make_accounts.mint_b.key,
        take_accounts.maker_ata_b.key == make_accounts.maker_ata_a.key,
        take_accounts.vault.key == make_accounts.vault.key,
        later_refund.escrow.data == zero_bytes(make_effects.escrow_data.len()),
    ensures
        spec_take(program_id, take_accounts, amount, seed) is Ok,
        spec_take(program_id, take_accounts, amount, seed) matches Ok(t)
            ==> t.pay_maker.amount == amount,
        spec_take(program_id, take_accounts, amount, seed) matches Ok(t)
            ==> t.release_vault.amount == amount,
        spec_take(program_id, take_accounts, amount, seed) matches Ok(t) ==> t.escrow_data
            == zero_bytes(make_effects.escrow_data.len()),
        spec_refund(program_id, later_refund, amount2, seed2) is Err,
{
    crate::state::lemma_init_round_trip(
        make_accounts.maker.key,
        make_accounts.mint_a.key,
        make_accounts.mint_b.key,
        make_accounts.maker_ata_a.key,
        amount,
        make_effects.escrow_bump,
    );
    crate::state::lemma_cleared_record_not_open(make_effects.escrow_data.len());
}

} // verus!
