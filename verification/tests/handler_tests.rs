use escrow::accounts::AccountState;
use escrow::addresses::{find_escrow_address, find_vault_address};
use escrow::error::{EscrowError, ProgramError};
use escrow::make::{make, system_program_id, token_program_id, MakeAccounts};
use escrow::refund::{refund, RefundAccounts};
use escrow::requests::{CloseAccountRequest, TransferRequest};
use escrow::state::Escrow;
use escrow::take::{take, TakeAccounts};
use escrow::{pack_instruction_data, process_instruction, Effects, EscrowInstruction};

const PROGRAM_ID: [u8; 32] = [7u8; 32];
const MAKER: [u8; 32] = [1u8; 32];
const TAKER: [u8; 32] = [9u8; 32];
const MINT_A: [u8; 32] = [2u8; 32];
const MINT_B: [u8; 32] = [3u8; 32];
const MAKER_ATA_A: [u8; 32] = [4u8; 32];
const TAKER_ATA_A: [u8; 32] = [5u8; 32];
const TAKER_ATA_B: [u8; 32] = [6u8; 32];

fn account(key: [u8; 32], is_signer: bool) -> AccountState {
    AccountState { key, is_signer, lamports: 0, data: Vec::new() }
}

fn custom(e: EscrowError) -> ProgramError {
    ProgramError::Custom(e.code())
}

/// Builds the full, correctly derived account set for a Make and runs it.
fn run_make(amount: u64, seed: u64) -> (escrow::make::MakeEffects, [u8; 32], [u8; 32]) {
    let (escrow_key, _) = find_escrow_address(&MAKER, seed, &PROGRAM_ID).unwrap();
    let (vault_key, _) = find_vault_address(&escrow_key, &PROGRAM_ID).unwrap();

    let maker = account(MAKER, true);
    let mint_a = account(MINT_A, false);
    let mint_b = account(MINT_B, false);
    let maker_ata_a = account(MAKER_ATA_A, false);
    let escrow_acct = account(escrow_key, false);
    let vault = account(vault_key, false);
    let token_program = account(token_program_id(), false);
    let system_program = account(system_program_id(), false);
    let accounts = MakeAccounts {
        maker: &maker,
        mint_a: &mint_a,
        mint_b: &mint_b,
        maker_ata_a: &maker_ata_a,
        escrow: &escrow_acct,
        vault: &vault,
        token_program: &token_program,
        system_program: &system_program,
    };
    let effects = make(&PROGRAM_ID, accounts, amount, seed).unwrap();
    (effects, escrow_key, vault_key)
}

#[test]
fn test_make_opens_escrow_and_funds_vault() {
    let (effects, escrow_key, vault_key) = run_make(100, 1);

    // the stored record is open and holds exactly the given fields
    let record = Escrow::from_account(&effects.escrow_data).unwrap();
    assert!(record.is_initialized());
    assert_eq!(record.discriminator, Escrow::discriminator_tag());
    assert_eq!(record.maker, MAKER);
    assert_eq!(record.mint_a, MINT_A);
    assert_eq!(record.mint_b, MINT_B);
    assert_eq!(record.receive_account, MAKER_ATA_A);
    assert_eq!(record.amount, 100);
    assert_eq!(record.bump, effects.escrow_bump);

    // escrow storage is allocated to the exact record size, owned by the
    // program, funded by the maker
    assert_eq!(effects.create_escrow.space, Escrow::LEN as u64);
    assert_eq!(effects.create_escrow.owner, PROGRAM_ID);
    assert_eq!(effects.create_escrow.from, MAKER);
    assert_eq!(effects.create_escrow.new_account, escrow_key);
    assert_eq!(effects.escrow_data.len(), Escrow::LEN);

    // the vault is a custody-owned holding of the locked asset, with the
    // program as its authority
    assert_eq!(effects.create_vault.owner, token_program_id());
    assert_eq!(effects.create_vault.new_account, vault_key);
    assert_eq!(effects.init_vault.account, vault_key);
    assert_eq!(effects.init_vault.mint, MINT_A);
    assert_eq!(effects.init_vault.owner, PROGRAM_ID);

    // the maker's source holding is reduced by 100 in favour of the vault
    assert_eq!(
        effects.fund_vault,
        TransferRequest { from: MAKER_ATA_A, to: vault_key, authority: MAKER, amount: 100 }
    );
}

/// Builds the full, correctly derived account set for a Take against the
/// storage a Make left behind.
fn take_accounts_after_make<'a>(
    maker: &'a AccountState,
    taker: &'a AccountState,
    escrow_acct: &'a AccountState,
    vault: &'a AccountState,
    mint_a: &'a AccountState,
    mint_b: &'a AccountState,
    taker_ata_a: &'a AccountState,
    taker_ata_b: &'a AccountState,
    maker_ata_b: &'a AccountState,
    token_program: &'a AccountState,
) -> TakeAccounts<'a> {
    TakeAccounts {
        taker,
        maker,
        escrow: escrow_acct,
        vault,
        mint_a,
        mint_b,
        taker_ata_a,
        taker_ata_b,
        maker_ata_b,
        token_program,
    }
}

#[test]
fn test_take_settles_and_clears() {
    let (make_effects, escrow_key, vault_key) = run_make(100, 1);

    let maker = account(MAKER, false);
    let taker = account(TAKER, true);
    let mut escrow_acct = account(escrow_key, false);
    escrow_acct.lamports = 3_132_421;
    escrow_acct.data = make_effects.escrow_data.clone();
    let vault = account(vault_key, false);
    let mint_a = account(MINT_A, false);
    let mint_b = account(MINT_B, false);
    let taker_ata_a = account(TAKER_ATA_A, false);
    let taker_ata_b = account(TAKER_ATA_B, false);
    // the record stores the maker's asset-A source as the receive account
    let maker_ata_b = account(MAKER_ATA_A, false);
    let token_program = account(token_program_id(), false);
    let accounts = take_accounts_after_make(
        &maker, &taker, &escrow_acct, &vault, &mint_a, &mint_b, &taker_ata_a, &taker_ata_b,
        &maker_ata_b, &token_program,
    );

    let effects = take(&PROGRAM_ID, accounts, 100, 1).unwrap();

    // expected-asset leg first: taker pays the maker's stored receive
    // account the stored amount
    assert_eq!(
        effects.pay_maker,
        TransferRequest { from: TAKER_ATA_B, to: MAKER_ATA_A, authority: TAKER, amount: 100 }
    );
    // locked-asset leg: the vault's full balance goes to the taker
    assert_eq!(
        effects.release_vault,
        TransferRequest { from: vault_key, to: TAKER_ATA_A, authority: escrow_key, amount: 100 }
    );
    // the vault is closed in the taker's favour
    assert_eq!(
        effects.close_vault,
        CloseAccountRequest { account: vault_key, destination: TAKER, authority: escrow_key }
    );
    // the record storage is zeroed and its balance reclaimed by the taker
    assert_eq!(effects.escrow_data.len(), Escrow::LEN);
    assert!(effects.escrow_data.iter().all(|b| *b == 0));
    assert_eq!(effects.escrow_lamports, 3_132_421);
    assert_eq!(effects.lamports_to, TAKER);
}

#[test]
fn test_take_amount_mismatch() {
    let (make_effects, escrow_key, vault_key) = run_make(100, 1);

    let maker = account(MAKER, false);
    let taker = account(TAKER, true);
    let mut escrow_acct = account(escrow_key, false);
    escrow_acct.data = make_effects.escrow_data.clone();
    let vault = account(vault_key, false);
    let mint_a = account(MINT_A, false);
    let mint_b = account(MINT_B, false);
    let taker_ata_a = account(TAKER_ATA_A, false);
    let taker_ata_b = account(TAKER_ATA_B, false);
    let maker_ata_b = account(MAKER_ATA_A, false);
    let token_program = account(token_program_id(), false);
    let accounts = take_accounts_after_make(
        &maker, &taker, &escrow_acct, &vault, &mint_a, &mint_b, &taker_ata_a, &taker_ata_b,
        &maker_ata_b, &token_program,
    );

    // stored amount is 100; the declared 50 is rejected before any
    // transfer is issued
    assert_eq!(
        take(&PROGRAM_ID, accounts, 50, 1).unwrap_err(),
        custom(EscrowError::ExpectedAmountMismatch)
    );

    // the record is untouched and still open
    let record = Escrow::from_account(&escrow_acct.data).unwrap();
    assert!(record.is_initialized());
    assert_eq!(record.amount, 100);
}

#[test]
fn test_refund_by_non_maker_fails() {
    let (make_effects, escrow_key, vault_key) = run_make(100, 1);

    // signed, but not by the stored maker
    let outsider = account([8u8; 32], true);
    let mut escrow_acct = account(escrow_key, false);
    escrow_acct.data = make_effects.escrow_data.clone();
    let vault = account(vault_key, false);
    let maker_ata_a = account(MAKER_ATA_A, false);
    let token_program = account(token_program_id(), false);
    let accounts = RefundAccounts {
        maker: &outsider,
        escrow: &escrow_acct,
        vault: &vault,
        maker_ata_a: &maker_ata_a,
        token_program: &token_program,
    };

    assert_eq!(
        refund(&PROGRAM_ID, accounts, 100, 1).unwrap_err(),
        custom(EscrowError::InvalidAuthority)
    );

    // the record is untouched and still open
    let record = Escrow::from_account(&escrow_acct.data).unwrap();
    assert!(record.is_initialized());
}

#[test]
fn test_refund_returns_funds_to_maker() {
    let (make_effects, escrow_key, vault_key) = run_make(250, 9);

    let maker = account(MAKER, true);
    let mut escrow_acct = account(escrow_key, false);
    escrow_acct.lamports = 11;
    escrow_acct.data = make_effects.escrow_data.clone();
    let vault = account(vault_key, false);
    let maker_ata_a = account(MAKER_ATA_A, false);
    let token_program = account(token_program_id(), false);
    let accounts = RefundAccounts {
        maker: &maker,
        escrow: &escrow_acct,
        vault: &vault,
        maker_ata_a: &maker_ata_a,
        token_program: &token_program,
    };

    let effects = refund(&PROGRAM_ID, accounts, 250, 9).unwrap();
    assert_eq!(
        effects.refund_vault,
        TransferRequest { from: vault_key, to: MAKER_ATA_A, authority: escrow_key, amount: 250 }
    );
    assert_eq!(
        effects.close_vault,
        CloseAccountRequest { account: vault_key, destination: MAKER, authority: escrow_key }
    );
    assert_eq!(effects.escrow_lamports, 11);
    assert_eq!(effects.lamports_to, MAKER);
    assert!(effects.escrow_data.iter().all(|b| *b == 0));
}

#[test]
fn test_mutual_exclusion_take_then_retry() {
    let (make_effects, escrow_key, vault_key) = run_make(100, 1);

    // first Take succeeds and clears the record
    let maker = account(MAKER, false);
    let taker = account(TAKER, true);
    let mut escrow_acct = account(escrow_key, false);
    escrow_acct.data = make_effects.escrow_data.clone();
    let vault = account(vault_key, false);
    let mint_a = account(MINT_A, false);
    let mint_b = account(MINT_B, false);
    let taker_ata_a = account(TAKER_ATA_A, false);
    let taker_ata_b = account(TAKER_ATA_B, false);
    let maker_ata_b = account(MAKER_ATA_A, false);
    let token_program = account(token_program_id(), false);
    let accounts = take_accounts_after_make(
        &maker, &taker, &escrow_acct, &vault, &mint_a, &mint_b, &taker_ata_a, &taker_ata_b,
        &maker_ata_b, &token_program,
    );
    let first = take(&PROGRAM_ID, accounts, 100, 1).unwrap();

    // a second Take against the cleared storage fails closed
    let mut cleared_acct = account(escrow_key, false);
    cleared_acct.data = first.escrow_data.clone();
    let accounts = take_accounts_after_make(
        &maker, &taker, &cleared_acct, &vault, &mint_a, &mint_b, &taker_ata_a, &taker_ata_b,
        &maker_ata_b, &token_program,
    );
    assert_eq!(
        take(&PROGRAM_ID, accounts, 100, 1).unwrap_err(),
        ProgramError::InvalidAccountData
    );

    // so does a Refund by the rightful maker
    let signer = account(MAKER, true);
    let maker_ata_a = account(MAKER_ATA_A, false);
    let accounts = RefundAccounts {
        maker: &signer,
        escrow: &cleared_acct,
        vault: &vault,
        maker_ata_a: &maker_ata_a,
        token_program: &token_program,
    };
    assert_eq!(
        refund(&PROGRAM_ID, accounts, 100, 1).unwrap_err(),
        ProgramError::InvalidAccountData
    );
}

#[test]
fn test_mutual_exclusion_refund_then_retry() {
    let (make_effects, escrow_key, vault_key) = run_make(100, 1);

    // first Refund succeeds and clears the record
    let maker = account(MAKER, true);
    let mut escrow_acct = account(escrow_key, false);
    escrow_acct.data = make_effects.escrow_data.clone();
    let vault = account(vault_key, false);
    let maker_ata_a = account(MAKER_ATA_A, false);
    let token_program = account(token_program_id(), false);
    let accounts = RefundAccounts {
        maker: &maker,
        escrow: &escrow_acct,
        vault: &vault,
        maker_ata_a: &maker_ata_a,
        token_program: &token_program,
    };
    let first = refund(&PROGRAM_ID, accounts, 100, 1).unwrap();
    assert!(first.escrow_data.iter().all(|b| *b == 0));

    // a Take against the cleared storage fails closed
    let plain_maker = account(MAKER, false);
    let taker = account(TAKER, true);
    let mut cleared_acct = account(escrow_key, false);
    cleared_acct.data = first.escrow_data.clone();
    let mint_a = account(MINT_A, false);
    let mint_b = account(MINT_B, false);
    let taker_ata_a = account(TAKER_ATA_A, false);
    let taker_ata_b = account(TAKER_ATA_B, false);
    let maker_ata_b = account(MAKER_ATA_A, false);
    let accounts = take_accounts_after_make(
        &plain_maker, &taker, &cleared_acct, &vault, &mint_a, &mint_b, &taker_ata_a,
        &taker_ata_b, &maker_ata_b, &token_program,
    );
    assert_eq!(
        take(&PROGRAM_ID, accounts, 100, 1).unwrap_err(),
        ProgramError::InvalidAccountData
    );
}

#[test]
fn test_end_to_end_make_take_refund_attempt() {
    // Make(amount=100, seed=1)
    let (make_effects, escrow_key, vault_key) = run_make(100, 1);
    assert_eq!(make_effects.fund_vault.amount, 100);

    // Take(amount=100, seed=1) with correct accounts succeeds
    let maker = account(MAKER, false);
    let taker = account(TAKER, true);
    let mut escrow_acct = account(escrow_key, false);
    escrow_acct.data = make_effects.escrow_data.clone();
    let vault = account(vault_key, false);
    let mint_a = account(MINT_A, false);
    let mint_b = account(MINT_B, false);
    let taker_ata_a = account(TAKER_ATA_A, false);
    let taker_ata_b = account(TAKER_ATA_B, false);
    let maker_ata_b = account(MAKER_ATA_A, false);
    let token_program = account(token_program_id(), false);
    let accounts = take_accounts_after_make(
        &maker, &taker, &escrow_acct, &vault, &mint_a, &mint_b, &taker_ata_a, &taker_ata_b,
        &maker_ata_b, &token_program,
    );
    let take_effects = take(&PROGRAM_ID, accounts, 100, 1).unwrap();

    // the vault's full balance has been requested out, and the escrow
    // storage becomes all-zero
    assert_eq!(take_effects.release_vault.amount, 100);
    assert_eq!(take_effects.release_vault.from, vault_key);
    assert!(take_effects.escrow_data.iter().all(|b| *b == 0));

    // re-attempting Refund(amount=100, seed=1) on the same escrow fails
    let signer = account(MAKER, true);
    let mut cleared_acct = account(escrow_key, false);
    cleared_acct.data = take_effects.escrow_data.clone();
    let maker_ata_a = account(MAKER_ATA_A, false);
    let accounts = RefundAccounts {
        maker: &signer,
        escrow: &cleared_acct,
        vault: &vault,
        maker_ata_a: &maker_ata_a,
        token_program: &token_program,
    };
    assert!(refund(&PROGRAM_ID, accounts, 100, 1).is_err());
}

#[test]
fn test_make_precondition_errors() {
    let seed: u64 = 1;
    let (escrow_key, _) = find_escrow_address(&MAKER, seed, &PROGRAM_ID).unwrap();
    let (vault_key, _) = find_vault_address(&escrow_key, &PROGRAM_ID).unwrap();

    let signed_maker = account(MAKER, true);
    let unsigned_maker = account(MAKER, false);
    let mint_a = account(MINT_A, false);
    let mint_b = account(MINT_B, false);
    let maker_ata_a = account(MAKER_ATA_A, false);
    let escrow_acct = account(escrow_key, false);
    let vault = account(vault_key, false);
    let token_program = account(token_program_id(), false);
    let system_program = account(system_program_id(), false);
    let wrong_program = account([42u8; 32], false);

    // missing maker signature
    let accounts = MakeAccounts {
        maker: &unsigned_maker,
        mint_a: &mint_a,
        mint_b: &mint_b,
        maker_ata_a: &maker_ata_a,
        escrow: &escrow_acct,
        vault: &vault,
        token_program: &token_program,
        system_program: &system_program,
    };
    assert_eq!(
        make(&PROGRAM_ID, accounts, 100, seed).unwrap_err(),
        ProgramError::MissingRequiredSignature
    );

    // wrong ledger collaborator
    let accounts = MakeAccounts {
        maker: &signed_maker,
        mint_a: &mint_a,
        mint_b: &mint_b,
        maker_ata_a: &maker_ata_a,
        escrow: &escrow_acct,
        vault: &vault,
        token_program: &token_program,
        system_program: &wrong_program,
    };
    assert_eq!(
        make(&PROGRAM_ID, accounts, 100, seed).unwrap_err(),
        ProgramError::IncorrectProgramId
    );

    // wrong asset-custody collaborator
    let accounts = MakeAccounts {
        maker: &signed_maker,
        mint_a: &mint_a,
        mint_b: &mint_b,
        maker_ata_a: &maker_ata_a,
        escrow: &escrow_acct,
        vault: &vault,
        token_program: &wrong_program,
        system_program: &system_program,
    };
    assert_eq!(
        make(&PROGRAM_ID, accounts, 100, seed).unwrap_err(),
        custom(EscrowError::InvalidTokenProgram)
    );

    // escrow account not at the derived address
    let misplaced = account([43u8; 32], false);
    let accounts = MakeAccounts {
        maker: &signed_maker,
        mint_a: &mint_a,
        mint_b: &mint_b,
        maker_ata_a: &maker_ata_a,
        escrow: &misplaced,
        vault: &vault,
        token_program: &token_program,
        system_program: &system_program,
    };
    assert_eq!(
        make(&PROGRAM_ID, accounts, 100, seed).unwrap_err(),
        custom(EscrowError::InvalidEscrowAccount)
    );

    // vault account not at the derived address
    let accounts = MakeAccounts {
        maker: &signed_maker,
        mint_a: &mint_a,
        mint_b: &mint_b,
        maker_ata_a: &maker_ata_a,
        escrow: &escrow_acct,
        vault: &misplaced,
        token_program: &token_program,
        system_program: &system_program,
    };
    assert_eq!(
        make(&PROGRAM_ID, accounts, 100, seed).unwrap_err(),
        custom(EscrowError::InvalidEscrowAccount)
    );
}

#[test]
fn test_make_rejects_zero_amount() {
    let seed: u64 = 1;
    let (escrow_key, _) = find_escrow_address(&MAKER, seed, &PROGRAM_ID).unwrap();
    let (vault_key, _) = find_vault_address(&escrow_key, &PROGRAM_ID).unwrap();

    let maker = account(MAKER, true);
    let mint_a = account(MINT_A, false);
    let mint_b = account(MINT_B, false);
    let maker_ata_a = account(MAKER_ATA_A, false);
    let escrow_acct = account(escrow_key, false);
    let vault = account(vault_key, false);
    let token_program = account(token_program_id(), false);
    let system_program = account(system_program_id(), false);
    let accounts = MakeAccounts {
        maker: &maker,
        mint_a: &mint_a,
        mint_b: &mint_b,
        maker_ata_a: &maker_ata_a,
        escrow: &escrow_acct,
        vault: &vault,
        token_program: &token_program,
        system_program: &system_program,
    };

    // a record is only ever created with a positive locked amount
    assert_eq!(
        make(&PROGRAM_ID, accounts, 0, seed).unwrap_err(),
        custom(EscrowError::InvalidInstruction)
    );
}

#[test]
fn test_take_precondition_errors() {
    let (make_effects, escrow_key, vault_key) = run_make(100, 1);

    let maker = account(MAKER, false);
    let taker = account(TAKER, true);
    let mut escrow_acct = account(escrow_key, false);
    escrow_acct.data = make_effects.escrow_data.clone();
    let vault = account(vault_key, false);
    let mint_a = account(MINT_A, false);
    let mint_b = account(MINT_B, false);
    let wrong_mint = account([40u8; 32], false);
    let taker_ata_a = account(TAKER_ATA_A, false);
    let taker_ata_b = account(TAKER_ATA_B, false);
    let maker_ata_b = account(MAKER_ATA_A, false);
    let token_program = account(token_program_id(), false);

    // a different claimed maker than the stored one
    let impostor = account([41u8; 32], false);
    let accounts = take_accounts_after_make(
        &impostor, &taker, &escrow_acct, &vault, &mint_a, &mint_b, &taker_ata_a, &taker_ata_b,
        &maker_ata_b, &token_program,
    );
    assert_eq!(
        take(&PROGRAM_ID, accounts, 100, 1).unwrap_err(),
        custom(EscrowError::InvalidAuthority)
    );

    // a mint that does not match the stored record
    let accounts = take_accounts_after_make(
        &maker, &taker, &escrow_acct, &vault, &wrong_mint, &mint_b, &taker_ata_a, &taker_ata_b,
        &maker_ata_b, &token_program,
    );
    assert_eq!(
        take(&PROGRAM_ID, accounts, 100, 1).unwrap_err(),
        custom(EscrowError::InvalidTokenMint)
    );

    // a maker destination that differs from the stored receive account:
    // proceeds may not be redirected
    let redirected = account([44u8; 32], false);
    let accounts = take_accounts_after_make(
        &maker, &taker, &escrow_acct, &vault, &mint_a, &mint_b, &taker_ata_a, &taker_ata_b,
        &redirected, &token_program,
    );
    assert_eq!(
        take(&PROGRAM_ID, accounts, 100, 1).unwrap_err(),
        ProgramError::InvalidAccountData
    );

    // a vault that is not at the derived address
    let misplaced = account([45u8; 32], false);
    let accounts = take_accounts_after_make(
        &maker, &taker, &escrow_acct, &misplaced, &mint_a, &mint_b, &taker_ata_a, &taker_ata_b,
        &maker_ata_b, &token_program,
    );
    assert_eq!(
        take(&PROGRAM_ID, accounts, 100, 1).unwrap_err(),
        custom(EscrowError::InvalidEscrowAccount)
    );

    // an unsigned taker
    let unsigned_taker = account(TAKER, false);
    let accounts = take_accounts_after_make(
        &maker, &unsigned_taker, &escrow_acct, &vault, &mint_a, &mint_b, &taker_ata_a,
        &taker_ata_b, &maker_ata_b, &token_program,
    );
    assert_eq!(
        take(&PROGRAM_ID, accounts, 100, 1).unwrap_err(),
        ProgramError::MissingRequiredSignature
    );
}

#[test]
fn test_derivation_deterministic_and_seed_sensitive() {
    let a = find_escrow_address(&MAKER, 1, &PROGRAM_ID).unwrap();
    let b = find_escrow_address(&MAKER, 1, &PROGRAM_ID).unwrap();
    assert_eq!(a, b);

    // a different seed or maker lands on a different address
    let c = find_escrow_address(&MAKER, 2, &PROGRAM_ID).unwrap();
    assert_ne!(a.0, c.0);
    let d = find_escrow_address(&TAKER, 1, &PROGRAM_ID).unwrap();
    assert_ne!(a.0, d.0);

    // the chained vault addresses differ with their escrows
    let va = find_vault_address(&a.0, &PROGRAM_ID).unwrap();
    let vc = find_vault_address(&c.0, &PROGRAM_ID).unwrap();
    assert_ne!(va.0, vc.0);

    // the derived escrow address is not a value the derivation was fed
    assert_ne!(a.0, MAKER);
    assert_ne!(a.0, PROGRAM_ID);
}

#[test]
fn test_process_instruction_dispatch() {
    let seed: u64 = 1;
    let (escrow_key, _) = find_escrow_address(&MAKER, seed, &PROGRAM_ID).unwrap();
    let (vault_key, _) = find_vault_address(&escrow_key, &PROGRAM_ID).unwrap();

    let accounts = vec![
        account(MAKER, true),
        account(MINT_A, false),
        account(MINT_B, false),
        account(MAKER_ATA_A, false),
        account(escrow_key, false),
        account(vault_key, false),
        account(token_program_id(), false),
        account(system_program_id(), false),
    ];
    let payload = pack_instruction_data(&EscrowInstruction::Make { amount: 100, seed });

    match process_instruction(&PROGRAM_ID, &accounts, &payload).unwrap() {
        Effects::Make(effects) => {
            assert_eq!(effects.fund_vault.amount, 100);
            assert_eq!(effects.fund_vault.to, vault_key);
            let record = Escrow::from_account(&effects.escrow_data).unwrap();
            assert_eq!(record.amount, 100);
        }
        _ => panic!("Wrong effects variant"),
    }

    // a malformed payload is rejected before any account is read
    assert_eq!(
        process_instruction(&PROGRAM_ID, &accounts, &[9u8]).unwrap_err(),
        custom(EscrowError::InvalidInstruction)
    );
}
