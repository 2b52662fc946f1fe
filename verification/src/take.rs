//! The Take transition: a taker fulfils an open escrow. The handler
//! authenticates the taker, checks the custody collaborator, loads and
//! validates the stored record against every supplied account, and on
//! success returns the requests that settle the swap: pay the maker the
//! expected asset first, release the vault to the taker second, then close
//! the vault and zero the record, crediting both reclaimed balances to the
//! taker. The stored amount is authoritative; the caller-declared amount
//! is only a redundant assertion.
use crate::accounts::{AccountState, AccountView};
use crate::addresses::{find_vault_address, pda_of, vault_seeds};
use crate::error::{spec_program_error, EscrowError, ProgramError};
use crate::make::{spec_token_program_id, token_program_id};
use crate::requests::{
    CloseAccountRequest, CloseAccountRequestView, TransferRequest, TransferRequestView,
};
use crate::state::{
    spec_record_amount, spec_record_maker, spec_record_mint_a, spec_record_mint_b,
    spec_record_open, spec_record_receive, Escrow,
};
use crate::util::{pubkey_eq, res_view, zero_bytes, zeroed, Pubkey};
use vstd::prelude::*;

verus! {

/// Accounts of the Take instruction, in positional order.
pub struct TakeAccounts<'a> {
    /// The party fulfilling the escrow; must have signed.
    pub taker: &'a AccountState,
    /// The claimed maker; must match the stored record.
    pub maker: &'a AccountState,
    /// The escrow record account.
    pub escrow: &'a AccountState,
    /// The vault holding account, at its derived address.
    pub vault: &'a AccountState,
    /// The locked asset; must match the stored record.
    pub mint_a: &'a AccountState,
    /// The expected asset; must match the stored record.
    pub mint_b: &'a AccountState,
    /// The taker's destination holding for the locked asset.
    pub taker_ata_a: &'a AccountState,
    /// The taker's source holding of the expected asset.
    pub taker_ata_b: &'a AccountState,
    /// The maker's destination holding for the expected asset; must match
    /// the stored receive account.
    pub maker_ata_b: &'a AccountState,
    /// The asset-custody collaborator.
    pub token_program: &'a AccountState,
}

/// Mathematical model of the Take accounts.
pub struct TakeAccountsView {
    /// The party fulfilling the escrow; must have signed.
    pub taker: AccountView,
    /// The claimed maker; must match the stored record.
    pub maker: AccountView,
    /// The escrow record account.
    pub escrow: AccountView,
    /// The vault holding account, at its derived address.
    pub vault: AccountView,
    /// The locked asset; must match the stored record.
    pub mint_a: AccountView,
    /// The expected asset; must match the stored record.
    pub mint_b: AccountView,
    /// The taker's destination holding for the locked asset.
    pub taker_ata_a: AccountView,
    /// The taker's source holding of the expected asset.
    pub taker_ata_b: AccountView,
    /// The maker's destination holding for the expected asset.
    pub maker_ata_b: AccountView,
    /// The asset-custody collaborator.
    pub token_program: AccountView,
}

impl<'a> View for TakeAccounts<'a> {
    type V = TakeAccountsView;

    open spec fn view(&self) -> TakeAccountsView {
        TakeAccountsView {
            taker: self.taker@,
            maker: self.maker@,
            escrow: self.escrow@,
            vault: self.vault@,
            mint_a: self.mint_a@,
            mint_b: self.mint_b@,
            taker_ata_a: self.taker_ata_a@,
            taker_ata_b: self.taker_ata_b@,
            maker_ata_b: self.maker_ata_b@,
            token_program: self.token_program@,
        }
    }
}

/// Everything a successful Take asks the runtime to apply, in order. The
/// expected-asset leg comes first so that a later failure aborts it along
/// with the rest of the instruction.
#[derive(Debug)]
pub struct TakeEffects {
    /// Bump of the derived vault address.
    pub vault_bump: u8,
    /// Move the stored amount of the expected asset from the taker's
    /// source to the maker's stored receive account, authorized by the
    /// taker.
    pub pay_maker: TransferRequest,
    /// Move the stored amount of the locked asset from the vault to the
    /// taker's destination, authorized through the vault's derived seeds.
    pub release_vault: TransferRequest,
    /// Close the emptied vault, crediting its balance to the taker.
    pub close_vault: CloseAccountRequest,
    /// The record account's reclaimed balance.
    pub escrow_lamports: u64,
    /// Who receives the reclaimed balance: the taker.
    pub lamports_to: Pubkey,
    /// The zeroed bytes to write over the record storage.
    pub escrow_data: Vec<u8>,
}

/// Mathematical model of the Take effects.
pub struct TakeEffectsView {
    /// Bump of the derived vault address.
    pub vault_bump: u8,
    /// Pay the maker the expected asset.
    pub pay_maker: TransferRequestView,
    /// Release the locked asset to the taker.
    pub release_vault: TransferRequestView,
    /// Close the emptied vault.
    pub close_vault: CloseAccountRequestView,
    /// The record account's reclaimed balance.
    pub escrow_lamports: u64,
    /// Who receives the reclaimed balance.
    pub lamports_to: Seq<u8>,
    /// The zeroed bytes to write over the record storage.
    pub escrow_data: Seq<u8>,
}

impl View for TakeEffects {
    type V = TakeEffectsView;

    open spec fn view(&self) -> TakeEffectsView {
        TakeEffectsView {
            vault_bump: self.vault_bump,
            pay_maker: self.pay_maker@,
            release_vault: self.release_vault@,
            close_vault: self.close_vault@,
            escrow_lamports: self.escrow_lamports,
            lamports_to: self.lamports_to@,
            escrow_data: self.escrow_data@,
        }
    }
}

/// What Take decides and produces: the first failing precondition's error,
/// or the exact settlement effects. Preconditions, in order: taker signed;
/// asset-custody identity; the record is open; stored maker, mints,
/// receive account and amount all match the supplied accounts and declared
/// amount; the vault account stands at the derived vault address.
pub open spec fn spec_take(
    program_id: Seq<u8>,
    accounts: TakeAccountsView,
    amount: u64,
    seed: u64,
) -> Result<TakeEffectsView, ProgramError> {
    if !accounts.taker.is_signer {
        Err(ProgramError::MissingRequiredSignature)
    } else if accounts.token_program.key != spec_token_program_id() {
        Err(spec_program_error(EscrowError::InvalidTokenProgram))
    } else if !spec_record_open(accounts.escrow.data) {
        Err(ProgramError::InvalidAccountData)
    } else if spec_record_maker(accounts.escrow.data) != accounts.maker.key {
        Err(spec_program_error(EscrowError::InvalidAuthority))
    } else if spec_record_mint_a(accounts.escrow.data) != accounts.mint_a.key
        || spec_record_mint_b(accounts.escrow.data) != accounts.mint_b.key {
        Err(spec_program_error(EscrowError::InvalidTokenMint))
    } else if spec_record_receive(accounts.escrow.data) != accounts.maker_ata_b.key {
        Err(ProgramError::InvalidAccountData)
    } else if spec_record_amount(accounts.escrow.data) != amount {
        Err(spec_program_error(EscrowError::ExpectedAmountMismatch))
    } else {
        match pda_of(vault_seeds(accounts.escrow.key), program_id) {
            None => Err(spec_program_error(EscrowError::InvalidEscrowAccount)),
            Some((vault_key, vault_bump)) => {
                if vault_key != accounts.vault.key {
                    Err(spec_program_error(EscrowError::InvalidEscrowAccount))
                } else {
                    Ok(spec_take_effects(accounts, vault_bump))
                }
            },
        }
    }
}

/// The effects of a successful Take.
pub open spec fn spec_take_effects(accounts: TakeAccountsView, vault_bump: u8) -> TakeEffectsView {
    TakeEffectsView {
        vault_bump,
        pay_maker: TransferRequestView {
            from: accounts.taker_ata_b.key,
            to: accounts.maker_ata_b.key,
            authority: accounts.taker.key,
            amount: spec_record_amount(accounts.escrow.data),
        },
        release_vault: TransferRequestView {
            from: accounts.vault.key,
            to: accounts.taker_ata_a.key,
            authority: accounts.escrow.key,
            amount: spec_record_amount(accounts.escrow.data),
        },
        close_vault: CloseAccountRequestView {
            account: accounts.vault.key,
            destination: accounts.taker.key,
            authority: accounts.escrow.key,
        },
        escrow_lamports: accounts.escrow.lamports,
        lamports_to: accounts.taker.key,
        escrow_data: zero_bytes(accounts.escrow.data.len()),
    }
}

/// Completes an escrow: validates the Take preconditions and returns the
/// requests that settle both legs, close the vault and clear the record.
pub fn take<'a>(
    program_id: &Pubkey,
    accounts: TakeAccounts<'a>,
    amount: u64,
    seed: u64,
) -> (r: Result<TakeEffects, ProgramError>)
    ensures
        res_view(r) == spec_take(program_id@, accounts@, amount, seed),
{
    if !accounts.taker.is_signer {
        return Err(ProgramError::MissingRequiredSignature);
    }
    let token_id = token_program_id();
    if !pubkey_eq(&accounts.token_program.key, &token_id) {
        return Err(ProgramError::from(EscrowError::InvalidTokenProgram));
    }
    let escrow = match Escrow::from_account(accounts.escrow.data.as_slice()) {
        Ok(e) => e,
        Err(e) => {
            return Err(e);
        },
    };
    if !pubkey_eq(&escrow.maker, &accounts.maker.key) {
        return Err(ProgramError::from(EscrowError::InvalidAuthority));
    }
    if !pubkey_eq(&escrow.mint_a, &accounts.mint_a.key) || !pubkey_eq(
        &escrow.mint_b,
        &accounts.mint_b.key,
    ) {
        return Err(ProgramError::from(EscrowError::InvalidTokenMint));
    }
    if !pubkey_eq(&escrow.receive_account, &accounts.maker_ata_b.key) {
        return Err(ProgramError::InvalidAccountData);
    }
    if escrow.amount != amount {
        return Err(ProgramError::from(EscrowError::ExpectedAmountMismatch));
    }
    let vault_pda = find_vault_address(&accounts.escrow.key, program_id);
    let (vault_key, vault_bump) = match vault_pda {
        Some(p) => p,
        None => {
            return Err(ProgramError::from(EscrowError::InvalidEscrowAccount));
        },
    };
    if !pubkey_eq(&vault_key, &accounts.vault.key) {
        return Err(ProgramError::from(EscrowError::InvalidEscrowAccount));
    }
    let cleared = zeroed(accounts.escrow.data.len());
    let effects = TakeEffects {
        vault_bump,
        pay_maker: TransferRequest {
            from: accounts.taker_ata_b.key,
            to: accounts.maker_ata_b.key,
            authority: accounts.taker.key,
            amount: escrow.amount,
        },
        release_vault: TransferRequest {
            from: accounts.vault.key,
            to: accounts.taker_ata_a.key,
            authority: accounts.escrow.key,
            amount: escrow.amount,
        },
        close_vault: CloseAccountRequest {
            account: accounts.vault.key,
            destination: accounts.taker.key,
            authority: accounts.escrow.key,
        },
        escrow_lamports: accounts.escrow.lamports,
        lamports_to: accounts.taker.key,
        escrow_data: cleared,
    };
    Ok(effects)
}

} // verus!
