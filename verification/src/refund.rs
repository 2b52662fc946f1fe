//! The Refund transition: the maker cancels an open escrow and reclaims
//! the locked funds. Authentication is by the stored maker identity: the
//! signer must equal the maker recorded at creation, never a
//! caller-supplied claim. On success the handler returns the requests that
//! move the vault's full balance back to the maker, close the vault and
//! zero the record, crediting both reclaimed balances to the maker.
use crate::accounts::{AccountState, AccountView};
use crate::addresses::{find_vault_address, pda_of, vault_seeds};
use crate::error::{spec_program_error, EscrowError, ProgramError};
use crate::make::{spec_token_program_id, token_program_id};
use crate::requests::{
    CloseAccountRequest, CloseAccountRequestView, TransferRequest, TransferRequestView,
};
use crate::state::{spec_record_amount, spec_record_maker, spec_record_open, Escrow};
use crate::util::{pubkey_eq, res_view, zero_bytes, zeroed, Pubkey};
use vstd::prelude::*;

verus! {

/// Accounts of the Refund instruction, in positional order.
pub struct RefundAccounts<'a> {
    /// The escrow creator reclaiming the funds; must have signed.
    pub maker: &'a AccountState,
    /// The escrow record account.
    pub escrow: &'a AccountState,
    /// The vault holding account, at its derived address.
    pub vault: &'a AccountState,
    /// The maker's destination holding for the locked asset.
    pub maker_ata_a: &'a AccountState,
    /// The asset-custody collaborator.
    pub token_program: &'a AccountState,
}

/// Mathematical model of the Refund accounts.
pub struct RefundAccountsView {
    /// The escrow creator reclaiming the funds; must have signed.
    pub maker: AccountView,
    /// The escrow record account.
    pub escrow: AccountView,
    /// The vault holding account, at its derived address.
    pub vault: AccountView,
    /// The maker's destination holding for the locked asset.
    pub maker_ata_a: AccountView,
    /// The asset-custody collaborator.
    pub token_program: AccountView,
}

impl<'a> View for RefundAccounts<'a> {
    type V = RefundAccountsView;

    open spec fn view(&self) -> RefundAccountsView {
        RefundAccountsView {
            maker: self.maker@,
            escrow: self.escrow@,
            vault: self.vault@,
            maker_ata_a: self.maker_ata_a@,
            token_program: self.token_program@,
        }
    }
}

/// Everything a successful Refund asks the runtime to apply, in order.
#[derive(Debug)]
pub struct RefundEffects {
    /// Bump of the derived vault address.
    pub vault_bump: u8,
    /// Move the vault's full balance (the stored amount) back to the
    /// maker's destination, authorized through the vault's derived seeds.
    pub refund_vault: TransferRequest,
    /// Close the emptied vault, crediting its balance to the maker.
    pub close_vault: CloseAccountRequest,
    /// The record account's reclaimed balance.
    pub escrow_lamports: u64,
    /// Who receives the reclaimed balance: the maker.
    pub lamports_to: Pubkey,
    /// The zeroed bytes to write over the record storage.
    pub escrow_data: Vec<u8>,
}

/// Mathematical model of the Refund effects.
pub struct RefundEffectsView {
    /// Bump of the derived vault address.
    pub vault_bump: u8,
    /// Return the locked asset to the maker.
    pub refund_vault: TransferRequestView,
    /// Close the emptied vault.
    pub close_vault: CloseAccountRequestView,
    /// The record account's reclaimed balance.
    pub escrow_lamports: u64,
    /// Who receives the reclaimed balance.
    pub lamports_to: Seq<u8>,
    /// The zeroed bytes to write over the record storage.
    pub escrow_data: Seq<u8>,
}

impl View for RefundEffects {
    type V = RefundEffectsView;

    open spec fn view(&self) -> RefundEffectsView {
        RefundEffectsView {
            vault_bump: self.vault_bump,
            refund_vault: self.refund_vault@,
            close_vault: self.close_vault@,
            escrow_lamports: self.escrow_lamports,
            lamports_to: self.lamports_to@,
            escrow_data: self.escrow_data@,
        }
    }
}

/// What Refund decides and produces: the first failing precondition's
/// error, or the exact effects. Preconditions, in order: maker signed;
/// asset-custody identity; the record is open; the signer equals the
/// stored maker; the declared amount equals the stored amount; the vault
/// account stands at the derived vault address.
pub open spec fn spec_refund(
    program_id: Seq<u8>,
    accounts: RefundAccountsView,
    amount: u64,
    seed: u64,
) -> Result<RefundEffectsView, ProgramError> {
    if !accounts.maker.is_signer {
        Err(ProgramError::MissingRequiredSignature)
    } else if accounts.token_program.key != spec_token_program_id() {
        Err(spec_program_error(EscrowError::InvalidTokenProgram))
    } else if !spec_record_open(accounts.escrow.data) {
        Err(ProgramError::InvalidAccountData)
    } else if spec_record_maker(accounts.escrow.data) != accounts.maker.key {
        Err(spec_program_error(EscrowError::InvalidAuthority))
    } else if spec_record_amount(accounts.escrow.data) != amount {
        Err(spec_program_error(EscrowError::ExpectedAmountMismatch))
    } else {
        match pda_of(vault_seeds(accounts.escrow.key), program_id) {
            None => Err(spec_program_error(EscrowError::InvalidEscrowAccount)),
            Some((vault_key, vault_bump)) => {
                if vault_key != accounts.vault.key {
                    Err(spec_program_error(EscrowError::InvalidEscrowAccount))
                } else {
                    Ok(spec_refund_effects(accounts, vault_bump))
                }
            },
        }
    }
}

/// The effects of a successful Refund.
pub open spec fn spec_refund_effects(
    accounts: RefundAccountsView,
    vault_bump: u8,
) -> RefundEffectsView {
    RefundEffectsView {
        vault_bump,
        refund_vault: TransferRequestView {
            from: accounts.vault.key,
            to: accounts.maker_ata_a.key,
            authority: accounts.escrow.key,
            amount: spec_record_amount(accounts.escrow.data),
        },
        close_vault: CloseAccountRequestView {
            account: accounts.vault.key,
            destination: accounts.maker.key,
            authority: accounts.escrow.key,
        },
        escrow_lamports: accounts.escrow.lamports,
        lamports_to: accounts.maker.key,
        escrow_data: zero_bytes(accounts.escrow.data.len()),
    }
}

/// Cancels an escrow: validates the Refund preconditions and returns the
/// requests that return the locked funds and clear the record.
pub fn refund<'a>(
    program_id: &Pubkey,
    accounts: RefundAccounts<'a>,
    amount: u64,
    seed: u64,
) -> (r: Result<RefundEffects, ProgramError>)
    ensures
        res_view(r) == spec_refund(program_id@, accounts@, amount, seed),
{
    if !accounts.maker.is_signer {
        return Err(ProgramError::MissingRequiredSignature);
    }
    let token_id = token_program_id();
    if !pubkey_eq(&accounts.token_program.key, &token_id) {
        return Err(ProgramError::from(EscrowError::InvalidTokenProgram));
    }
    let escrow = match Escrow::from_account(accounts.escrow.data.as_slice()) {
        Ok(e) => e,
        Err(e) => {
            return Err(e);
        },
    };
    if !pubkey_eq(&escrow.maker, &accounts.maker.key) {
        return Err(ProgramError::from(EscrowError::InvalidAuthority));
    }
    if escrow.amount != amount {
        return Err(ProgramError::from(EscrowError::ExpectedAmountMismatch));
    }
    let vault_pda = find_vault_address(&accounts.escrow.key, program_id);
    let (vault_key, vault_bump) = match vault_pda {
        Some(p) => p,
        None => {
            return Err(ProgramError::from(EscrowError::InvalidEscrowAccount));
        },
    };
    if !pubkey_eq(&vault_key, &accounts.vault.key) {
        return Err(ProgramError::from(EscrowError::InvalidEscrowAccount));
    }
    let cleared = zeroed(accounts.escrow.data.len());
    let effects = RefundEffects {
        vault_bump,
        refund_vault: TransferRequest {
            from: accounts.vault.key,
            to: accounts.maker_ata_a.key,
            authority: accounts.escrow.key,
            amount: escrow.amount,
        },
        close_vault: CloseAccountRequest {
            account: accounts.vault.key,
            destination: accounts.maker.key,
            authority: accounts.escrow.key,
        },
        escrow_lamports: accounts.escrow.lamports,
        lamports_to: accounts.maker.key,
        escrow_data: cleared,
    };
    Ok(effects)
}

} // verus!
