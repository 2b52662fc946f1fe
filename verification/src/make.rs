//! The Make transition: a maker locks funds and opens an escrow. The
//! handler authenticates the maker, checks both collaborator identities,
//! rejects a zero amount (a record is only ever created with a positive
//! locked amount), recomputes the escrow and vault addresses, and on
//! success returns the
//! exact allocation, initialization and funding requests the runtime must
//! apply: allocate the escrow sized to the record layout, write the
//! initialized record, allocate and initialize the vault as a holding for
//! the locked asset, and move the locked amount from the maker's source
//! holding into the vault.
use crate::accounts::{AccountState, AccountView};
use crate::addresses::{escrow_seeds, find_escrow_address, find_vault_address, pda_of, vault_seeds};
use crate::error::{spec_program_error, EscrowError, ProgramError};
use crate::requests::{
    CreateAccountRequest, CreateAccountRequestView, InitializeAccountRequest,
    InitializeAccountRequestView, TransferRequest, TransferRequestView,
};
use crate::state::{spec_init_bytes, Escrow};
use crate::util::{pubkey_eq, res_view, zero_bytes, Pubkey};
use vstd::prelude::*;

verus! {

/// Identity of the asset-custody collaborator.
pub open spec fn spec_token_program_id() -> Seq<u8> {
    seq![
        6u8, 221u8, 246u8, 225u8, 215u8, 101u8, 161u8, 147u8, 217u8, 203u8, 225u8, 70u8, 206u8,
        235u8, 121u8, 172u8, 28u8, 180u8, 133u8, 237u8, 95u8, 91u8, 55u8, 145u8, 58u8, 140u8,
        245u8, 133u8, 126u8, 255u8, 0u8, 169u8,
    ]
}

/// Identity of the ledger collaborator.
pub open spec fn spec_system_program_id() -> Seq<u8> {
    zero_bytes(32)
}

/// The asset-custody collaborator's address.
pub fn token_program_id() -> (r: Pubkey)
    ensures
        r@ == spec_token_program_id(),
{
    let r: Pubkey = [
        6u8, 221u8, 246u8, 225u8, 215u8, 101u8, 161u8, 147u8, 217u8, 203u8, 225u8, 70u8, 206u8,
        235u8, 121u8, 172u8, 28u8, 180u8, 133u8, 237u8, 95u8, 91u8, 55u8, 145u8, 58u8, 140u8,
        245u8, 133u8, 126u8, 255u8, 0u8, 169u8,
    ];
    proof {
        assert(r@ =~= spec_token_program_id());
    }
    r
}

/// The ledger collaborator's address.
pub fn system_program_id() -> (r: Pubkey)
    ensures
        r@ == spec_system_program_id(),
{
    let r: Pubkey = [0u8; 32];
    proof {
        assert(r@ =~= spec_system_program_id());
    }
    r
}

/// Rent-exemption deposit for an allocation of `space` bytes.
pub open spec fn spec_rent_lamports(space: int) -> int {
    (space * 3564480) / 165
}

/// Accounts of the Make instruction, in positional order.
pub struct MakeAccounts<'a> {
    /// The escrow creator; must have signed.
    pub maker: &'a AccountState,
    /// The asset to lock.
    pub mint_a: &'a AccountState,
    /// The asset expected in return.
    pub mint_b: &'a AccountState,
    /// The maker's source holding of the locked asset.
    pub maker_ata_a: &'a AccountState,
    /// The escrow record account, at its derived address.
    pub escrow: &'a AccountState,
    /// The vault holding account, at its derived address.
    pub vault: &'a AccountState,
    /// The asset-custody collaborator.
    pub token_program: &'a AccountState,
    /// The ledger collaborator.
    pub system_program: &'a AccountState,
}

/// Mathematical model of the Make accounts.
pub struct MakeAccountsView {
    /// The escrow creator; must have signed.
    pub maker: AccountView,
    /// The asset to lock.
    pub mint_a: AccountView,
    /// The asset expected in return.
    pub mint_b: AccountView,
    /// The maker's source holding of the locked asset.
    pub maker_ata_a: AccountView,
    /// The escrow record account, at its derived address.
    pub escrow: AccountView,
    /// The vault holding account, at its derived address.
    pub vault: AccountView,
    /// The asset-custody collaborator.
    pub token_program: AccountView,
    /// The ledger collaborator.
    pub system_program: AccountView,
}

impl<'a> View for MakeAccounts<'a> {
    type V = MakeAccountsView;

    open spec fn view(&self) -> MakeAccountsView {
        MakeAccountsView {
            maker: self.maker@,
            mint_a: self.mint_a@,
            mint_b: self.mint_b@,
            maker_ata_a: self.maker_ata_a@,
            escrow: self.escrow@,
            vault: self.vault@,
            token_program: self.token_program@,
            system_program: self.system_program@,
        }
    }
}

/// Everything a successful Make asks the runtime to apply, in order.
#[derive(Debug)]
pub struct MakeEffects {
    /// Bump of the derived escrow address.
    pub escrow_bump: u8,
    /// Bump of the derived vault address.
    pub vault_bump: u8,
    /// Allocate the escrow account, funded by the maker, owned by this
    /// program, sized exactly to the record layout.
    pub create_escrow: CreateAccountRequest,
    /// The initialized record bytes to write into the escrow account.
    pub escrow_data: Vec<u8>,
    /// Allocate the vault account, owned by the asset-custody collaborator.
    pub create_vault: CreateAccountRequest,
    /// Initialize the vault as a holding for the locked asset, with this
    /// program as its authority.
    pub init_vault: InitializeAccountRequest,
    /// Move the locked amount from the maker's source into the vault.
    pub fund_vault: TransferRequest,
}

/// Mathematical model of the Make effects.
pub struct MakeEffectsView {
    /// Bump of the derived escrow address.
    pub escrow_bump: u8,
    /// Bump of the derived vault address.
    pub vault_bump: u8,
    /// Allocate the escrow account.
    pub create_escrow: CreateAccountRequestView,
    /// The initialized record bytes.
    pub escrow_data: Seq<u8>,
    /// Allocate the vault account.
    pub create_vault: CreateAccountRequestView,
    /// Initialize the vault holding.
    pub init_vault: InitializeAccountRequestView,
    /// Fund the vault from the maker's source holding.
    pub fund_vault: TransferRequestView,
}

impl View for MakeEffects {
    type V = MakeEffectsView;

    open spec fn view(&self) -> MakeEffectsView {
        MakeEffectsView {
            escrow_bump: self.escrow_bump,
            vault_bump: self.vault_bump,
            create_escrow: self.create_escrow@,
            escrow_data: self.escrow_data@,
            create_vault: self.create_vault@,
            init_vault: self.init_vault@,
            fund_vault: self.fund_vault@,
        }
    }
}

/// What Make decides and produces: the first failing precondition's error,
/// or the exact effects. Preconditions, in order: maker signed; ledger
/// collaborator identity; asset-custody collaborator identity; a nonzero
/// amount — a record is only ever created with `amount > 0`, and a
/// zero-amount request is a malformed instruction, rejected with the
/// invalid-instruction error; the escrow account stands at the derived
/// escrow address; the vault account stands at the derived vault address.
pub open spec fn spec_make(
    program_id: Seq<u8>,
    accounts: MakeAccountsView,
    amount: u64,
    seed: u64,
) -> Result<MakeEffectsView, ProgramError> {
    if !accounts.maker.is_signer {
        Err(ProgramError::MissingRequiredSignature)
    } else if accounts.system_program.key != spec_system_program_id() {
        Err(ProgramError::IncorrectProgramId)
    } else if accounts.token_program.key != spec_token_program_id() {
        Err(spec_program_error(EscrowError::InvalidTokenProgram))
    } else if amount == 0 {
        Err(spec_program_error(EscrowError::InvalidInstruction))
    } else {
        match pda_of(escrow_seeds(accounts.maker.key, seed), program_id) {
            None => Err(spec_program_error(EscrowError::InvalidEscrowAccount)),
            Some((escrow_key, escrow_bump)) => {
                if escrow_key != accounts.escrow.key {
                    Err(spec_program_error(EscrowError::InvalidEscrowAccount))
                } else {
                    match pda_of(vault_seeds(accounts.escrow.key), program_id) {
                        None => Err(spec_program_error(EscrowError::InvalidEscrowAccount)),
                        Some((vault_key, vault_bump)) => {
                            if vault_key != accounts.vault.key {
                                Err(spec_program_error(EscrowError::InvalidEscrowAccount))
                            } else {
                                Ok(spec_make_effects(program_id, accounts, amount, escrow_bump, vault_bump))
                            }
                        },
                    }
                }
            },
        }
    }
}

/// The effects of a successful Make.
pub open spec fn spec_make_effects(
    program_id: Seq<u8>,
    accounts: MakeAccountsView,
    amount: u64,
    escrow_bump: u8,
    vault_bump: u8,
) -> MakeEffectsView {
    MakeEffectsView {
        escrow_bump,
        vault_bump,
        create_escrow: CreateAccountRequestView {
            from: accounts.maker.key,
            new_account: accounts.escrow.key,
            lamports: spec_rent_lamports(145) as u64,
            space: 145u64,
            owner: program_id,
        },
        escrow_data: spec_init_bytes(
            accounts.maker.key,
            accounts.mint_a.key,
            accounts.mint_b.key,
            accounts.maker_ata_a.key,
            amount,
            escrow_bump,
        ),
        create_vault: CreateAccountRequestView {
            from: accounts.maker.key,
            new_account: accounts.vault.key,
            lamports: spec_rent_lamports(165) as u64,
            space: 165u64,
            owner: spec_token_program_id(),
        },
        init_vault: InitializeAccountRequestView {
            account: accounts.vault.key,
            mint: accounts.mint_a.key,
            owner: program_id,
        },
        fund_vault: TransferRequestView {
            from: accounts.maker_ata_a.key,
            to: accounts.vault.key,
            authority: accounts.maker.key,
            amount,
        },
    }
}

/// Creates an escrow: validates the Make preconditions and returns the
/// requests that open the record and fund the vault.
pub fn make<'a>(
    program_id: &Pubkey,
    accounts: MakeAccounts<'a>,
    amount: u64,
    seed: u64,
) -> (r: Result<MakeEffects, ProgramError>)
    ensures
        res_view(r) == spec_make(program_id@, accounts@, amount, seed),
{
    if !accounts.maker.is_signer {
        return Err(ProgramError::MissingRequiredSignature);
    }
    let system_id = system_program_id();
    if !pubkey_eq(&accounts.system_program.key, &system_id) {
        return Err(ProgramError::IncorrectProgramId);
    }
    let token_id = token_program_id();
    if !pubkey_eq(&accounts.token_program.key, &token_id) {
        return Err(ProgramError::from(EscrowError::InvalidTokenProgram));
    }
    if amount == 0 {
        return Err(ProgramError::from(EscrowError::InvalidInstruction));
    }
    let escrow_pda = find_escrow_address(&accounts.maker.key, seed, program_id);
    let (escrow_key, escrow_bump) = match escrow_pda {
        Some(p) => p,
        None => {
            return Err(ProgramError::from(EscrowError::InvalidEscrowAccount));
        },
    };
    if !pubkey_eq(&escrow_key, &accounts.escrow.key) {
        return Err(ProgramError::from(EscrowError::InvalidEscrowAccount));
    }
    let vault_pda = find_vault_address(&accounts.escrow.key, program_id);
    let (vault_key, vault_bump) = match vault_pda {
        Some(p) => p,
        None => {
            return Err(ProgramError::from(EscrowError::InvalidEscrowAccount));
        },
    };
    if !pubkey_eq(&vault_key, &accounts.vault.key) {
        return Err(ProgramError::from(EscrowError::InvalidEscrowAccount));
    }
    let escrow_space: u64 = 145;
    let escrow_lamports: u64 = (escrow_space * 3564480) / 165;
    let vault_space: u64 = 165;
    let vault_lamports: u64 = (vault_space * 3564480) / 165;
    let escrow_data = Escrow::init(
        &accounts.maker.key,
        &accounts.mint_a.key,
        &accounts.mint_b.key,
        &accounts.maker_ata_a.key,
        amount,
        escrow_bump,
    );
    let effects = MakeEffects {
        escrow_bump,
        vault_bump,
        create_escrow: CreateAccountRequest {
            from: accounts.maker.key,
            new_account: accounts.escrow.key,
            lamports: escrow_lamports,
            space: escrow_space,
            owner: *program_id,
        },
        escrow_data,
        create_vault: CreateAccountRequest {
            from: accounts.maker.key,
            new_account: accounts.vault.key,
            lamports: vault_lamports,
            space: vault_space,
            owner: token_id,
        },
        init_vault: InitializeAccountRequest {
            account: accounts.vault.key,
            mint: accounts.mint_a.key,
            owner: *program_id,
        },
        fund_vault: TransferRequest {
            from: accounts.maker_ata_a.key,
            to: accounts.vault.key,
            authority: accounts.maker.key,
            amount,
        },
    };
    Ok(effects)
}

} // verus!
