//! Error taxonomy shared by the codec, the record store and the handlers.
use vstd::prelude::*;

verus! {

/// Failures specific to the escrow program's own rules.
#[derive(Clone, Copy, Debug, PartialEq, Eq, Structural)]
pub enum EscrowError {
    /// The instruction payload is malformed: empty, too short, or an
    /// unknown opcode byte.
    InvalidInstruction,
    /// The escrow storage account is not funded for rent exemption.
    NotRentExempt,
    /// The caller-declared amount diverges from the stored record.
    ExpectedAmountMismatch,
    /// An amount computation would exceed the 64-bit range.
    AmountOverflow,
    /// The record fails its discriminator or lifecycle check.
    InvalidState,
    /// The signer does not match the stored maker.
    InvalidAuthority,
    /// The asset-custody collaborator's identity does not match.
    InvalidTokenProgram,
    /// A supplied asset type does not match the stored record.
    InvalidTokenMint,
    /// A supplied sub-account address differs from the derived one.
    InvalidEscrowAccount,
}

/// Result vocabulary at the program boundary: the runtime's own failure
/// kinds that the handlers use, plus program-specific codes.
#[derive(Clone, Copy, Debug, PartialEq, Eq, Structural)]
pub enum ProgramError {
    /// A required signature is absent.
    MissingRequiredSignature,
    /// The ledger collaborator's identity does not match.
    IncorrectProgramId,
    /// Account storage does not hold a valid record.
    InvalidAccountData,
    /// A program-specific failure, tagged by its numeric code.
    Custom(u32),
}

impl EscrowError {
    /// Exhaustive mapping from the internal taxonomy to the numeric code
    /// surfaced at the program boundary.
    pub open spec fn spec_code(self) -> u32 {
        match self {
            EscrowError::InvalidInstruction => 0u32,
            EscrowError::NotRentExempt => 1u32,
            EscrowError::ExpectedAmountMismatch => 2u32,
            EscrowError::AmountOverflow => 3u32,
            EscrowError::InvalidState => 4u32,
            EscrowError::InvalidAuthority => 5u32,
            EscrowError::InvalidTokenProgram => 6u32,
            EscrowError::InvalidTokenMint => 7u32,
            EscrowError::InvalidEscrowAccount => 8u32,
        }
    }

    /// Numeric code of this failure at the program boundary.
    pub fn code(self) -> (c: u32)
        ensures
            c == self.spec_code(),
    {
        match self {
            EscrowError::InvalidInstruction => 0u32,
            EscrowError::NotRentExempt => 1u32,
            EscrowError::ExpectedAmountMismatch => 2u32,
            EscrowError::AmountOverflow => 3u32,
            EscrowError::InvalidState => 4u32,
            EscrowError::InvalidAuthority => 5u32,
            EscrowError::InvalidTokenProgram => 6u32,
            EscrowError::InvalidTokenMint => 7u32,
            EscrowError::InvalidEscrowAccount => 8u32,
        }
    }
}

/// What an `EscrowError` becomes at the boundary: a tagged custom code.
pub open spec fn spec_program_error(e: EscrowError) -> ProgramError {
    ProgramError::Custom(e.spec_code())
}

impl From<EscrowError> for ProgramError {
    fn from(e: EscrowError) -> (r: ProgramError) {
        ProgramError::Custom(e.code())
    }
}

impl vstd::std_specs::convert::FromSpecImpl<EscrowError> for ProgramError {
    open spec fn obeys_from_spec() -> bool {
        true
    }

    open spec fn from_spec(e: EscrowError) -> ProgramError {
        spec_program_error(e)
    }
}

} // verus!
