//! The escrow record: the sole persisted entity, stored in a fixed binary
//! layout of 145 bytes. Offset 0-7 holds the discriminator tag, 8-39 the
//! maker, 40-71 and 72-103 the two asset identities, 104-135 the maker's
//! receive account, 136-143 the locked amount (little endian) and 144 the
//! derivation bump.
use crate::error::ProgramError;
use crate::util::{bytes_eq, push_bytes, read_array, read_u64_le, Pubkey};
use vstd::prelude::*;

verus! {

/// One pending swap: parties, assets, locked amount and lifecycle tag.
#[derive(Debug, Clone, Copy, PartialEq, Eq)]
pub struct Escrow {
    /// Tag identifying a valid, initialized record; any other byte pattern
    /// (including all-zero) means the record is uninitialized or closed.
    pub discriminator: [u8; 8],
    /// The party who created the escrow.
    pub maker: Pubkey,
    /// Asset locked by the maker.
    pub mint_a: Pubkey,
    /// Asset the maker expects in return.
    pub mint_b: Pubkey,
    /// The maker's destination holding for the returned asset.
    pub receive_account: Pubkey,
    /// Quantity of the locked asset.
    pub amount: u64,
    /// Disambiguator produced by deriving the escrow address.
    pub bump: u8,
}

/// The discriminator bytes of an open record.
pub open spec fn spec_discriminator() -> Seq<u8> {
    seq![139u8, 11u8, 230u8, 78u8, 92u8, 65u8, 103u8, 116u8]
}

/// The exact 145-byte layout of a record.
pub open spec fn spec_escrow_bytes(e: Escrow) -> Seq<u8> {
    e.discriminator@ + e.maker@ + e.mint_a@ + e.mint_b@ + e.receive_account@
        + vstd::bytes::spec_u64_to_le_bytes(e.amount) + seq![e.bump]
}

/// The record an open 145-byte prefix of `data` describes.
pub open spec fn escrow_matches(e: Escrow, data: Seq<u8>) -> bool {
    &&& data.len() >= 145
    &&& e.discriminator@ == data.subrange(0, 8)
    &&& e.maker@ == data.subrange(8, 40)
    &&& e.mint_a@ == data.subrange(40, 72)
    &&& e.mint_b@ == data.subrange(72, 104)
    &&& e.receive_account@ == data.subrange(104, 136)
    &&& e.amount == vstd::bytes::spec_u64_from_le_bytes(data.subrange(136, 144))
    &&& e.bump == data[144]
}

/// Whether `data` holds an open record: long enough and carrying the
/// discriminator tag. Any other byte pattern, including all-zero storage,
/// is uninitialized or closed.
pub open spec fn spec_record_open(data: Seq<u8>) -> bool {
    data.len() >= 145 && data.subrange(0, 8) == spec_discriminator()
}

/// The stored maker of a record.
pub open spec fn spec_record_maker(data: Seq<u8>) -> Seq<u8> {
    data.subrange(8, 40)
}

/// The stored locked-asset identity of a record.
pub open spec fn spec_record_mint_a(data: Seq<u8>) -> Seq<u8> {
    data.subrange(40, 72)
}

/// The stored expected-asset identity of a record.
pub open spec fn spec_record_mint_b(data: Seq<u8>) -> Seq<u8> {
    data.subrange(72, 104)
}

/// The stored receive account of a record.
pub open spec fn spec_record_receive(data: Seq<u8>) -> Seq<u8> {
    data.subrange(104, 136)
}

/// The stored locked amount of a record.
pub open spec fn spec_record_amount(data: Seq<u8>) -> u64 {
    vstd::bytes::spec_u64_from_le_bytes(data.subrange(136, 144))
}

/// The stored derivation bump of a record.
pub open spec fn spec_record_bump(data: Seq<u8>) -> u8 {
    data[144]
}

/// Layout of a freshly initialized record over the given field values.
pub open spec fn spec_init_bytes(
    maker: Seq<u8>,
    mint_a: Seq<u8>,
    mint_b: Seq<u8>,
    receive_account: Seq<u8>,
    amount: u64,
    bump: u8,
) -> Seq<u8> {
    spec_discriminator() + maker + mint_a + mint_b + receive_account
        + vstd::bytes::spec_u64_to_le_bytes(amount) + seq![bump]
}

/// A freshly initialized record is open and parses back to exactly the
/// fields it was built from, for all field values.
pub proof fn lemma_init_round_trip(
    maker: Seq<u8>,
    mint_a: Seq<u8>,
    mint_b: Seq<u8>,
    receive_account: Seq<u8>,
    amount: u64,
    bump: u8,
)
    requires
        maker.len() == 32,
        mint_a.len() == 32,
        mint_b.len() == 32,
        receive_account.len() == 32,
    ensures
        spec_init_bytes(maker, mint_a, mint_b, receive_account, amount, bump).len() == 145,
        spec_record_open(spec_init_bytes(maker, mint_a, mint_b, receive_account, amount, bump)),
        spec_record_maker(spec_init_bytes(maker, mint_a, mint_b, receive_account, amount, bump))
            == maker,
        spec_record_mint_a(spec_init_bytes(maker, mint_a, mint_b, receive_account, amount, bump))
            == mint_a,
        spec_record_mint_b(spec_init_bytes(maker, mint_a, mint_b, receive_account, amount, bump))
            == mint_b,
        spec_record_receive(spec_init_bytes(maker, mint_a, mint_b, receive_account, amount, bump))
            == receive_account,
        spec_record_amount(spec_init_bytes(maker, mint_a, mint_b, receive_account, amount, bump))
            == amount,
        spec_record_bump(spec_init_bytes(maker, mint_a, mint_b, receive_account, amount, bump))
            == bump,
{
    vstd::bytes::lemma_auto_spec_u64_to_from_le_bytes();
    let data = spec_init_bytes(maker, mint_a, mint_b, receive_account, amount, bump);
    assert(data.subrange(0, 8) =~= spec_discriminator());
    assert(data.subrange(8, 40) =~= maker);
    assert(data.subrange(40, 72) =~= mint_a);
    assert(data.subrange(72, 104) =~= mint_b);
    assert(data.subrange(104, 136) =~= receive_account);
    assert(data.subrange(136, 144) =~= vstd::bytes::spec_u64_to_le_bytes(amount));
}

/// Zeroed storage never parses as an open record: the discriminator's
/// first byte is nonzero, which is what makes clearing a record a terminal
/// transition.
pub proof fn lemma_cleared_record_not_open(n: nat)
    ensures
        !spec_record_open(crate::util::zero_bytes(n)),
{
    if n >= 145 {
        let data = crate::util::zero_bytes(n);
        assert(data.subrange(0, 8)[0] == 0u8);
        assert(spec_discriminator()[0] == 139u8);
    }
}

impl Escrow {
    /// Size in bytes of the stored record.
    pub const LEN: usize = 8 + 32 + 32 + 32 + 32 + 8 + 1;

    /// The discriminator constant of an open record.
    pub fn discriminator_tag() -> (r: [u8; 8])
        ensures
            r@ == spec_discriminator(),
    {
        let r: [u8; 8] = [139u8, 11u8, 230u8, 78u8, 92u8, 65u8, 103u8, 116u8];
        proof {
            assert(r@ =~= spec_discriminator());
        }
        r
    }

    /// Whether this record carries the discriminator of an open record.
    pub fn is_initialized(&self) -> (r: bool)
        ensures
            r == (self.discriminator@ == spec_discriminator()),
    {
        let tag = Self::discriminator_tag();
        bytes_eq(&self.discriminator, &tag)
    }

    /// Renders a freshly created record into its stored 145-byte layout.
    pub fn init(
        maker: &Pubkey,
        mint_a: &Pubkey,
        mint_b: &Pubkey,
        receive_account: &Pubkey,
        amount: u64,
        bump: u8,
    ) -> (data: Vec<u8>)
        ensures
            data@ == spec_init_bytes(maker@, mint_a@, mint_b@, receive_account@, amount, bump),
            data@.len() == 145,
    {
        let mut data: Vec<u8> = Vec::new();
        let tag = Self::discriminator_tag();
        push_bytes(&mut data, tag.as_slice());
        push_bytes(&mut data, maker.as_slice());
        push_bytes(&mut data, mint_a.as_slice());
        push_bytes(&mut data, mint_b.as_slice());
        let amount_bytes = vstd::bytes::u64_to_le_bytes(amount);
        push_bytes(&mut data, receive_account.as_slice());
        push_bytes(&mut data, amount_bytes.as_slice());
        data.push(bump);
        proof {
            vstd::bytes::lemma_auto_spec_u64_to_from_le_bytes();
            assert(data@ =~= spec_init_bytes(
                maker@,
                mint_a@,
                mint_b@,
                receive_account@,
                amount,
                bump,
            ));
        }
        data
    }

    /// Parses the stored bytes of an account into an open record, failing
    /// when the storage is too short or the discriminator does not mark an
    /// open record.
    pub fn from_account(data: &[u8]) -> (r: Result<Escrow, ProgramError>)
        ensures
            data@.len() < 145 ==> r == Err::<Escrow, ProgramError>(ProgramError::InvalidAccountData),
            data@.len() >= 145 && data@.subrange(0, 8) != spec_discriminator() ==> r == Err::<
                Escrow,
                ProgramError,
            >(ProgramError::InvalidAccountData),
            data@.len() >= 145 && data@.subrange(0, 8) == spec_discriminator() ==> (r matches Ok(e)
                && escrow_matches(e, data@)),
    {
        let n: usize = data.len();
        if n < Self::LEN {
            return Err(ProgramError::InvalidAccountData);
        }
        let discriminator: [u8; 8] = read_array(data, 0);
        let tag = Self::discriminator_tag();
        if !bytes_eq(&discriminator, &tag) {
            return Err(ProgramError::InvalidAccountData);
        }
        let maker: Pubkey = read_array(data, 8);
        let mint_a: Pubkey = read_array(data, 40);
        let mint_b: Pubkey = read_array(data, 72);
        let receive_account: Pubkey = read_array(data, 104);
        let amount = read_u64_le(data, 136);
        let bump = data[144];
        Ok(Escrow { discriminator, maker, mint_a, mint_b, receive_account, amount, bump })
    }
}

} // verus!
