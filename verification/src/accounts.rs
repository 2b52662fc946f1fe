//! Plain snapshot of a ledger account as a handler sees it: its address,
//! whether its owner signed the instruction, its balance and its stored
//! bytes. The surrounding runtime reads these fresh from authoritative
//! storage for every invocation.
use crate::util::Pubkey;
use vstd::prelude::*;

verus! {

/// One account, as presented to a handler.
#[derive(Debug)]
pub struct AccountState {
    /// The account's address.
    pub key: Pubkey,
    /// Whether the holder of this address signed the instruction.
    pub is_signer: bool,
    /// The account's rent/deposit balance.
    pub lamports: u64,
    /// The account's stored bytes.
    pub data: Vec<u8>,
}

/// Mathematical model of an account snapshot.
pub struct AccountView {
    /// The account's address.
    pub key: Seq<u8>,
    /// Whether the holder of this address signed the instruction.
    pub is_signer: bool,
    /// The account's rent/deposit balance.
    pub lamports: u64,
    /// The account's stored bytes.
    pub data: Seq<u8>,
}

impl View for AccountState {
    type V = AccountView;

    open spec fn view(&self) -> AccountView {
        AccountView {
            key: self.key@,
            is_signer: self.is_signer,
            lamports: self.lamports,
            data: self.data@,
        }
    }
}

/// Models of a whole account list, in position order.
pub open spec fn views_of(accounts: Seq<AccountState>) -> Seq<AccountView> {
    Seq::new(accounts.len(), |i: int| accounts[i]@)
}

} // verus!
