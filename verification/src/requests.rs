//! Requests a handler issues to its collaborators. A handler never moves
//! funds itself: it validates, then hands the runtime an exact list of
//! storage allocations, transfers and closes to apply atomically. If any
//! step of applying them fails, the whole instruction aborts with no
//! partial state retained.
use crate::util::Pubkey;
use vstd::prelude::*;

verus! {

/// Ask the ledger collaborator to allocate a new account.
#[derive(Debug, Clone, Copy, PartialEq, Eq)]
pub struct CreateAccountRequest {
    /// The account funding the allocation.
    pub from: Pubkey,
    /// The account to allocate.
    pub new_account: Pubkey,
    /// Balance to deposit for rent exemption.
    pub lamports: u64,
    /// Storage size in bytes.
    pub space: u64,
    /// The program that will own the new account.
    pub owner: Pubkey,
}

/// Mathematical model of an allocation request.
pub struct CreateAccountRequestView {
    /// The account funding the allocation.
    pub from: Seq<u8>,
    /// The account to allocate.
    pub new_account: Seq<u8>,
    /// Balance to deposit for rent exemption.
    pub lamports: u64,
    /// Storage size in bytes.
    pub space: u64,
    /// The program that will own the new account.
    pub owner: Seq<u8>,
}

impl View for CreateAccountRequest {
    type V = CreateAccountRequestView;

    open spec fn view(&self) -> CreateAccountRequestView {
        CreateAccountRequestView {
            from: self.from@,
            new_account: self.new_account@,
            lamports: self.lamports,
            space: self.space,
            owner: self.owner@,
        }
    }
}

/// Ask the asset-custody collaborator to initialize a holding account.
#[derive(Debug, Clone, Copy, PartialEq, Eq)]
pub struct InitializeAccountRequest {
    /// The holding account to initialize.
    pub account: Pubkey,
    /// The asset type it will hold.
    pub mint: Pubkey,
    /// The authority over the holding.
    pub owner: Pubkey,
}

/// Mathematical model of a holding-initialization request.
pub struct InitializeAccountRequestView {
    /// The holding account to initialize.
    pub account: Seq<u8>,
    /// The asset type it will hold.
    pub mint: Seq<u8>,
    /// The authority over the holding.
    pub owner: Seq<u8>,
}

impl View for InitializeAccountRequest {
    type V = InitializeAccountRequestView;

    open spec fn view(&self) -> InitializeAccountRequestView {
        InitializeAccountRequestView {
            account: self.account@,
            mint: self.mint@,
            owner: self.owner@,
        }
    }
}

/// Ask the asset-custody collaborator to move funds between holdings.
#[derive(Debug, Clone, Copy, PartialEq, Eq)]
pub struct TransferRequest {
    /// Source holding.
    pub from: Pubkey,
    /// Destination holding.
    pub to: Pubkey,
    /// The party authorizing the movement.
    pub authority: Pubkey,
    /// Quantity to move.
    pub amount: u64,
}

/// Mathematical model of a transfer request.
pub struct TransferRequestView {
    /// Source holding.
    pub from: Seq<u8>,
    /// Destination holding.
    pub to: Seq<u8>,
    /// The party authorizing the movement.
    pub authority: Seq<u8>,
    /// Quantity to move.
    pub amount: u64,
}

impl View for TransferRequest {
    type V = TransferRequestView;

    open spec fn view(&self) -> TransferRequestView {
        TransferRequestView {
            from: self.from@,
            to: self.to@,
            authority: self.authority@,
            amount: self.amount,
        }
    }
}

/// Ask the asset-custody collaborator to close a holding, crediting its
/// reclaimed balance to the destination.
#[derive(Debug, Clone, Copy, PartialEq, Eq)]
pub struct CloseAccountRequest {
    /// The holding to close.
    pub account: Pubkey,
    /// Where its reclaimed balance goes.
    pub destination: Pubkey,
    /// The party authorizing the close.
    pub authority: Pubkey,
}

/// Mathematical model of a close request.
pub struct CloseAccountRequestView {
    /// The holding to close.
    pub account: Seq<u8>,
    /// Where its reclaimed balance goes.
    pub destination: Seq<u8>,
    /// The party authorizing the close.
    pub authority: Seq<u8>,
}

impl View for CloseAccountRequest {
    type V = CloseAccountRequestView;

    open spec fn view(&self) -> CloseAccountRequestView {
        CloseAccountRequestView {
            account: self.account@,
            destination: self.destination@,
            authority: self.authority@,
        }
    }
}

} // verus!
