//! The records the ledger keeps, the notifications it emits and its errors.
use vstd::prelude::*;
use crate::bytes::{copy_bytes, Address};

verus! {

/// An account's encrypted balance: the amount ciphertext and two copies of
/// its decryption key, one recoverable by the user and one by the server.
pub struct EncryptedBalance {
    pub encrypted_amount: Vec<u8>,
    pub encrypted_key_user: Vec<u8>,
    pub encrypted_key_server: Vec<u8>,
    pub timestamp: u64,
    pub exists: bool,
}

pub struct BalanceModel {
    pub encrypted_amount: Seq<u8>,
    pub encrypted_key_user: Seq<u8>,
    pub encrypted_key_server: Seq<u8>,
    pub timestamp: u64,
    pub exists: bool,
}

impl View for EncryptedBalance {
    type V = BalanceModel;

    open spec fn view(&self) -> BalanceModel {
        BalanceModel {
            encrypted_amount: self.encrypted_amount@,
            encrypted_key_user: self.encrypted_key_user@,
            encrypted_key_server: self.encrypted_key_server@,
            timestamp: self.timestamp,
            exists: self.exists,
        }
    }
}

/// The record returned for an account index that was never written.
pub open spec fn absent_balance() -> BalanceModel {
    BalanceModel {
        encrypted_amount: Seq::empty(),
        encrypted_key_user: Seq::empty(),
        encrypted_key_server: Seq::empty(),
        timestamp: 0,
        exists: false,
    }
}

impl EncryptedBalance {
    pub fn duplicate(&self) -> (r: EncryptedBalance)
        ensures
            r@ == self@,
    {
        EncryptedBalance {
            encrypted_amount: copy_bytes(&self.encrypted_amount),
            encrypted_key_user: copy_bytes(&self.encrypted_key_user),
            encrypted_key_server: copy_bytes(&self.encrypted_key_server),
            timestamp: self.timestamp,
            exists: self.exists,
        }
    }
}

/// A user's pending request to have a deposit turned into an encrypted
/// balance.
pub struct DepositRequest {
    pub request_id: [u8; 32],
    pub user: Address,
    pub amount: i128,
    pub timestamp: u64,
    pub ledger: u32,
    pub encrypted_index: Vec<u8>,
}

pub struct DepositModel {
    pub request_id: Seq<u8>,
    pub user: Seq<u8>,
    pub amount: i128,
    pub timestamp: u64,
    pub ledger: u32,
    pub encrypted_index: Seq<u8>,
}

impl View for DepositRequest {
    type V = DepositModel;

    open spec fn view(&self) -> DepositModel {
        DepositModel {
            request_id: self.request_id@,
            user: self.user@,
            amount: self.amount,
            timestamp: self.timestamp,
            ledger: self.ledger,
            encrypted_index: self.encrypted_index@,
        }
    }
}

impl DepositRequest {
    pub fn duplicate(&self) -> (r: DepositRequest)
        ensures
            r@ == self@,
    {
        DepositRequest {
            request_id: self.request_id,
            user: self.user.duplicate(),
            amount: self.amount,
            timestamp: self.timestamp,
            ledger: self.ledger,
            encrypted_index: copy_bytes(&self.encrypted_index),
        }
    }
}

/// A sender's pending request to move value to a receiver; both the
/// receiver's index and the amount are encrypted for the server.
pub struct TransferRequest {
    pub transfer_id: [u8; 32],
    pub sender: Address,
    pub encrypted_receiver_index: Vec<u8>,
    pub encrypted_amount: Vec<u8>,
    pub timestamp: u64,
    pub ledger: u32,
}

pub struct TransferModel {
    pub transfer_id: Seq<u8>,
    pub sender: Seq<u8>,
    pub encrypted_receiver_index: Seq<u8>,
    pub encrypted_amount: Seq<u8>,
    pub timestamp: u64,
    pub ledger: u32,
}

impl View for TransferRequest {
    type V = TransferModel;

    open spec fn view(&self) -> TransferModel {
        TransferModel {
            transfer_id: self.transfer_id@,
            sender: self.sender@,
            encrypted_receiver_index: self.encrypted_receiver_index@,
            encrypted_amount: self.encrypted_amount@,
            timestamp: self.timestamp,
            ledger: self.ledger,
        }
    }
}

impl TransferRequest {
    pub fn duplicate(&self) -> (r: TransferRequest)
        ensures
            r@ == self@,
    {
        TransferRequest {
            transfer_id: self.transfer_id,
            sender: self.sender.duplicate(),
            encrypted_receiver_index: copy_bytes(&self.encrypted_receiver_index),
            encrypted_amount: copy_bytes(&self.encrypted_amount),
            timestamp: self.timestamp,
            ledger: self.ledger,
        }
    }
}

/// The strkey of the all-zero account, which stands in for the requester
/// of a request that was never recorded.
pub open spec fn zero_account() -> Seq<u8> {
    seq![71u8] + Seq::new(52, |i: int| 65u8) + seq![87u8, 72u8, 70u8]
}

pub fn zero_account_address() -> (r: Address)
    ensures
        r@ == zero_account(),
{
    let mut bytes: Vec<u8> = Vec::new();
    bytes.push(71u8);
    let mut i: usize = 0;
    while i < 52
        invariant
            i <= 52,
            bytes@ == seq![71u8] + Seq::new(i as nat, |k: int| 65u8),
        decreases 52 - i,
    {
        bytes.push(65u8);
        i = i + 1;
        assert(bytes@ =~= seq![71u8] + Seq::new(i as nat, |k: int| 65u8));
    }
    bytes.push(87u8);
    bytes.push(72u8);
    bytes.push(70u8);
    assert(bytes@ =~= zero_account());
    Address::new(bytes)
}

/// The host's clock at the time of a call.
#[derive(Clone, Copy, PartialEq, Eq, Structural, Debug)]
pub struct LedgerClock {
    pub timestamp: u64,
    pub sequence: u32,
}

/// Why a call was refused. A refused call changes nothing.
#[derive(Clone, Copy, PartialEq, Eq, Structural, Debug)]
pub enum ContractError {
    /// The ledger already has an authority and a custody asset.
    AlreadyInitialized,
    /// The ledger has no authority or custody asset yet.
    NotInitialized,
    /// A deposit amount that is zero or negative.
    InvalidAmount,
    /// The invoker is not the identity the call requires.
    Unauthorized,
    /// The request was already fulfilled.
    AlreadyCompleted,
    /// The supply counter would leave the range of `i128`.
    SupplyOverflow,
}

/// An identity registered an account index.
pub struct UserAuthenticated {
    pub user: Address,
    pub encrypted_index: Vec<u8>,
}

/// The movement of raw tokens into custody that a deposit request asks for.
pub struct CustodyTransfer {
    pub token: Address,
    pub from: Address,
    pub amount: i128,
}

/// A deposit request was recorded; the server is to process it.
pub struct DepositRequested {
    pub request_id: [u8; 32],
    pub packed_data: Vec<u8>,
    pub encrypted_index: Vec<u8>,
    pub custody: CustodyTransfer,
}

/// A deposit was fulfilled and its encrypted balance stored.
pub struct BalanceStored {
    pub request_id: [u8; 32],
    pub user: Address,
    pub encrypted_amount: Vec<u8>,
    pub encrypted_key_user: Vec<u8>,
    pub encrypted_key_server: Vec<u8>,
}

/// A transfer request was recorded; the server is to process it.
pub struct TransferRequested {
    pub transfer_id: [u8; 32],
    pub sender: Address,
    pub encrypted_receiver_index: Vec<u8>,
    pub encrypted_amount: Vec<u8>,
}

/// A transfer was fulfilled and both encrypted balances replaced.
pub struct TransferCompleted {
    pub transfer_id: [u8; 32],
    pub sender_index: [u8; 32],
    pub receiver_index: [u8; 32],
    pub sender_new_encrypted_balance: Vec<u8>,
    pub receiver_new_encrypted_balance: Vec<u8>,
}

} // verus!
