//! The ledger: registration of account indices, the deposit and transfer
//! request/fulfillment protocol, and the read surface.
use vstd::prelude::*;
use soroban_sdk::Env;
use crate::bytes::{copy_bytes, Address};
use crate::digest::{
    deposit_id_of, deposit_request_id, ledger_sequence, ledger_timestamp, transfer_id_of,
    transfer_request_id,
};
use crate::records::{
    absent_balance, zero_account, zero_account_address, BalanceModel, BalanceStored,
    ContractError, CustodyTransfer, DepositModel, DepositRequest, DepositRequested,
    EncryptedBalance, LedgerClock, TransferCompleted, TransferModel, TransferRequest,
    TransferRequested, UserAuthenticated,
};
use crate::table::Table;

verus! {

/// The abstract state of the ledger. Byte strings key every family of
/// records: identities, account indices and request identifiers.
pub struct LedgerModel {
    /// The authority and the custody asset, once initialized.
    pub config: Option<(Seq<u8>, Seq<u8>)>,
    pub supply: int,
    pub user_index: Map<Seq<u8>, Seq<u8>>,
    pub balances: Map<Seq<u8>, BalanceModel>,
    pub deposit_requests: Map<Seq<u8>, DepositModel>,
    pub deposit_completed: Map<Seq<u8>, bool>,
    pub transfer_requests: Map<Seq<u8>, TransferModel>,
    pub transfer_completed: Map<Seq<u8>, bool>,
}

impl LedgerModel {
    pub open spec fn initial() -> LedgerModel {
        LedgerModel {
            config: None,
            supply: 0,
            user_index: Map::empty(),
            balances: Map::empty(),
            deposit_requests: Map::empty(),
            deposit_completed: Map::empty(),
            transfer_requests: Map::empty(),
            transfer_completed: Map::empty(),
        }
    }

    pub open spec fn is_authority(self, who: Seq<u8>) -> bool {
        match self.config {
            Some(c) => c.0 == who,
            None => false,
        }
    }

    pub open spec fn deposit_done(self, id: Seq<u8>) -> bool {
        self.deposit_completed.contains_key(id) && self.deposit_completed[id]
    }

    pub open spec fn transfer_done(self, id: Seq<u8>) -> bool {
        self.transfer_completed.contains_key(id) && self.transfer_completed[id]
    }

    /// The index registered for an identity; empty when there is none.
    pub open spec fn index_of(self, user: Seq<u8>) -> Seq<u8> {
        if self.user_index.contains_key(user) {
            self.user_index[user]
        } else {
            Seq::empty()
        }
    }

    /// The balance record at an account index; the absent record when none
    /// was ever stored there.
    pub open spec fn balance(self, index: Seq<u8>) -> BalanceModel {
        if self.balances.contains_key(index) {
            self.balances[index]
        } else {
            absent_balance()
        }
    }

    pub open spec fn deposit_request(self, id: Seq<u8>) -> DepositModel {
        if self.deposit_requests.contains_key(id) {
            self.deposit_requests[id]
        } else {
            DepositModel {
                request_id: id,
                user: zero_account(),
                amount: 0,
                timestamp: 0,
                ledger: 0,
                encrypted_index: Seq::empty(),
            }
        }
    }

    pub open spec fn transfer_request(self, id: Seq<u8>) -> TransferModel {
        if self.transfer_requests.contains_key(id) {
            self.transfer_requests[id]
        } else {
            TransferModel {
                transfer_id: id,
                sender: zero_account(),
                encrypted_receiver_index: Seq::empty(),
                encrypted_amount: Seq::empty(),
                timestamp: 0,
                ledger: 0,
            }
        }
    }

    pub open spec fn initialized(self, authority: Seq<u8>, token: Seq<u8>) -> LedgerModel {
        LedgerModel { config: Some((authority, token)), supply: 0, ..self }
    }

    pub open spec fn authenticated(self, user: Seq<u8>, index: Seq<u8>) -> LedgerModel {
        LedgerModel { user_index: self.user_index.insert(user, index), ..self }
    }

    /// Records a deposit request, registering its index for the requester
    /// when the requester has none yet.
    pub open spec fn deposit_requested(self, req: DepositModel) -> LedgerModel {
        LedgerModel {
            user_index: if self.user_index.contains_key(req.user) {
                self.user_index
            } else {
                self.user_index.insert(req.user, req.encrypted_index)
            },
            deposit_requests: self.deposit_requests.insert(req.request_id, req),
            ..self
        }
    }

    pub open spec fn deposit_stored(
        self,
        id: Seq<u8>,
        amount: i128,
        index: Seq<u8>,
        balance: BalanceModel,
    ) -> LedgerModel {
        LedgerModel {
            supply: self.supply + amount,
            balances: self.balances.insert(index, balance),
            deposit_completed: self.deposit_completed.insert(id, true),
            ..self
        }
    }

    pub open spec fn transfer_requested(self, req: TransferModel) -> LedgerModel {
        LedgerModel {
            transfer_requests: self.transfer_requests.insert(req.transfer_id, req),
            ..self
        }
    }

    /// Replaces the sender's record, then the receiver's, and marks the
    /// transfer completed.
    pub open spec fn transfer_processed(
        self,
        id: Seq<u8>,
        sender_index: Seq<u8>,
        sender_balance: BalanceModel,
        receiver_index: Seq<u8>,
        receiver_balance: BalanceModel,
    ) -> LedgerModel {
        LedgerModel {
            balances: self.balances.insert(sender_index, sender_balance).insert(
                receiver_index,
                receiver_balance,
            ),
            transfer_completed: self.transfer_completed.insert(id, true),
            ..self
        }
    }
}

/// A fresh balance record with `exists` set.
pub open spec fn stored_balance(
    encrypted_amount: Seq<u8>,
    encrypted_key_user: Seq<u8>,
    encrypted_key_server: Seq<u8>,
    timestamp: u64,
) -> BalanceModel {
    BalanceModel { encrypted_amount, encrypted_key_user, encrypted_key_server, timestamp, exists: true }
}

pub open spec fn fits_i128(x: int) -> bool {
    i128::MIN <= x <= i128::MAX
}

/// What a call of `store_deposit` does: refused unless the invoker is the
/// authority, the request is not yet completed and the new supply fits in
/// `i128`, in that order; a refused call changes nothing.
pub open spec fn store_deposit_outcome(
    pre: LedgerModel,
    post: LedgerModel,
    r: Result<BalanceStored, ContractError>,
    invoker: Seq<u8>,
    request_id: Seq<u8>,
    user: Seq<u8>,
    amount: i128,
    user_index: Seq<u8>,
    encrypted_amount: Seq<u8>,
    encrypted_key_user: Seq<u8>,
    encrypted_key_server: Seq<u8>,
    timestamp: u64,
) -> bool {
    &&& !pre.is_authority(invoker) ==> r == Err::<BalanceStored, ContractError>(
        ContractError::Unauthorized,
    )
    &&& pre.is_authority(invoker) && pre.deposit_done(request_id) ==> r == Err::<
        BalanceStored,
        ContractError,
    >(ContractError::AlreadyCompleted)
    &&& pre.is_authority(invoker) && !pre.deposit_done(request_id) && !fits_i128(
        pre.supply + amount,
    ) ==> r == Err::<BalanceStored, ContractError>(ContractError::SupplyOverflow)
    &&& r is Ok <==> pre.is_authority(invoker) && !pre.deposit_done(request_id) && fits_i128(
        pre.supply + amount,
    )
    &&& match r {
        Ok(ev) => {
            &&& post == pre.deposit_stored(
                request_id,
                amount,
                user_index,
                stored_balance(encrypted_amount, encrypted_key_user, encrypted_key_server, timestamp),
            )
            &&& ev.request_id@ == request_id
            &&& ev.user@ == user
            &&& ev.encrypted_amount@ == encrypted_amount
            &&& ev.encrypted_key_user@ == encrypted_key_user
            &&& ev.encrypted_key_server@ == encrypted_key_server
        },
        Err(_) => post == pre,
    }
}

/// What a call of `process_transfer` does: refused unless the invoker is
/// the authority and the transfer is not yet completed, in that order; a
/// refused call changes nothing.
pub open spec fn process_transfer_outcome(
    pre: LedgerModel,
    post: LedgerModel,
    r: Result<TransferCompleted, ContractError>,
    invoker: Seq<u8>,
    transfer_id: Seq<u8>,
    sender_index: Seq<u8>,
    receiver_index: Seq<u8>,
    sender_balance: BalanceModel,
    receiver_balance: BalanceModel,
) -> bool {
    &&& !pre.is_authority(invoker) ==> r == Err::<TransferCompleted, ContractError>(
        ContractError::Unauthorized,
    )
    &&& pre.is_authority(invoker) && pre.transfer_done(transfer_id) ==> r == Err::<
        TransferCompleted,
        ContractError,
    >(ContractError::AlreadyCompleted)
    &&& r is Ok <==> pre.is_authority(invoker) && !pre.transfer_done(transfer_id)
    &&& match r {
        Ok(ev) => {
            &&& post == pre.transfer_processed(
                transfer_id,
                sender_index,
                sender_balance,
                receiver_index,
                receiver_balance,
            )
            &&& ev.transfer_id@ == transfer_id
            &&& ev.sender_index@ == sender_index
            &&& ev.receiver_index@ == receiver_index
            &&& ev.sender_new_encrypted_balance@ == sender_balance.encrypted_amount
            &&& ev.receiver_new_encrypted_balance@ == receiver_balance.encrypted_amount
        },
        Err(_) => post == pre,
    }
}

/// What a call of `request_deposit` does: refused when the amount is not
/// positive, then when the ledger is not initialized; a refused call
/// changes nothing.
pub open spec fn request_deposit_outcome(
    pre: LedgerModel,
    post: LedgerModel,
    r: Result<DepositRequested, ContractError>,
    request: DepositModel,
) -> bool {
    &&& request.amount <= 0 ==> r == Err::<DepositRequested, ContractError>(
        ContractError::InvalidAmount,
    )
    &&& request.amount > 0 && pre.config is None ==> r == Err::<DepositRequested, ContractError>(
        ContractError::NotInitialized,
    )
    &&& r is Ok <==> request.amount > 0 && pre.config is Some
    &&& match r {
        Ok(ev) => {
            &&& post == pre.deposit_requested(request)
            &&& ev.request_id@ == request.request_id
            &&& ev.packed_data@ == request.encrypted_index
            &&& ev.encrypted_index@ == request.encrypted_index
            &&& ev.custody.token@ == pre.config->Some_0.1
            &&& ev.custody.from@ == request.user
            &&& ev.custody.amount == request.amount
        },
        Err(_) => post == pre,
    }
}

/// What a call of `authenticate_user` does: refused unless the invoker is
/// the user; otherwise the user's index is replaced.
pub open spec fn authenticate_outcome(
    pre: LedgerModel,
    post: LedgerModel,
    r: Result<UserAuthenticated, ContractError>,
    invoker: Seq<u8>,
    user: Seq<u8>,
    encrypted_index: Seq<u8>,
) -> bool {
    &&& invoker != user ==> r == Err::<UserAuthenticated, ContractError>(ContractError::Unauthorized)
    &&& r is Ok <==> invoker == user
    &&& match r {
        Ok(ev) => {
            &&& post == pre.authenticated(user, encrypted_index)
            &&& ev.user@ == user
            &&& ev.encrypted_index@ == encrypted_index
        },
        Err(_) => post == pre,
    }
}

pub struct EncryptedTokenContract {
    config: Option<(Address, Address)>,
    supply: i128,
    user_index: Table<Vec<u8>>,
    balances: Table<EncryptedBalance>,
    deposit_requests: Table<DepositRequest>,
    deposit_completed: Table<bool>,
    transfer_requests: Table<TransferRequest>,
    transfer_completed: Table<bool>,
}

impl View for EncryptedTokenContract {
    type V = LedgerModel;

    closed spec fn view(&self) -> LedgerModel {
        LedgerModel {
            config: match self.config {
                Some(c) => Some((c.0@, c.1@)),
                None => None,
            },
            supply: self.supply as int,
            user_index: self.user_index@,
            balances: self.balances@,
            deposit_requests: self.deposit_requests@,
            deposit_completed: self.deposit_completed@,
            transfer_requests: self.transfer_requests@,
            transfer_completed: self.transfer_completed@,
        }
    }
}

impl EncryptedTokenContract {
    pub closed spec fn wf(&self) -> bool {
        &&& self.user_index.wf()
        &&& self.balances.wf()
        &&& self.deposit_requests.wf()
        &&& self.deposit_completed.wf()
        &&& self.transfer_requests.wf()
        &&& self.transfer_completed.wf()
    }

    /// An empty ledger, not yet initialized.
    pub fn new() -> (r: EncryptedTokenContract)
        ensures
            r.wf(),
            r@ == LedgerModel::initial(),
    {
        EncryptedTokenContract {
            config: None,
            supply: 0,
            user_index: Table::new(),
            balances: Table::new(),
            deposit_requests: Table::new(),
            deposit_completed: Table::new(),
            transfer_requests: Table::new(),
            transfer_completed: Table::new(),
        }
    }

    /// Sets the authority and the custody asset and zeroes the supply; only
    /// once.
    pub fn initialize(&mut self, server_manager: Address, token_contract: Address) -> (r: Result<(), ContractError>)
        requires
            old(self).wf(),
        ensures
            final(self).wf(),
            old(self)@.config is Some ==> r == Err::<(), ContractError>(ContractError::AlreadyInitialized),
            r is Ok <==> old(self)@.config is None,
            r is Ok ==> final(self)@ == old(self)@.initialized(server_manager@, token_contract@),
            r is Err ==> final(self)@ == old(self)@,
    {
        if self.config.is_some() {
            return Err(ContractError::AlreadyInitialized);
        }
        self.config = Some((server_manager, token_contract));
        self.supply = 0;
        Ok(())
    }

    /// Fulfills a deposit at the given ledger time: adds `amount` to the
    /// supply, replaces the balance record at `user_index` and marks the
    /// request completed. Only the authority may call it, once per request.
    pub fn store_deposit_at(
        &mut self,
        timestamp: u64,
        invoker: &Address,
        request_id: [u8; 32],
        user_address: Address,
        amount: i128,
        user_index: [u8; 32],
        encrypted_amount: Vec<u8>,
        encrypted_key_user: Vec<u8>,
        encrypted_key_server: Vec<u8>,
    ) -> (r: Result<BalanceStored, ContractError>)
        requires
            old(self).wf(),
        ensures
            final(self).wf(),
            store_deposit_outcome(
                old(self)@,
                final(self)@,
                r,
                invoker@,
                request_id@,
                user_address@,
                amount,
                user_index@,
                encrypted_amount@,
                encrypted_key_user@,
                encrypted_key_server@,
                timestamp,
            ),
    {
        if !self.is_authority(invoker) {
            return Err(ContractError::Unauthorized);
        }
        if self.is_deposit_completed(&request_id) {
            return Err(ContractError::AlreadyCompleted);
        }
        let new_supply = match self.supply.checked_add(amount) {
            Some(s) => s,
            None => return Err(ContractError::SupplyOverflow),
        };
        self.supply = new_supply;
        let event = BalanceStored {
            request_id,
            user: user_address,
            encrypted_amount: copy_bytes(&encrypted_amount),
            encrypted_key_user: copy_bytes(&encrypted_key_user),
            encrypted_key_server: copy_bytes(&encrypted_key_server),
        };
        let record = EncryptedBalance {
            encrypted_amount,
            encrypted_key_user,
            encrypted_key_server,
            timestamp,
            exists: true,
        };
        self.balances.insert(user_index.as_slice(), record);
        self.deposit_completed.insert(request_id.as_slice(), true);
        Ok(event)
    }

    /// Fulfills a deposit, stamping the balance record with the host's
    /// current ledger time.
    pub fn store_deposit(
        &mut self,
        env: &Env,
        invoker: &Address,
        request_id: [u8; 32],
        user_address: Address,
        amount: i128,
        user_index: [u8; 32],
        encrypted_amount: Vec<u8>,
        encrypted_key_user: Vec<u8>,
        encrypted_key_server: Vec<u8>,
    ) -> (r: Result<BalanceStored, ContractError>)
        requires
            old(self).wf(),
        ensures
            final(self).wf(),
            store_deposit_outcome(
                old(self)@,
                final(self)@,
                r,
                invoker@,
                request_id@,
                user_address@,
                amount,
                user_index@,
                encrypted_amount@,
                encrypted_key_user@,
                encrypted_key_server@,
                final(self)@.balances[user_index@].timestamp,
            ),
    {
        let timestamp = ledger_timestamp(env);
        self.store_deposit_at(
            timestamp,
            invoker,
            request_id,
            user_address,
            amount,
            user_index,
            encrypted_amount,
            encrypted_key_user,
            encrypted_key_server,
        )
    }

    fn is_authority(&self, who: &Address) -> (r: bool)
        ensures
            r == self@.is_authority(who@),
    {
        match &self.config {
            Some(c) => c.0.same_as(who),
            None => false,
        }
    }

    fn is_deposit_completed(&self, request_id: &[u8; 32]) -> (r: bool)
        requires
            self.wf(),
        ensures
            r == self@.deposit_done(request_id@),
    {
        match self.deposit_completed.get(request_id.as_slice()) {
            Some(done) => *done,
            None => false,
        }
    }

    /// Fulfills a transfer at the given ledger time: replaces the sender's
    /// and then the receiver's balance record and marks the transfer
    /// completed. Only the authority may call it, once per transfer.
    pub fn process_transfer_at(
        &mut self,
        timestamp: u64,
        invoker: &Address,
        transfer_id: [u8; 32],
        sender_index: [u8; 32],
        receiver_index: [u8; 32],
        sender_new_encrypted_balance: Vec<u8>,
        sender_encrypted_key_user: Vec<u8>,
        sender_encrypted_key_server: Vec<u8>,
        receiver_new_encrypted_balance: Vec<u8>,
        receiver_encrypted_key_user: Vec<u8>,
        receiver_encrypted_key_server: Vec<u8>,
    ) -> (r: Result<TransferCompleted, ContractError>)
        requires
            old(self).wf(),
        ensures
            final(self).wf(),
            process_transfer_outcome(
                old(self)@,
                final(self)@,
                r,
                invoker@,
                transfer_id@,
                sender_index@,
                receiver_index@,
                stored_balance(
                    sender_new_encrypted_balance@,
                    sender_encrypted_key_user@,
                    sender_encrypted_key_server@,
                    timestamp,
                ),
                stored_balance(
                    receiver_new_encrypted_balance@,
                    receiver_encrypted_key_user@,
                    receiver_encrypted_key_server@,
                    timestamp,
                ),
            ),
    {
        if !self.is_authority(invoker) {
            return Err(ContractError::Unauthorized);
        }
        if self.is_transfer_completed(&transfer_id) {
            return Err(ContractError::AlreadyCompleted);
        }
        let event = TransferCompleted {
            transfer_id,
            sender_index,
            receiver_index,
            sender_new_encrypted_balance: copy_bytes(&sender_new_encrypted_balance),
            receiver_new_encrypted_balance: copy_bytes(&receiver_new_encrypted_balance),
        };
        let sender_record = EncryptedBalance {
            encrypted_amount: sender_new_encrypted_balance,
            encrypted_key_user: sender_encrypted_key_user,
            encrypted_key_server: sender_encrypted_key_server,
            timestamp,
            exists: true,
        };
        self.balances.insert(sender_index.as_slice(), sender_record);
        let receiver_record = EncryptedBalance {
            encrypted_amount: receiver_new_encrypted_balance,
            encrypted_key_user: receiver_encrypted_key_user,
            encrypted_key_server: receiver_encrypted_key_server,
            timestamp,
            exists: true,
        };
        self.balances.insert(receiver_index.as_slice(), receiver_record);
        self.transfer_completed.insert(transfer_id.as_slice(), true);
        Ok(event)
    }

    /// Fulfills a transfer, stamping both balance records with the host's
    /// current ledger time.
    pub fn process_transfer(
        &mut self,
        env: &Env,
        invoker: &Address,
        transfer_id: [u8; 32],
        sender_index: [u8; 32],
        receiver_index: [u8; 32],
        sender_new_encrypted_balance: Vec<u8>,
        sender_encrypted_key_user: Vec<u8>,
        sender_encrypted_key_server: Vec<u8>,
        receiver_new_encrypted_balance: Vec<u8>,
        receiver_encrypted_key_user: Vec<u8>,
        receiver_encrypted_key_server: Vec<u8>,
    ) -> (r: Result<TransferCompleted, ContractError>)
        requires
            old(self).wf(),
        ensures
            final(self).wf(),
            ({
                let t = final(self)@.balances[receiver_index@].timestamp;
                process_transfer_outcome(
                    old(self)@,
                    final(self)@,
                    r,
                    invoker@,
                    transfer_id@,
                    sender_index@,
                    receiver_index@,
                    stored_balance(
                        sender_new_encrypted_balance@,
                        sender_encrypted_key_user@,
                        sender_encrypted_key_server@,
                        t,
                    ),
                    stored_balance(
                        receiver_new_encrypted_balance@,
                        receiver_encrypted_key_user@,
                        receiver_encrypted_key_server@,
                        t,
                    ),
                )
            }),
    {
        let timestamp = ledger_timestamp(env);
        self.process_transfer_at(
            timestamp,
            invoker,
            transfer_id,
            sender_index,
            receiver_index,
            sender_new_encrypted_balance,
            sender_encrypted_key_user,
            sender_encrypted_key_server,
            receiver_new_encrypted_balance,
            receiver_encrypted_key_user,
            receiver_encrypted_key_server,
        )
    }

    /// Records a deposit request under `request_id` at the given ledger
    /// clock. The amount must be positive and the ledger initialized; the
    /// requester's index is registered if the requester has none.
    pub fn record_deposit_request(
        &mut self,
        request_id: [u8; 32],
        clock: LedgerClock,
        user: Address,
        amount: i128,
        encrypted_index: Vec<u8>,
    ) -> (r: Result<DepositRequested, ContractError>)
        requires
            old(self).wf(),
        ensures
            final(self).wf(),
            request_deposit_outcome(
                old(self)@,
                final(self)@,
                r,
                DepositModel {
                    request_id: request_id@,
                    user: user@,
                    amount,
                    timestamp: clock.timestamp,
                    ledger: clock.sequence,
                    encrypted_index: encrypted_index@,
                },
            ),
    {
        if amount <= 0 {
            return Err(ContractError::InvalidAmount);
        }
        let token = match &self.config {
            Some(c) => c.1.duplicate(),
            None => return Err(ContractError::NotInitialized),
        };
        let registered = self.user_index.get(user.bytes.as_slice()).is_some();
        if !registered {
            self.user_index.insert(user.bytes.as_slice(), copy_bytes(&encrypted_index));
        }
        let event = DepositRequested {
            request_id,
            packed_data: copy_bytes(&encrypted_index),
            encrypted_index: copy_bytes(&encrypted_index),
            custody: CustodyTransfer { token, from: user.duplicate(), amount },
        };
        let record = DepositRequest {
            request_id,
            user,
            amount,
            timestamp: clock.timestamp,
            ledger: clock.sequence,
            encrypted_index,
        };
        self.deposit_requests.insert(request_id.as_slice(), record);
        Ok(event)
    }

    /// Records a deposit request under the Keccak-256 digest of its
    /// encrypted index, at the host's current ledger clock.
    pub fn request_deposit(&mut self, env: &Env, user: Address, amount: i128, encrypted_index: Vec<u8>) -> (r: Result<DepositRequested, ContractError>)
        requires
            old(self).wf(),
        ensures
            final(self).wf(),
            ({
                let id = deposit_id_of(encrypted_index@);
                let stored = final(self)@.deposit_requests[id];
                request_deposit_outcome(
                    old(self)@,
                    final(self)@,
                    r,
                    DepositModel {
                        request_id: id,
                        user: user@,
                        amount,
                        timestamp: stored.timestamp,
                        ledger: stored.ledger,
                        encrypted_index: encrypted_index@,
                    },
                )
            }),
    {
        if amount <= 0 {
            return Err(ContractError::InvalidAmount);
        }
        let request_id = deposit_request_id(env, &encrypted_index);
        let clock = LedgerClock { timestamp: ledger_timestamp(env), sequence: ledger_sequence(env) };
        self.record_deposit_request(request_id, clock, user, amount, encrypted_index)
    }

    /// Records a transfer request under `transfer_id` at the given ledger
    /// clock. No balance changes.
    pub fn record_transfer_request(
        &mut self,
        transfer_id: [u8; 32],
        clock: LedgerClock,
        sender: Address,
        encrypted_receiver_index: Vec<u8>,
        encrypted_amount: Vec<u8>,
    ) -> (r: TransferRequested)
        requires
            old(self).wf(),
        ensures
            final(self).wf(),
            final(self)@ == old(self)@.transfer_requested(
                TransferModel {
                    transfer_id: transfer_id@,
                    sender: sender@,
                    encrypted_receiver_index: encrypted_receiver_index@,
                    encrypted_amount: encrypted_amount@,
                    timestamp: clock.timestamp,
                    ledger: clock.sequence,
                },
            ),
            r.transfer_id == transfer_id,
            r.sender@ == sender@,
            r.encrypted_receiver_index@ == encrypted_receiver_index@,
            r.encrypted_amount@ == encrypted_amount@,
    {
        let event = TransferRequested {
            transfer_id,
            sender: sender.duplicate(),
            encrypted_receiver_index: copy_bytes(&encrypted_receiver_index),
            encrypted_amount: copy_bytes(&encrypted_amount),
        };
        let record = TransferRequest {
            transfer_id,
            sender,
            encrypted_receiver_index,
            encrypted_amount,
            timestamp: clock.timestamp,
            ledger: clock.sequence,
        };
        self.transfer_requests.insert(transfer_id.as_slice(), record);
        event
    }

    /// Records a transfer request under the SHA-256 digest of the encrypted
    /// receiver index followed by the encrypted amount, at the host's
    /// current ledger clock.
    pub fn request_transfer(
        &mut self,
        env: &Env,
        sender: Address,
        encrypted_receiver_index: Vec<u8>,
        encrypted_amount: Vec<u8>,
    ) -> (r: TransferRequested)
        requires
            old(self).wf(),
        ensures
            final(self).wf(),
            ({
                let id = transfer_id_of(encrypted_receiver_index@, encrypted_amount@);
                let stored = final(self)@.transfer_requests[id];
                final(self)@ == old(self)@.transfer_requested(
                    TransferModel {
                        transfer_id: id,
                        sender: sender@,
                        encrypted_receiver_index: encrypted_receiver_index@,
                        encrypted_amount: encrypted_amount@,
                        timestamp: stored.timestamp,
                        ledger: stored.ledger,
                    },
                )
            }),
            r.transfer_id@ == transfer_id_of(encrypted_receiver_index@, encrypted_amount@),
            r.sender@ == sender@,
            r.encrypted_receiver_index@ == encrypted_receiver_index@,
            r.encrypted_amount@ == encrypted_amount@,
    {
        let transfer_id = transfer_request_id(env, &encrypted_receiver_index, &encrypted_amount);
        let clock = LedgerClock { timestamp: ledger_timestamp(env), sequence: ledger_sequence(env) };
        self.record_transfer_request(transfer_id, clock, sender, encrypted_receiver_index, encrypted_amount)
    }

    fn is_transfer_completed(&self, transfer_id: &[u8; 32]) -> (r: bool)
        requires
            self.wf(),
        ensures
            r == self@.transfer_done(transfer_id@),
    {
        match self.transfer_completed.get(transfer_id.as_slice()) {
            Some(done) => *done,
            None => false,
        }
    }
    /// Registers `encrypted_index` as the account index of `user`,
    /// replacing any earlier one. Only `user` itself may call it.
    pub fn authenticate_user(&mut self, invoker: &Address, user: Address, encrypted_index: Vec<u8>) -> (r: Result<UserAuthenticated, ContractError>)
        requires
            old(self).wf(),
        ensures
            final(self).wf(),
            authenticate_outcome(old(self)@, final(self)@, r, invoker@, user@, encrypted_index@),
    {
        if !invoker.same_as(&user) {
            return Err(ContractError::Unauthorized);
        }
        self.user_index.insert(user.bytes.as_slice(), copy_bytes(&encrypted_index));
        Ok(UserAuthenticated { user, encrypted_index })
    }

    /// The account index registered for an identity; empty when none is.
    pub fn get_user_index_by_address(&self, user_address: &Address) -> (r: Vec<u8>)
        requires
            self.wf(),
        ensures
            r@ == self@.index_of(user_address@),
    {
        match self.user_index.get(user_address.bytes.as_slice()) {
            Some(index) => copy_bytes(index),
            None => Vec::new(),
        }
    }

    /// The balance record at an account index; a record with empty fields
    /// and `exists == false` when none was ever stored there.
    pub fn get_encrypted_balance(&self, user_index: &[u8; 32]) -> (r: EncryptedBalance)
        requires
            self.wf(),
        ensures
            r@ == self@.balance(user_index@),
    {
        match self.balances.get(user_index.as_slice()) {
            Some(record) => record.duplicate(),
            None => EncryptedBalance {
                encrypted_amount: Vec::new(),
                encrypted_key_user: Vec::new(),
                encrypted_key_server: Vec::new(),
                timestamp: 0,
                exists: false,
            },
        }
    }

    /// The deposit request recorded under an identifier; an empty request
    /// from the all-zero account when there is none.
    pub fn get_deposit_request(&self, request_id: &[u8; 32]) -> (r: DepositRequest)
        requires
            self.wf(),
        ensures
            r@ == self@.deposit_request(request_id@),
    {
        match self.deposit_requests.get(request_id.as_slice()) {
            Some(record) => record.duplicate(),
            None => DepositRequest {
                request_id: *request_id,
                user: zero_account_address(),
                amount: 0,
                timestamp: 0,
                ledger: 0,
                encrypted_index: Vec::new(),
            },
        }
    }

    pub fn deposit_completed(&self, request_id: &[u8; 32]) -> (r: bool)
        requires
            self.wf(),
        ensures
            r == self@.deposit_done(request_id@),
    {
        self.is_deposit_completed(request_id)
    }

    /// The total of all fulfilled deposit amounts.
    pub fn encrypted_supply(&self) -> (r: i128)
        ensures
            r == self@.supply,
    {
        self.supply
    }

    /// The transfer request recorded under an identifier; an empty request
    /// from the all-zero account when there is none.
    pub fn get_transfer_request(&self, transfer_id: &[u8; 32]) -> (r: TransferRequest)
        requires
            self.wf(),
        ensures
            r@ == self@.transfer_request(transfer_id@),
    {
        match self.transfer_requests.get(transfer_id.as_slice()) {
            Some(record) => record.duplicate(),
            None => TransferRequest {
                transfer_id: *transfer_id,
                sender: zero_account_address(),
                encrypted_receiver_index: Vec::new(),
                encrypted_amount: Vec::new(),
                timestamp: 0,
                ledger: 0,
            },
        }
    }

    pub fn transfer_completed(&self, transfer_id: &[u8; 32]) -> (r: bool)
        requires
            self.wf(),
        ensures
            r == self@.transfer_done(transfer_id@),
    {
        self.is_transfer_completed(transfer_id)
    }

    /// The authority; an empty address before initialization.
    pub fn get_server_manager(&self) -> (r: Address)
        ensures
            r@ == match self@.config {
                Some(c) => c.0,
                None => Seq::empty(),
            },
    {
        match &self.config {
            Some(c) => c.0.duplicate(),
            None => Address::new(Vec::new()),
        }
    }

    /// The custody asset; an empty address before initialization.
    pub fn get_token_contract(&self) -> (r: Address)
        ensures
            r@ == match self@.config {
                Some(c) => c.1,
                None => Seq::empty(),
            },
    {
        match &self.config {
            Some(c) => c.1.duplicate(),
            None => Address::new(Vec::new()),
        }
    }
}

} // verus!
