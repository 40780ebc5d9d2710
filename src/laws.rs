//! Properties of sequences of calls, stated over the outcomes that the
//! ledger's operations promise.
use vstd::prelude::*;
use crate::digest::deposit_id_of;
use crate::ledger::{
    authenticate_outcome, process_transfer_outcome, request_deposit_outcome,
    store_deposit_outcome, LedgerModel,
};
use crate::records::{
    BalanceModel, BalanceStored, ContractError, DepositModel, DepositRequested,
    TransferCompleted, UserAuthenticated,
};

verus! {

/// A deposit request for a positive amount `a`, followed by the successful
/// fulfillment of the request under its derived identifier with the same
/// amount, raises the supply by exactly `a`; the request alone leaves the
/// supply unchanged.
pub proof fn lemma_deposit_raises_supply(
    s0: LedgerModel,
    s1: LedgerModel,
    s2: LedgerModel,
    r1: Result<DepositRequested, ContractError>,
    r2: Result<BalanceStored, ContractError>,
    user: Seq<u8>,
    amount: i128,
    encrypted_index: Seq<u8>,
    timestamp: u64,
    ledger: u32,
    invoker: Seq<u8>,
    account_index: Seq<u8>,
    encrypted_amount: Seq<u8>,
    encrypted_key_user: Seq<u8>,
    encrypted_key_server: Seq<u8>,
    stored_at: u64,
)
    requires
        amount > 0,
        request_deposit_outcome(
            s0,
            s1,
            r1,
            DepositModel {
                request_id: deposit_id_of(encrypted_index),
                user,
                amount,
                timestamp,
                ledger,
                encrypted_index,
            },
        ),
        r1 is Ok,
        store_deposit_outcome(
            s1,
            s2,
            r2,
            invoker,
            deposit_id_of(encrypted_index),
            user,
            amount,
            account_index,
            encrypted_amount,
            encrypted_key_user,
            encrypted_key_server,
            stored_at,
        ),
        r2 is Ok,
    ensures
        s1.supply == s0.supply,
        s2.supply == s0.supply + amount,
        s2.supply > s0.supply,
        s2.deposit_done(deposit_id_of(encrypted_index)),
{
}

/// Once a deposit is fulfilled, fulfilling the same request again by the
/// same invoker is refused as already completed and changes nothing.
pub proof fn lemma_store_deposit_at_most_once(
    s0: LedgerModel,
    s1: LedgerModel,
    s2: LedgerModel,
    r1: Result<BalanceStored, ContractError>,
    r2: Result<BalanceStored, ContractError>,
    invoker: Seq<u8>,
    request_id: Seq<u8>,
    user1: Seq<u8>,
    amount1: i128,
    index1: Seq<u8>,
    amount_ct1: Seq<u8>,
    key_user1: Seq<u8>,
    key_server1: Seq<u8>,
    time1: u64,
    user2: Seq<u8>,
    amount2: i128,
    index2: Seq<u8>,
    amount_ct2: Seq<u8>,
    key_user2: Seq<u8>,
    key_server2: Seq<u8>,
    time2: u64,
)
    requires
        store_deposit_outcome(
            s0,
            s1,
            r1,
            invoker,
            request_id,
            user1,
            amount1,
            index1,
            amount_ct1,
            key_user1,
            key_server1,
            time1,
        ),
        r1 is Ok,
        store_deposit_outcome(
            s1,
            s2,
            r2,
            invoker,
            request_id,
            user2,
            amount2,
            index2,
            amount_ct2,
            key_user2,
            key_server2,
            time2,
        ),
    ensures
        r2 == Err::<BalanceStored, ContractError>(ContractError::AlreadyCompleted),
        s2 == s1,
{
}

/// Once a transfer is processed, processing it again by the same invoker is
/// refused as already completed and changes nothing.
pub proof fn lemma_process_transfer_at_most_once(
    s0: LedgerModel,
    s1: LedgerModel,
    s2: LedgerModel,
    r1: Result<TransferCompleted, ContractError>,
    r2: Result<TransferCompleted, ContractError>,
    invoker: Seq<u8>,
    transfer_id: Seq<u8>,
    sender_index1: Seq<u8>,
    receiver_index1: Seq<u8>,
    sender_balance1: BalanceModel,
    receiver_balance1: BalanceModel,
    sender_index2: Seq<u8>,
    receiver_index2: Seq<u8>,
    sender_balance2: BalanceModel,
    receiver_balance2: BalanceModel,
)
    requires
        process_transfer_outcome(
            s0,
            s1,
            r1,
            invoker,
            transfer_id,
            sender_index1,
            receiver_index1,
            sender_balance1,
            receiver_balance1,
        ),
        r1 is Ok,
        process_transfer_outcome(
            s1,
            s2,
            r2,
            invoker,
            transfer_id,
            sender_index2,
            receiver_index2,
            sender_balance2,
            receiver_balance2,
        ),
    ensures
        r2 == Err::<TransferCompleted, ContractError>(ContractError::AlreadyCompleted),
        s2 == s1,
{
}

/// Registering two indices for one user in turn leaves only the second:
/// the result is as if the first registration had never happened, and the
/// lookup returns the second index.
pub proof fn lemma_authenticate_last_write_wins(
    s0: LedgerModel,
    s1: LedgerModel,
    s2: LedgerModel,
    r1: Result<UserAuthenticated, ContractError>,
    r2: Result<UserAuthenticated, ContractError>,
    user: Seq<u8>,
    first_index: Seq<u8>,
    second_index: Seq<u8>,
)
    requires
        authenticate_outcome(s0, s1, r1, user, user, first_index),
        authenticate_outcome(s1, s2, r2, user, user, second_index),
    ensures
        r1 is Ok,
        r2 is Ok,
        s2 == s0.authenticated(user, second_index),
        s2.index_of(user) == second_index,
{
    assert(s2.user_index =~= s0.user_index.insert(user, second_index));
}

/// A successful deposit fulfillment leaves the targeted account index with
/// an existing record holding the given ciphertexts, and every other index
/// as it was.
pub proof fn lemma_store_deposit_writes_only_its_index(
    s0: LedgerModel,
    s1: LedgerModel,
    r: Result<BalanceStored, ContractError>,
    invoker: Seq<u8>,
    request_id: Seq<u8>,
    user: Seq<u8>,
    amount: i128,
    user_index: Seq<u8>,
    encrypted_amount: Seq<u8>,
    encrypted_key_user: Seq<u8>,
    encrypted_key_server: Seq<u8>,
    timestamp: u64,
    other: Seq<u8>,
)
    requires
        store_deposit_outcome(
            s0,
            s1,
            r,
            invoker,
            request_id,
            user,
            amount,
            user_index,
            encrypted_amount,
            encrypted_key_user,
            encrypted_key_server,
            timestamp,
        ),
        r is Ok,
        other != user_index,
    ensures
        s1.balance(user_index).exists,
        s1.balance(user_index).encrypted_amount == encrypted_amount,
        s1.balance(other) == s0.balance(other),
{
}

/// A successful transfer fulfillment leaves both targeted account indices
/// with existing records, and every other index as it was.
pub proof fn lemma_process_transfer_writes_only_its_indices(
    s0: LedgerModel,
    s1: LedgerModel,
    r: Result<TransferCompleted, ContractError>,
    invoker: Seq<u8>,
    transfer_id: Seq<u8>,
    sender_index: Seq<u8>,
    receiver_index: Seq<u8>,
    sender_balance: BalanceModel,
    receiver_balance: BalanceModel,
    other: Seq<u8>,
)
    requires
        process_transfer_outcome(
            s0,
            s1,
            r,
            invoker,
            transfer_id,
            sender_index,
            receiver_index,
            sender_balance,
            receiver_balance,
        ),
        r is Ok,
        sender_balance.exists,
        receiver_balance.exists,
        other != sender_index,
        other != receiver_index,
    ensures
        s1.balance(sender_index).exists,
        s1.balance(receiver_index) == receiver_balance,
        s1.balance(other) == s0.balance(other),
{
}

} // verus!
