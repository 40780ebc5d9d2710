//! Request identifiers, derived by the host's hash functions, and the host's
//! ledger clock.
use vstd::prelude::*;
use soroban_sdk::{Bytes, Env};

verus! {

#[verifier::external_type_specification]
#[verifier::external_body]
pub struct ExEnv(Env);

/// The Keccak-256 digest of a byte string.
pub uninterp spec fn keccak256_of(data: Seq<u8>) -> Seq<u8>;

/// The SHA-256 digest of a byte string.
pub uninterp spec fn sha256_of(data: Seq<u8>) -> Seq<u8>;

/// Relies on soroban_sdk's `Crypto::keccak256`, which returns the 32-byte
/// Keccak-256 digest of its input (the host aborts the whole invocation,
/// rather than return, if its metering budget runs out).
#[verifier::external_body]
fn keccak256(env: &Env, data: &[u8]) -> (r: [u8; 32])
    ensures
        r@ == keccak256_of(data@),
{
    env.crypto().keccak256(&Bytes::from_slice(env, data)).to_array()
}

/// Relies on soroban_sdk's `Crypto::sha256`, which returns the 32-byte
/// SHA-256 digest of its input (the host aborts the whole invocation,
/// rather than return, if its metering budget runs out).
#[verifier::external_body]
fn sha256(env: &Env, data: &[u8]) -> (r: [u8; 32])
    ensures
        r@ == sha256_of(data@),
{
    env.crypto().sha256(&Bytes::from_slice(env, data)).to_array()
}

/// Relies on soroban_sdk's `Ledger::timestamp`: the close time of the
/// current ledger, whatever the host reports.
#[verifier::external_body]
pub(crate) fn ledger_timestamp(env: &Env) -> (r: u64) {
    env.ledger().timestamp()
}

/// Relies on soroban_sdk's `Ledger::sequence`: the current ledger number,
/// whatever the host reports.
#[verifier::external_body]
pub(crate) fn ledger_sequence(env: &Env) -> (r: u32) {
    env.ledger().sequence()
}

/// The identifier of a deposit request: the Keccak-256 digest of the
/// encrypted account index it carries.
pub open spec fn deposit_id_of(encrypted_index: Seq<u8>) -> Seq<u8> {
    keccak256_of(encrypted_index)
}

/// The identifier of a transfer request: the SHA-256 digest of the encrypted
/// receiver index followed by the encrypted amount.
pub open spec fn transfer_id_of(encrypted_receiver_index: Seq<u8>, encrypted_amount: Seq<u8>) -> Seq<u8> {
    sha256_of(encrypted_receiver_index + encrypted_amount)
}

pub fn deposit_request_id(env: &Env, encrypted_index: &Vec<u8>) -> (r: [u8; 32])
    ensures
        r@ == deposit_id_of(encrypted_index@),
{
    keccak256(env, encrypted_index.as_slice())
}

pub fn transfer_request_id(env: &Env, encrypted_receiver_index: &Vec<u8>, encrypted_amount: &Vec<u8>) -> (r: [u8; 32])
    ensures
        r@ == transfer_id_of(encrypted_receiver_index@, encrypted_amount@),
{
    let mut input: Vec<u8> = Vec::new();
    let mut i: usize = 0;
    while i < encrypted_receiver_index.len()
        invariant
            i <= encrypted_receiver_index@.len(),
            input@ == encrypted_receiver_index@.subrange(0, i as int),
        decreases encrypted_receiver_index@.len() - i,
    {
        input.push(encrypted_receiver_index[i]);
        i = i + 1;
    }
    let mut j: usize = 0;
    while j < encrypted_amount.len()
        invariant
            j <= encrypted_amount@.len(),
            input@ == encrypted_receiver_index@ + encrypted_amount@.subrange(0, j as int),
        decreases encrypted_amount@.len() - j,
    {
        input.push(encrypted_amount[j]);
        j = j + 1;
    }
    assert(encrypted_receiver_index@.subrange(0, encrypted_receiver_index@.len() as int) =~= encrypted_receiver_index@);
    assert(encrypted_amount@.subrange(0, encrypted_amount@.len() as int) =~= encrypted_amount@);
    sha256(env, input.as_slice())
}

} // verus!
