use encrypted_token::digest::{deposit_request_id, transfer_request_id};
use encrypted_token::ledger::EncryptedTokenContract;
use encrypted_token::records::{ContractError, LedgerClock};
use encrypted_token::Address;
use soroban_sdk::testutils::{EnvTestConfig, Ledger as _};
use soroban_sdk::Env;

fn test_env() -> Env {
    Env::new_with_config(EnvTestConfig { capture_snapshot_at_drop: false })
}

fn addr(s: &str) -> Address {
    Address::new(s.as_bytes().to_vec())
}

fn hex(s: &str) -> [u8; 32] {
    let mut out = [0u8; 32];
    for i in 0..32 {
        out[i] = u8::from_str_radix(&s[2 * i..2 * i + 2], 16).unwrap();
    }
    out
}

fn initialized(authority: &Address, token: &Address) -> EncryptedTokenContract {
    let mut c = EncryptedTokenContract::new();
    c.initialize(authority.clone(), token.clone()).unwrap();
    c
}

#[test]
fn test_initialize() {
    let server_manager = addr("GSERVERMANAGER");
    let token_contract = addr("CTOKEN");
    let mut c = EncryptedTokenContract::new();
    c.initialize(server_manager.clone(), token_contract.clone()).unwrap();
    assert_eq!(c.get_server_manager(), server_manager);
    assert_eq!(c.get_token_contract(), token_contract);
    assert_eq!(c.encrypted_supply(), 0);
}

#[test]
fn test_authenticate_user() {
    let c0 = (addr("GSERVERMANAGER"), addr("CTOKEN"));
    let mut c = initialized(&c0.0, &c0.1);
    let user = addr("GUSER");
    let encrypted_index = vec![1u8; 32];
    c.authenticate_user(&user, user.clone(), encrypted_index.clone()).unwrap();
    let stored_index = c.get_user_index_by_address(&user);
    assert_eq!(stored_index, encrypted_index);
}

#[test]
fn initialize_twice_is_refused() {
    let mut c = initialized(&addr("GA"), &addr("CT"));
    assert_eq!(c.initialize(addr("GB"), addr("CU")), Err(ContractError::AlreadyInitialized));
    assert_eq!(c.get_server_manager(), addr("GA"));
    assert_eq!(c.get_token_contract(), addr("CT"));
}

#[test]
fn reads_before_initialize_are_empty() {
    let c = EncryptedTokenContract::new();
    assert_eq!(c.get_server_manager(), addr(""));
    assert_eq!(c.get_token_contract(), addr(""));
    assert_eq!(c.encrypted_supply(), 0);
    assert_eq!(c.get_user_index_by_address(&addr("GUSER")), Vec::<u8>::new());
}

#[test]
fn authenticate_by_another_identity_is_refused() {
    let mut c = initialized(&addr("GA"), &addr("CT"));
    let r = c.authenticate_user(&addr("GMALLORY"), addr("GUSER"), vec![9u8; 32]);
    assert_eq!(r.err(), Some(ContractError::Unauthorized));
    assert_eq!(c.get_user_index_by_address(&addr("GUSER")), Vec::<u8>::new());
}

#[test]
fn authenticate_last_write_wins() {
    let mut c = initialized(&addr("GA"), &addr("CT"));
    let user = addr("GUSER");
    let ev = c.authenticate_user(&user, user.clone(), vec![1u8; 32]).unwrap();
    assert_eq!(ev.encrypted_index, vec![1u8; 32]);
    assert_eq!(c.get_user_index_by_address(&user), vec![1u8; 32]);
    c.authenticate_user(&user, user.clone(), vec![2u8; 32]).unwrap();
    assert_eq!(c.get_user_index_by_address(&user), vec![2u8; 32]);
}

#[test]
fn deposit_id_is_keccak256_of_index() {
    let env = test_env();
    assert_eq!(
        deposit_request_id(&env, &b"abc".to_vec()),
        hex("4e03657aea45a94fc7d47ba826c8d667c0d1e6e33a64a036ec44f58fa12d6c45")
    );
    assert_eq!(
        deposit_request_id(&env, &Vec::new()),
        hex("c5d2460186f7233c927e7db2dcc703c0e500b653ca82273b7bfad8045d85a470")
    );
}

#[test]
fn transfer_id_is_sha256_of_receiver_then_amount() {
    let env = test_env();
    let abc = hex("ba7816bf8f01cfea414140de5dae2223b00361a396177a9cb410ff61f20015ad");
    assert_eq!(transfer_request_id(&env, &b"ab".to_vec(), &b"c".to_vec()), abc);
    assert_eq!(transfer_request_id(&env, &b"a".to_vec(), &b"bc".to_vec()), abc);
    assert_ne!(transfer_request_id(&env, &b"c".to_vec(), &b"ab".to_vec()), abc);
    assert_eq!(
        transfer_request_id(&env, &Vec::new(), &Vec::new()),
        hex("e3b0c44298fc1c149afbf4c8996fb92427ae41e4649b934ca495991b7852b855")
    );
}

#[test]
fn deposit_request_rejects_non_positive_amounts() {
    let env = test_env();
    let mut c = initialized(&addr("GA"), &addr("CT"));
    let user = addr("GUSER");
    let index = vec![7u8; 32];
    let id = deposit_request_id(&env, &index);
    for amount in [0i128, -1, i128::MIN] {
        let r = c.request_deposit(&env, user.clone(), amount, index.clone());
        assert_eq!(r.err(), Some(ContractError::InvalidAmount));
    }
    assert_eq!(c.get_deposit_request(&id).amount, 0);
    assert_eq!(c.get_deposit_request(&id).user, addr("GAAAAAAAAAAAAAAAAAAAAAAAAAAAAAAAAAAAAAAAAAAAAAAAAAAAAWHF"));
    assert_eq!(c.get_user_index_by_address(&user), Vec::<u8>::new());
}

#[test]
fn deposit_request_before_initialize_is_refused() {
    let env = test_env();
    let mut c = EncryptedTokenContract::new();
    let r = c.request_deposit(&env, addr("GUSER"), 5, vec![7u8; 32]);
    assert_eq!(r.err(), Some(ContractError::NotInitialized));
    assert_eq!(c.get_user_index_by_address(&addr("GUSER")), Vec::<u8>::new());
}

#[test]
fn deposit_request_is_recorded_with_clock() {
    let env = test_env();
    env.ledger().set_timestamp(1_700_000_000);
    env.ledger().set_sequence_number(4242);
    let mut c = initialized(&addr("GA"), &addr("CT"));
    let user = addr("GUSER");
    let index = vec![3u8; 32];
    let ev = c.request_deposit(&env, user.clone(), 250, index.clone()).unwrap();
    let id = deposit_request_id(&env, &index);
    assert_eq!(ev.request_id, id);
    assert_eq!(ev.packed_data, index);
    assert_eq!(ev.encrypted_index, index);
    assert_eq!(ev.custody.token, addr("CT"));
    assert_eq!(ev.custody.from, user);
    assert_eq!(ev.custody.amount, 250);
    let req = c.get_deposit_request(&id);
    assert_eq!(req.request_id, id);
    assert_eq!(req.user, user);
    assert_eq!(req.amount, 250);
    assert_eq!(req.timestamp, 1_700_000_000);
    assert_eq!(req.ledger, 4242);
    assert_eq!(req.encrypted_index, index);
    assert_eq!(c.get_user_index_by_address(&user), index);
    assert!(!c.deposit_completed(&id));
}

#[test]
fn deposit_request_keeps_existing_registration() {
    let env = test_env();
    let mut c = initialized(&addr("GA"), &addr("CT"));
    let user = addr("GUSER");
    c.authenticate_user(&user, user.clone(), vec![1u8; 32]).unwrap();
    c.request_deposit(&env, user.clone(), 10, vec![2u8; 32]).unwrap();
    assert_eq!(c.get_user_index_by_address(&user), vec![1u8; 32]);
}

#[test]
fn record_deposit_request_uses_given_id_and_clock() {
    let mut c = initialized(&addr("GA"), &addr("CT"));
    let id = [5u8; 32];
    let clock = LedgerClock { timestamp: 77, sequence: 8 };
    let ev = c.record_deposit_request(id, clock, addr("GUSER"), 9, vec![4u8; 3]).unwrap();
    assert_eq!(ev.request_id, id);
    let req = c.get_deposit_request(&id);
    assert_eq!((req.amount, req.timestamp, req.ledger), (9, 77, 8));
    assert_eq!(req.encrypted_index, vec![4u8; 3]);
}

#[test]
fn untouched_balance_does_not_exist() {
    let c = initialized(&addr("GA"), &addr("CT"));
    let b = c.get_encrypted_balance(&[42u8; 32]);
    assert!(!b.exists);
    assert!(b.encrypted_amount.is_empty());
    assert!(b.encrypted_key_user.is_empty());
    assert!(b.encrypted_key_server.is_empty());
    assert_eq!(b.timestamp, 0);
}

#[test]
fn deposit_then_store_raises_supply_by_amount() {
    let env = test_env();
    let authority = addr("GA");
    let mut c = initialized(&authority, &addr("CT"));
    let user = addr("GUSER");
    let index = vec![3u8; 32];
    c.request_deposit(&env, user.clone(), 40, index.clone()).unwrap();
    let id = deposit_request_id(&env, &index);
    let before = c.encrypted_supply();
    c.store_deposit(&env, &authority, id, user.clone(), 40, [3u8; 32], vec![1], vec![2], vec![3]).unwrap();
    assert_eq!(c.encrypted_supply(), before + 40);
    c.request_deposit(&env, user.clone(), 2, vec![4u8; 32]).unwrap();
    let id2 = deposit_request_id(&env, &vec![4u8; 32]);
    c.store_deposit(&env, &authority, id2, user, 2, [3u8; 32], vec![5], vec![6], vec![7]).unwrap();
    assert_eq!(c.encrypted_supply(), 42);
    let b = c.get_encrypted_balance(&[3u8; 32]);
    assert_eq!(b.encrypted_amount, vec![5]);
}

#[test]
fn store_deposit_twice_is_refused() {
    let env = test_env();
    env.ledger().set_timestamp(500);
    let authority = addr("GA");
    let mut c = initialized(&authority, &addr("CT"));
    let id = [8u8; 32];
    let ev = c.store_deposit(&env, &authority, id, addr("GUSER"), 10, [1u8; 32], vec![1], vec![2], vec![3]).unwrap();
    assert_eq!(ev.request_id, id);
    assert_eq!(ev.user, addr("GUSER"));
    assert_eq!((ev.encrypted_amount, ev.encrypted_key_user, ev.encrypted_key_server), (vec![1], vec![2], vec![3]));
    let r = c.store_deposit(&env, &authority, id, addr("GUSER"), 99, [2u8; 32], vec![9], vec![9], vec![9]);
    assert_eq!(r.err(), Some(ContractError::AlreadyCompleted));
    assert_eq!(c.encrypted_supply(), 10);
    let b = c.get_encrypted_balance(&[1u8; 32]);
    assert_eq!((b.encrypted_amount, b.timestamp, b.exists), (vec![1], 500, true));
    assert!(!c.get_encrypted_balance(&[2u8; 32]).exists);
}

#[test]
fn store_deposit_requires_authority() {
    let env = test_env();
    let mut c = initialized(&addr("GA"), &addr("CT"));
    let r = c.store_deposit(&env, &addr("GMALLORY"), [8u8; 32], addr("GUSER"), 10, [1u8; 32], vec![1], vec![2], vec![3]);
    assert_eq!(r.err(), Some(ContractError::Unauthorized));
    assert!(!c.deposit_completed(&[8u8; 32]));
    assert_eq!(c.encrypted_supply(), 0);
    let mut fresh = EncryptedTokenContract::new();
    let r = fresh.store_deposit_at(1, &addr("GA"), [8u8; 32], addr("GUSER"), 10, [1u8; 32], vec![], vec![], vec![]);
    assert_eq!(r.err(), Some(ContractError::Unauthorized));
}

#[test]
fn store_deposit_refuses_supply_overflow() {
    let authority = addr("GA");
    let mut c = initialized(&authority, &addr("CT"));
    c.store_deposit_at(1, &authority, [1u8; 32], addr("GU"), i128::MAX, [1u8; 32], vec![], vec![], vec![]).unwrap();
    let r = c.store_deposit_at(2, &authority, [2u8; 32], addr("GU"), 1, [2u8; 32], vec![], vec![], vec![]);
    assert_eq!(r.err(), Some(ContractError::SupplyOverflow));
    assert_eq!(c.encrypted_supply(), i128::MAX);
    assert!(!c.deposit_completed(&[2u8; 32]));
    assert!(!c.get_encrypted_balance(&[2u8; 32]).exists);
}

#[test]
fn full_deposit_scenario() {
    let env = test_env();
    let a = addr("GAUTHORITY");
    let t = addr("CTOKEN");
    let u = addr("GUSER");
    let x = vec![0xabu8; 32];
    let mut c = EncryptedTokenContract::new();
    c.initialize(a.clone(), t.clone()).unwrap();
    c.request_deposit(&env, u.clone(), 100, x.clone()).unwrap();
    let id = deposit_request_id(&env, &x);
    c.store_deposit(&env, &a, id, u.clone(), 100, [0xabu8; 32], vec![10, 11], vec![12], vec![13]).unwrap();
    assert_eq!(c.encrypted_supply(), 100);
    assert!(c.deposit_completed(&id));
    assert!(c.get_encrypted_balance(&[0xabu8; 32]).exists);
}

#[test]
fn full_transfer_scenario() {
    let env = test_env();
    env.ledger().set_timestamp(900);
    env.ledger().set_sequence_number(31);
    let a = addr("GAUTHORITY");
    let u = addr("GUSER");
    let mut c = initialized(&a, &addr("CTOKEN"));
    let recv = vec![1u8, 2, 3];
    let amt = vec![4u8, 5];
    let ev = c.request_transfer(&env, u.clone(), recv.clone(), amt.clone());
    let id = transfer_request_id(&env, &recv, &amt);
    assert_eq!(ev.transfer_id, id);
    assert_eq!(ev.sender, u);
    let req = c.get_transfer_request(&id);
    assert_eq!(req.sender, u);
    assert_eq!((req.encrypted_receiver_index, req.encrypted_amount), (recv, amt));
    assert_eq!((req.timestamp, req.ledger), (900, 31));
    assert!(!c.transfer_completed(&id));
    let sx = [1u8; 32];
    let rx = [2u8; 32];
    let done = c
        .process_transfer(&env, &a, id, sx, rx, vec![1], vec![2], vec![3], vec![4], vec![5], vec![6])
        .unwrap();
    assert_eq!((done.sender_index, done.receiver_index), (sx, rx));
    assert_eq!((done.sender_new_encrypted_balance, done.receiver_new_encrypted_balance), (vec![1], vec![4]));
    assert!(c.transfer_completed(&id));
    let s = c.get_encrypted_balance(&sx);
    assert_eq!((s.encrypted_amount, s.encrypted_key_user, s.encrypted_key_server, s.timestamp, s.exists), (vec![1], vec![2], vec![3], 900, true));
    let r = c.get_encrypted_balance(&rx);
    assert_eq!((r.encrypted_amount, r.encrypted_key_user, r.encrypted_key_server), (vec![4], vec![5], vec![6]));
    let again = c.process_transfer(&env, &a, id, sx, rx, vec![9], vec![9], vec![9], vec![9], vec![9], vec![9]);
    assert_eq!(again.err(), Some(ContractError::AlreadyCompleted));
    assert_eq!(c.get_encrypted_balance(&sx).encrypted_amount, vec![1]);
    assert_eq!(c.encrypted_supply(), 0);
}

#[test]
fn process_transfer_requires_authority() {
    let mut c = initialized(&addr("GA"), &addr("CT"));
    let r = c.process_transfer_at(5, &addr("GUSER"), [1u8; 32], [2u8; 32], [3u8; 32], vec![1], vec![1], vec![1], vec![1], vec![1], vec![1]);
    assert_eq!(r.err(), Some(ContractError::Unauthorized));
    assert!(!c.transfer_completed(&[1u8; 32]));
    assert!(!c.get_encrypted_balance(&[2u8; 32]).exists);
}

#[test]
fn process_transfer_to_same_index_keeps_receiver_record() {
    let a = addr("GA");
    let mut c = initialized(&a, &addr("CT"));
    c.process_transfer_at(5, &a, [1u8; 32], [2u8; 32], [2u8; 32], vec![1], vec![1], vec![1], vec![7], vec![8], vec![9]).unwrap();
    let b = c.get_encrypted_balance(&[2u8; 32]);
    assert_eq!((b.encrypted_amount, b.encrypted_key_user, b.encrypted_key_server, b.timestamp), (vec![7], vec![8], vec![9], 5));
}

#[test]
fn unknown_transfer_request_is_empty() {
    let c = EncryptedTokenContract::new();
    let req = c.get_transfer_request(&[6u8; 32]);
    assert_eq!(req.transfer_id, [6u8; 32]);
    assert_eq!(req.sender, addr("GAAAAAAAAAAAAAAAAAAAAAAAAAAAAAAAAAAAAAAAAAAAAAAAAAAAAWHF"));
    assert!(req.encrypted_receiver_index.is_empty() && req.encrypted_amount.is_empty());
    assert_eq!((req.timestamp, req.ledger), (0, 0));
}

#[test]
fn record_transfer_request_overwrites_unfulfilled() {
    let mut c = EncryptedTokenContract::new();
    let id = [6u8; 32];
    c.record_transfer_request(id, LedgerClock { timestamp: 1, sequence: 1 }, addr("GU"), vec![1], vec![2]);
    c.record_transfer_request(id, LedgerClock { timestamp: 2, sequence: 3 }, addr("GV"), vec![3], vec![4]);
    let req = c.get_transfer_request(&id);
    assert_eq!(req.sender, addr("GV"));
    assert_eq!((req.encrypted_receiver_index, req.encrypted_amount, req.timestamp, req.ledger), (vec![3], vec![4], 2, 3));
}
