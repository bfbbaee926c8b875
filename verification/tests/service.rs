use ratchet_rng::contract::{
    callback_response, cycle_seed, get_rn, handle, handle_callback, handle_donate, init, query,
};
use ratchet_rng::env::{BlockInfo, Coin, ContractInfo, Env, HumanAddr, MessageInfo};
use ratchet_rng::msg::{
    ContractError, HandleMsg, HandleResponse, InitMsg, InitResponse, QueryMsg, RemoteContract,
    WasmMsg,
};
use ratchet_rng::rng_blake2::Blake2s;
use ratchet_rng::rng_sha256chacha20::Sha256ChaCha20;
use ratchet_rng::rng_xood::Xoodyak;
use ratchet_rng::storage::{Storage, SEED_KEY};

fn hex(bytes: &[u8]) -> String {
    let mut out = String::new();
    for b in bytes {
        out.push_str(&format!("{:02x}", b));
    }
    out
}

fn env_at(height: u64, time: u64, sender: &str) -> Env {
    Env {
        block: BlockInfo { height, time, chain_id: "secret-2".to_string() },
        message: MessageInfo { sender: HumanAddr(sender.to_string()), sent_funds: vec![] },
        contract: ContractInfo { address: HumanAddr("secret1contract".to_string()) },
        contract_key: None,
        contract_code_hash: "0a1b2c3d".to_string(),
    }
}

fn env_one() -> Env {
    env_at(12345, 1600000000, "secret1sender")
}

fn env_two() -> Env {
    env_at(12346, 1600000006, "secret1other")
}

fn with_funds(mut env: Env, amount: u128) -> Env {
    env.message.sent_funds = vec![Coin { denom: "uscrt".to_string(), amount }];
    env
}

fn callback(token: &str) -> HandleMsg {
    HandleMsg::Callback {
        cb_msg: token.to_string(),
        callback_code_hash: "feedbeef".to_string(),
        contract_addr: HumanAddr("secret1dest".to_string()),
    }
}

fn donate(entropy: &str) -> HandleMsg {
    HandleMsg::Donate { entropy: entropy.to_string() }
}

fn fresh() -> Storage {
    let mut storage = Storage::new();
    assert!(init(&mut storage, env_one(), InitMsg {}).is_ok());
    storage
}

fn held(storage: &Storage) -> Option<Vec<u8>> {
    storage.get().cloned()
}

fn delivered(response: &HandleResponse) -> ([u8; 32], String) {
    assert_eq!(response.messages.len(), 1);
    match &response.messages[0] {
        WasmMsg::Execute { msg: RemoteContract::ReceiveRandom { rn, cb_msg }, .. } => {
            (*rn, cb_msg.clone())
        }
    }
}

#[test]
fn seed_key_is_the_word_seed() {
    assert_eq!(&SEED_KEY, b"seed");
}

#[test]
fn a_new_store_is_empty() {
    assert_eq!(held(&Storage::new()), None);
}

#[test]
fn a_loaded_store_holds_what_the_host_held() {
    assert_eq!(held(&Storage::load(None)), None);
    assert_eq!(held(&Storage::load(Some(vec![1, 2, 3]))), Some(vec![1, 2, 3]));
    assert_eq!(held(&Storage::load(Some(vec![]))), Some(vec![]));
}

#[test]
fn set_overwrites() {
    let mut storage = Storage::new();
    storage.set(&[1, 2, 3]);
    assert_eq!(held(&storage), Some(vec![1, 2, 3]));
    storage.set(&[9; 32]);
    assert_eq!(held(&storage), Some(vec![9; 32]));
    storage.set(&[]);
    assert_eq!(held(&storage), Some(vec![]));
}

#[test]
fn init_installs_the_zero_state() {
    let mut storage = Storage::new();
    let response = init(&mut storage, env_one(), InitMsg {});
    assert_eq!(response, Ok(InitResponse { messages: vec![], log: vec![] }));
    assert_eq!(held(&storage), Some(vec![0u8; 32]));
}

#[test]
fn init_resets_whatever_was_held() {
    let mut storage = fresh();
    assert!(handle::<Blake2s>(&mut storage, env_one(), donate("abc")).is_ok());
    assert_ne!(held(&storage), Some(vec![0u8; 32]));
    assert!(init(&mut storage, env_two(), InitMsg {}).is_ok());
    assert_eq!(held(&storage), Some(vec![0u8; 32]));
    assert!(init(&mut storage, env_two(), InitMsg {}).is_ok());
    assert_eq!(held(&storage), Some(vec![0u8; 32]));
}

#[test]
fn cycle_seed_without_a_state_is_not_found() {
    let mut storage = Storage::new();
    let res = cycle_seed::<Xoodyak>(&mut storage, &env_one(), &None);
    assert_eq!(res, Err(ContractError::NotFound { kind: "seed".to_string() }));
    assert_eq!(held(&storage), None);
}

#[test]
fn cycle_seed_stores_what_it_returns() {
    let mut storage = fresh();
    let env = env_one();
    let entropy = Some("abc".to_string());
    let next = cycle_seed::<Xoodyak>(&mut storage, &env, &entropy).unwrap();
    assert_eq!(next, ratchet_rng::rng_xood::cycle(&[0u8; 32], &env, &entropy));
    assert_eq!(held(&storage), Some(next.to_vec()));
}

#[test]
fn cycle_seed_advances_a_state_of_any_length() {
    let mut storage = Storage::load(Some(b"short".to_vec()));
    let env = env_one();
    let next = cycle_seed::<Blake2s>(&mut storage, &env, &None).unwrap();
    assert_eq!(next, ratchet_rng::rng_blake2::cycle(b"short", &env, &None));
    assert_eq!(held(&storage), Some(next.to_vec()));
}

#[test]
fn get_rn_without_a_state_is_not_found() {
    let mut storage = Storage::new();
    let res = get_rn::<Blake2s>(&mut storage, &env_one(), &None);
    assert_eq!(res, Err(ContractError::NotFound { kind: "seed".to_string() }));
    assert_eq!(held(&storage), None);
}

#[test]
fn get_rn_returns_the_output_of_the_state_it_stored() {
    let mut storage = fresh();
    let env = env_one();
    let rn = get_rn::<Sha256ChaCha20>(&mut storage, &env, &None).unwrap();
    let next = ratchet_rng::rng_sha256chacha20::cycle(&[0u8; 32], &env, &None);
    assert_eq!(held(&storage), Some(next.to_vec()));
    assert_eq!(rn, ratchet_rng::rng_sha256chacha20::emit(&next));
    assert_ne!(rn, next);
}

#[test]
fn callback_response_carries_the_output_and_the_token() {
    let rn = [0x42u8; 32];
    let response = callback_response(
        rn,
        "req-1".to_string(),
        HumanAddr("secret1dest".to_string()),
        "feedbeef".to_string(),
    );
    assert_eq!(
        response,
        HandleResponse {
            messages: vec![WasmMsg::Execute {
                contract_addr: HumanAddr("secret1dest".to_string()),
                callback_code_hash: "feedbeef".to_string(),
                msg: RemoteContract::ReceiveRandom { rn, cb_msg: "req-1".to_string() },
                send: vec![],
            }],
            log: vec![],
            data: None,
        }
    );
}

#[test]
fn callback_response_leaves_an_odd_token_untouched() {
    let token = "{\"a\":\"\\u00e9\"}\n\u{1f600}";
    let response = callback_response(
        [0u8; 32],
        token.to_string(),
        HumanAddr(String::new()),
        String::new(),
    );
    let (rn, cb_msg) = delivered(&response);
    assert_eq!(rn, [0u8; 32]);
    assert_eq!(cb_msg, token);
}

#[test]
fn handle_callback_delivers_the_output_of_the_new_state() {
    let mut storage = fresh();
    let env = env_one();
    let response = handle_callback::<Xoodyak>(
        &mut storage,
        env.clone(),
        "req-1".to_string(),
        HumanAddr("secret1dest".to_string()),
        "feedbeef".to_string(),
    )
    .unwrap();
    let next = ratchet_rng::rng_xood::cycle(&[0u8; 32], &env, &None);
    assert_eq!(held(&storage), Some(next.to_vec()));
    assert_eq!(
        response,
        callback_response(
            ratchet_rng::rng_xood::emit(&next),
            "req-1".to_string(),
            HumanAddr("secret1dest".to_string()),
            "feedbeef".to_string(),
        )
    );
}

#[test]
fn handle_callback_without_a_state_is_not_found() {
    let mut storage = Storage::new();
    let res = handle_callback::<Xoodyak>(
        &mut storage,
        env_one(),
        "req-1".to_string(),
        HumanAddr("secret1dest".to_string()),
        "feedbeef".to_string(),
    );
    assert_eq!(res, Err(ContractError::NotFound { kind: "seed".to_string() }));
    assert_eq!(held(&storage), None);
}

#[test]
fn handle_donate_mixes_the_entropy_and_sends_nothing() {
    let mut storage = fresh();
    let env = env_one();
    let response = handle_donate::<Blake2s>(&mut storage, env.clone(), "abc".to_string());
    assert_eq!(response, Ok(HandleResponse { messages: vec![], log: vec![], data: None }));
    let next = ratchet_rng::rng_blake2::cycle(&[0u8; 32], &env, &Some("abc".to_string()));
    assert_eq!(held(&storage), Some(next.to_vec()));
    assert_eq!(
        hex(&next),
        "4cb7259e62015e369d09f3ba86de151ddf70f152a9ef2ddf8f43ca13ce45fc0c"
    );
}

#[test]
fn handle_donate_without_a_state_is_not_found() {
    let mut storage = Storage::new();
    let res = handle_donate::<Blake2s>(&mut storage, env_one(), "abc".to_string());
    assert_eq!(res, Err(ContractError::NotFound { kind: "seed".to_string() }));
    assert_eq!(held(&storage), None);
}

#[test]
fn handle_before_init_is_not_found_and_changes_nothing() {
    let mut storage = Storage::new();
    assert_eq!(
        handle::<Blake2s>(&mut storage, env_one(), callback("req-1")),
        Err(ContractError::NotFound { kind: "seed".to_string() })
    );
    assert_eq!(
        handle::<Blake2s>(&mut storage, env_one(), donate("abc")),
        Err(ContractError::NotFound { kind: "seed".to_string() })
    );
    assert_eq!(held(&storage), None);
}

#[test]
fn handle_refuses_a_request_with_funds() {
    let mut storage = fresh();
    let res = handle::<Blake2s>(&mut storage, with_funds(env_one(), 1), callback("req-1"));
    assert_eq!(res, Err(ContractError::Unauthorized));
    assert_eq!(held(&storage), Some(vec![0u8; 32]));
}

#[test]
fn handle_refuses_a_donation_with_funds() {
    let mut storage = fresh();
    assert!(handle::<Xoodyak>(&mut storage, env_one(), donate("abc")).is_ok());
    let before = held(&storage);
    let res = handle::<Xoodyak>(&mut storage, with_funds(env_two(), 1000), donate("more"));
    assert_eq!(res, Err(ContractError::Unauthorized));
    assert_eq!(held(&storage), before);
}

#[test]
fn handle_refuses_funds_before_it_looks_for_the_state() {
    let mut storage = Storage::new();
    let res = handle::<Sha256ChaCha20>(&mut storage, with_funds(env_one(), 1), donate("abc"));
    assert_eq!(res, Err(ContractError::Unauthorized));
    assert_eq!(held(&storage), None);
}

#[test]
fn handle_refuses_any_attached_coin() {
    let mut storage = fresh();
    let res = handle::<Blake2s>(&mut storage, with_funds(env_one(), 0), donate("abc"));
    assert_eq!(res, Err(ContractError::Unauthorized));
    assert_eq!(held(&storage), Some(vec![0u8; 32]));
}

#[test]
fn handle_callback_mixes_no_entropy() {
    let mut storage = fresh();
    let env = env_one();
    assert!(handle::<Xoodyak>(&mut storage, env.clone(), callback("abc")).is_ok());
    assert_eq!(
        held(&storage),
        Some(ratchet_rng::rng_xood::cycle(&[0u8; 32], &env, &None).to_vec())
    );
}

#[test]
fn handle_donate_of_nothing_still_advances() {
    let mut storage = fresh();
    let env = env_one();
    assert!(handle::<Xoodyak>(&mut storage, env.clone(), donate("")).is_ok());
    assert_eq!(
        held(&storage),
        Some(ratchet_rng::rng_xood::cycle(&[0u8; 32], &env, &Some(String::new())).to_vec())
    );
    assert_ne!(
        held(&storage),
        Some(ratchet_rng::rng_xood::cycle(&[0u8; 32], &env, &None).to_vec())
    );
}

#[test]
fn an_empty_donation_does_not_leave_what_a_request_leaves() {
    let env = env_one();
    let mut donated = fresh();
    assert!(handle::<Blake2s>(&mut donated, env.clone(), donate("")).is_ok());
    let mut requested = fresh();
    assert!(handle::<Blake2s>(&mut requested, env.clone(), callback("tok")).is_ok());
    assert_eq!(
        held(&donated),
        Some(ratchet_rng::rng_blake2::cycle(&[0u8; 32], &env, &Some(String::new())).to_vec())
    );
    assert_eq!(
        held(&requested),
        Some(ratchet_rng::rng_blake2::cycle(&[0u8; 32], &env, &None).to_vec())
    );
    assert_ne!(held(&donated), held(&requested));

    let mut donated = fresh();
    assert!(handle::<Sha256ChaCha20>(&mut donated, env.clone(), donate("")).is_ok());
    let mut requested = fresh();
    assert!(handle::<Sha256ChaCha20>(&mut requested, env.clone(), callback("tok")).is_ok());
    assert_ne!(held(&donated), held(&requested));

    let mut donated = fresh();
    assert!(handle::<Xoodyak>(&mut donated, env.clone(), donate("")).is_ok());
    let mut requested = fresh();
    assert!(handle::<Xoodyak>(&mut requested, env.clone(), callback("tok")).is_ok());
    assert_ne!(held(&donated), held(&requested));
}

#[test]
fn each_request_advances_the_state_once() {
    let mut storage = fresh();
    let mut expected = [0u8; 32];
    let mut seen: Vec<Vec<u8>> = vec![expected.to_vec()];
    for i in 0..6u64 {
        let env = env_at(100 + i, 1600000000 + 6 * i, "secret1sender");
        let msg = if i % 2 == 0 { callback("tok") } else { donate("abc") };
        let entropy = if i % 2 == 0 { None } else { Some("abc".to_string()) };
        assert!(handle::<Blake2s>(&mut storage, env.clone(), msg).is_ok());
        expected = ratchet_rng::rng_blake2::cycle(&expected, &env, &entropy);
        assert_eq!(held(&storage), Some(expected.to_vec()));
        assert!(!seen.contains(&expected.to_vec()));
        seen.push(expected.to_vec());
    }
    assert_eq!(seen.len(), 7);
}

#[test]
fn a_replayed_request_advances_the_state_again() {
    let mut storage = fresh();
    let env = env_one();
    let first = delivered(&handle::<Xoodyak>(&mut storage, env.clone(), callback("tok")).unwrap());
    let after_first = held(&storage).unwrap();
    let second = delivered(&handle::<Xoodyak>(&mut storage, env.clone(), callback("tok")).unwrap());
    let after_second = held(&storage).unwrap();
    let once = ratchet_rng::rng_xood::cycle(&[0u8; 32], &env, &None);
    let twice = ratchet_rng::rng_xood::cycle(&once, &env, &None);
    assert_eq!(after_first, once.to_vec());
    assert_eq!(after_second, twice.to_vec());
    assert_ne!(after_first, after_second);
    assert_ne!(first.0, second.0);
}

#[test]
fn a_failed_request_leaves_the_state_for_the_next_one() {
    let mut storage = fresh();
    let env = env_one();
    assert!(handle::<Blake2s>(&mut storage, with_funds(env.clone(), 5), donate("abc")).is_err());
    assert!(handle::<Blake2s>(&mut storage, env.clone(), donate("abc")).is_ok());
    assert_eq!(
        held(&storage),
        Some(ratchet_rng::rng_blake2::cycle(&[0u8; 32], &env, &Some("abc".to_string())).to_vec())
    );
}

#[test]
fn query_always_refuses() {
    assert_eq!(query(&Storage::new(), QueryMsg {}), Err(ContractError::Unauthorized));
    assert_eq!(query(&fresh(), QueryMsg {}), Err(ContractError::Unauthorized));
}

fn scenario_blake2() -> (Storage, HandleResponse) {
    let mut storage = Storage::new();
    init(&mut storage, env_one(), InitMsg {}).unwrap();
    handle::<Blake2s>(&mut storage, env_one(), donate("abc")).unwrap();
    let response = handle::<Blake2s>(&mut storage, env_two(), callback("req-1")).unwrap();
    (storage, response)
}

#[test]
fn end_to_end_with_blake2() {
    let (storage, response) = scenario_blake2();
    let (rn, token) = delivered(&response);
    assert_eq!(token, "req-1");
    assert_eq!(rn.len(), 32);
    assert_eq!(hex(&rn), "16b8c23ab67f093c76668463255f6ac4f566754eee1e600d008fe1114d2e9bf8");
    assert_eq!(
        hex(&held(&storage).unwrap()),
        "b22be1f089cac55722372e8fc89bbef6044902fc75bb78568d84f1de768f8ade"
    );
    let s1 = ratchet_rng::rng_blake2::cycle(&[0u8; 32], &env_one(), &Some("abc".to_string()));
    let s2 = ratchet_rng::rng_blake2::cycle(&s1, &env_two(), &None);
    assert_eq!(rn, ratchet_rng::rng_blake2::emit(&s2));
    match &response.messages[0] {
        WasmMsg::Execute { contract_addr, callback_code_hash, send, .. } => {
            assert_eq!(contract_addr, &HumanAddr("secret1dest".to_string()));
            assert_eq!(callback_code_hash, "feedbeef");
            assert!(send.is_empty());
        }
    }
    assert!(response.log.is_empty());
    assert_eq!(response.data, None);

    let (again_storage, again) = scenario_blake2();
    assert_eq!(again, response);
    assert_eq!(held(&again_storage), held(&storage));
}

#[test]
fn end_to_end_with_xoodyak() {
    let mut storage = Storage::new();
    init(&mut storage, env_one(), InitMsg {}).unwrap();
    handle::<Xoodyak>(&mut storage, env_one(), donate("abc")).unwrap();
    let response = handle::<Xoodyak>(&mut storage, env_two(), callback("req-1")).unwrap();
    let (rn, token) = delivered(&response);
    assert_eq!(token, "req-1");
    assert_eq!(hex(&rn), "747953863b69b5a201a3042c15d221b5fd97a9f27e800440deebf9d6dc52c2e8");
    assert_eq!(
        hex(&held(&storage).unwrap()),
        "feb448f9ca9d21e803beb6928bdb2e70b531098405a53188a0156579898c93a6"
    );
}

#[test]
fn end_to_end_with_sha256_and_chacha20() {
    let mut storage = Storage::new();
    init(&mut storage, env_one(), InitMsg {}).unwrap();
    handle::<Sha256ChaCha20>(&mut storage, env_one(), donate("abc")).unwrap();
    let response = handle::<Sha256ChaCha20>(&mut storage, env_two(), callback("req-1")).unwrap();
    let (rn, token) = delivered(&response);
    assert_eq!(token, "req-1");
    assert_eq!(hex(&rn), "f1d344da08f975bc45bfaad578cc8b38f401e82b19a76c628df9e66525b4d08e");
    assert_eq!(
        hex(&held(&storage).unwrap()),
        "db1dd1eeda58756328c8be435bf01e29e21dab85e300eb264c6cd14452c85340"
    );
}

#[test]
fn the_donation_shows_in_the_later_output() {
    let (_, with_donation) = scenario_blake2();
    let mut storage = Storage::new();
    init(&mut storage, env_one(), InitMsg {}).unwrap();
    handle::<Blake2s>(&mut storage, env_one(), donate("abd")).unwrap();
    let other = handle::<Blake2s>(&mut storage, env_two(), callback("req-1")).unwrap();
    assert_ne!(delivered(&with_donation).0, delivered(&other).0);
}
