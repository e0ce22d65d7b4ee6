use secret_brawl::factory::contract::{
    arena_contract_code_id, arenas, init, prng_seed_source, try_arena_instanciate, try_arena_instanciated_callback,
    try_change_arena_contract_code_id, try_validate_key, FactoryConfig, FactoryError,
};
use secret_brawl::factory::msg::{HandleAnswer, InitMsg, QueryAnswer, ResponseStatus};

fn config() -> FactoryConfig {
    init(
        InitMsg {
            entropy: "e".to_string(),
            arena_contracts_code_id: 4,
            arena_contracts_code_hash: "code".to_string(),
            snip20_contract_code_address: "token".to_string(),
            snip20_contract_code_hash: "thash".to_string(),
        },
        "admin".to_string(),
        vec![1, 2, 3],
        "fkey".to_string(),
    )
}

#[test]
fn init_stores_the_admin() {
    let c = config();
    assert_eq!(c.admin, "admin");
    assert_eq!(c.factory_key, "fkey");
    assert_eq!(c.prng_seed, vec![1, 2, 3]);
    assert_eq!(c.arena_contract_code_id, 4);
    assert!(c.arena_contracts.is_empty());
}

#[test]
fn only_admin_changes_code() {
    let c = try_change_arena_contract_code_id(config(), &"admin".to_string(), 9, "new".to_string())
        .unwrap();
    assert_eq!(c.arena_contract_code_id, 9);
    assert_eq!(c.arena_contract_code_hash, "new");
    assert_eq!(c.factory_key, "fkey");
    assert_eq!(
        try_change_arena_contract_code_id(config(), &"mallory".to_string(), 9, "new".to_string()),
        Err(FactoryError::PermissionDenied)
    );
}

#[test]
fn instanciate_prepares_arena() {
    assert_eq!(
        try_arena_instanciate(
            &config(),
            &"mallory".to_string(),
            "Pit".to_string(),
            7,
            "fh".to_string(),
            "fa".to_string()
        )
        .err(),
        Some(FactoryError::PermissionDenied)
    );
    let r = try_arena_instanciate(
        &config(),
        &"admin".to_string(),
        "Pit".to_string(),
        7,
        "fh".to_string(),
        "fa".to_string(),
    )
    .unwrap();
    assert_eq!(r.label, "Arena -  Pit");
    assert_eq!(r.init_msg.name, "Pit");
    assert_eq!(r.init_msg.entropy, 7);
    assert_eq!(r.init_msg.factory_key, "fkey");
    assert_eq!(r.init_msg.factory_hash, "fh");
    assert_eq!(r.init_msg.factory_address, "fa");
    assert_eq!(r.init_msg.snip20_contract_code_address, "token");
    assert_eq!(r.code_id, 4);
    assert_eq!(r.code_hash, "code");
    assert_eq!(r.answer, HandleAnswer::Status { status: ResponseStatus::Success, message: None });
}

#[test]
fn callbacks_register_newest_first() {
    let c = try_arena_instanciated_callback(config(), &"fkey".to_string(), "a1".to_string()).unwrap();
    let c = try_arena_instanciated_callback(c, &"fkey".to_string(), "a2".to_string()).unwrap();
    assert_eq!(c.arena_contracts, vec!["a2".to_string(), "a1".to_string()]);
    assert_eq!(
        arenas(&c),
        QueryAnswer::Arenas { arenas: vec!["a2".to_string(), "a1".to_string()] }
    );
    assert_eq!(
        try_arena_instanciated_callback(c, &"wrong".to_string(), "a3".to_string()),
        Err(FactoryError::PermissionDenied)
    );
}

#[test]
fn key_validation_needs_factory_key() {
    assert_eq!(try_validate_key(&config(), &"fkey".to_string()), Ok(()));
    assert_eq!(
        try_validate_key(&config(), &"nope".to_string()),
        Err(FactoryError::PermissionDenied)
    );
}

#[test]
fn code_id_query() {
    assert_eq!(
        arena_contract_code_id(&config()),
        QueryAnswer::ArenaContractCodeID { code_id: 4, code_hash: "code".to_string() }
    );
}

#[test]
fn seed_source_is_base64_of_entropy() {
    assert_eq!(prng_seed_source(&"hello".to_string()), b"aGVsbG8=".to_vec());
    assert_eq!(prng_seed_source(&"".to_string()), Vec::<u8>::new());
    assert_eq!(prng_seed_source(&"hi".to_string()), b"aGk=".to_vec());
    assert_eq!(prng_seed_source(&"\u{ff}\u{3fff}".to_string()), base64::encode("\u{ff}\u{3fff}").into_bytes());
}

#[test]
fn every_registered_arena_is_listed_newest_first() {
    let mut c = config();
    let addresses = ["a1", "a2", "a3", "a4"];
    for a in addresses.iter() {
        c = try_arena_instanciated_callback(c, &"fkey".to_string(), a.to_string()).unwrap();
    }
    let expected: Vec<String> = addresses.iter().rev().map(|a| a.to_string()).collect();
    assert_eq!(arenas(&c), QueryAnswer::Arenas { arenas: expected });
}
