use rand::{Rng, SeedableRng};
use rand_chacha::ChaChaRng;
use sha2::{Digest, Sha256};

use secret_brawl::arena::contract::{
    can_deposit, gen_empty_rounds, get_state, get_state_query, handle, init, try_receive,
    ArenaError,
};
use secret_brawl::arena::contract::handle_would_fail;
use secret_brawl::arena::join::{join_arena, join_would_overflow};
use secret_brawl::arena::round::{round_action, round_action_with_level};
use secret_brawl::arena::msg::{
    FactoryHandleMsg, FactoryQueryMsg, HandleMsg, InitMsg, IsKeyValid, IsKeyValidResponse,
    Snip20Msg,
};
use secret_brawl::arena::randomness::{
    draw_action_level, i32_to_be_bytes, level_seed_bytes, u64_to_be_bytes,
};
use secret_brawl::arena::state::State;

fn init_msg() -> InitMsg {
    InitMsg {
        name: "Pit".to_string(),
        entropy: 7,
        factory_address: "factory".to_string(),
        factory_hash: "fhash".to_string(),
        factory_key: "fkey".to_string(),
        snip20_contract_code_address: "token".to_string(),
        snip20_contract_code_hash: "thash".to_string(),
    }
}

fn fresh() -> State {
    init(init_msg(), "arena".to_string(), "ahash".to_string()).state
}

fn started() -> State {
    let s = join_arena(fresh(), "Warrior".to_string(), 1, "alice".to_string(), 100).unwrap();
    join_arena(s, "Warrior".to_string(), 2, "bob".to_string(), 100).unwrap()
}

#[test]
fn init_builds_the_arena() {
    let r = init(init_msg(), "arena".to_string(), "ahash".to_string());
    let s = &r.state;
    assert_eq!(s.arena_name, "Pit");
    assert_eq!(s.known_snip_20, vec!["token".to_string()]);
    assert_eq!(s.secret_entropy, vec![7u64.to_be_bytes()]);
    assert_eq!(s.arena_state.tokens_locked, 0);
    assert_eq!(s.arena_state.player1, None);
    assert_eq!(s.arena_state.rounds.len(), 5);
    for (i, round) in s.arena_state.rounds.iter().enumerate() {
        assert_eq!(round, &gen_empty_rounds(i as i32 + 1));
    }
    assert_eq!(s.classes.len(), 3);
    assert_eq!(s.classes[0].name, "Warrior");
    assert_eq!(s.classes[0].base_hp, 130);
    assert_eq!(s.classes[0].base_attack, 20);
    assert_eq!(s.classes[0].actions.len(), 5);
    assert_eq!(s.classes[0].actions[1].name, "UnblockableAttack");
    assert!(s.classes[0].actions[1].preparation_needed);
    assert_eq!(s.classes[1].name, "Archer");
    assert_eq!(s.classes[1].base_hp, 100);
    assert_eq!(s.classes[1].base_attack, 20);
    assert_eq!(s.classes[1].base_dodge_chance, 30);
    assert_eq!(s.classes[1].actions[1].name, "DoubleAttack");
    assert_eq!(s.classes[2].name, "Mage");
    assert_eq!(s.classes[2].base_hp, 100);
    assert_eq!(s.classes[2].base_attack, 26);
    assert_eq!(s.classes[2].actions, s.classes[0].actions);
    assert_eq!(s.factory.auth_key, "fkey");
    assert_eq!(
        r.factory_callback,
        FactoryHandleMsg::InitCallBackFromArenaToFactory {
            auth_key: "fkey".to_string(),
            contract_address: "arena".to_string(),
        }
    );
    assert_eq!(
        r.snip20_register,
        Snip20Msg::RegisterReceive { code_hash: "ahash".to_string(), padding: None }
    );
}

#[test]
fn empty_round_shape() {
    let r = gen_empty_rounds(3);
    assert_eq!(r.number, 3);
    assert_eq!(r.status, "Empty");
    assert_eq!(r.player1_preparation, Some(false));
    assert_eq!(r.player2_preparation, Some(false));
    assert_eq!(r.player1_hp, None);
    assert_eq!(r.player1_action_name, None);
}

#[test]
fn deposits_must_match() {
    assert_eq!(can_deposit(5, 5), Ok(5));
    assert_eq!(can_deposit(4, 5), Err(ArenaError::BetMismatch { amount: 4, bet_size: 5 }));
}

#[test]
fn snip20_messages() {
    assert_eq!(
        Snip20Msg::redeem(9),
        Snip20Msg::Redeem { amount: 9, padding: None }
    );
    assert_eq!(
        Snip20Msg::register_receive("h".to_string()),
        Snip20Msg::RegisterReceive { code_hash: "h".to_string(), padding: None }
    );
}

#[test]
fn first_join_takes_the_first_seat() {
    let s = join_arena(fresh(), "Warrior".to_string(), 11, "alice".to_string(), 100).unwrap();
    assert_eq!(s.arena_state.player1, Some("alice".to_string()));
    assert_eq!(s.arena_state.player1_class_name, Some("Warrior".to_string()));
    assert_eq!(s.arena_state.player2, None);
    assert_eq!(s.arena_state.tokens_locked, 100);
    assert_eq!(s.secret_entropy, vec![7u64.to_be_bytes(), 11u64.to_be_bytes()]);
    assert_eq!(s.arena_state.rounds[0].status, "Empty");
}

#[test]
fn second_join_starts_the_match() {
    let s = started();
    assert_eq!(s.arena_state.player2, Some("bob".to_string()));
    assert_eq!(s.arena_state.tokens_locked, 200);
    let r = &s.arena_state.rounds[0];
    assert_eq!(r.status, "WaitingActions");
    assert_eq!(r.player1_hp, Some(130));
    assert_eq!(r.player2_hp, Some(130));
    assert_eq!(r.player1_preparation, Some(false));
    assert_eq!(s.arena_state.rounds[1].status, "Empty");
}

#[test]
fn join_refusals() {
    let one = join_arena(fresh(), "Warrior".to_string(), 1, "alice".to_string(), 100).unwrap();
    assert_eq!(
        join_arena(one.clone(), "Warrior".to_string(), 2, "bob".to_string(), 99),
        Err(ArenaError::BetMismatch { amount: 99, bet_size: 100 })
    );
    assert_eq!(
        join_arena(one.clone(), "Ogre".to_string(), 2, "bob".to_string(), 100),
        Err(ArenaError::InvalidClassName { class_name: "Ogre".to_string() })
    );
    assert_eq!(
        join_arena(one, "Warrior".to_string(), 2, "alice".to_string(), 100),
        Err(ArenaError::ArenaFull { arena_name: "Pit".to_string() })
    );
    assert_eq!(
        join_arena(started(), "Warrior".to_string(), 3, "carol".to_string(), 100),
        Err(ArenaError::ArenaFull { arena_name: "Pit".to_string() })
    );
    assert_eq!(
        join_arena(fresh(), "Ogre".to_string(), 2, "bob".to_string(), 1),
        Err(ArenaError::InvalidClassName { class_name: "Ogre".to_string() })
    );
}

#[test]
fn receive_routing() {
    let join = HandleMsg::JoinArena { class_name: "Warrior".to_string(), secret: 5 };
    let nested = HandleMsg::Receive {
        sender: "x".to_string(),
        from: "y".to_string(),
        amount: 1,
        msg: vec![],
    };
    assert_eq!(
        try_receive(fresh(), &"token".to_string(), "alice".to_string(), 10, nested),
        Err(ArenaError::RecursiveReceive)
    );
    assert_eq!(
        try_receive(fresh(), &"other".to_string(), "alice".to_string(), 10, join.clone()),
        Err(ArenaError::UnknownToken { sender: "other".to_string() })
    );
    assert_eq!(
        try_receive(
            fresh(),
            &"token".to_string(),
            "alice".to_string(),
            10,
            HandleMsg::RoundAction { action_name: "Attack".to_string() }
        ),
        Err(ArenaError::ReceiveHandlerNotFound)
    );
    let s = try_receive(fresh(), &"token".to_string(), "alice".to_string(), 10, join).unwrap();
    assert_eq!(s.arena_state.player1, Some("alice".to_string()));
    assert_eq!(s.arena_state.tokens_locked, 10);
}

#[test]
fn handle_routing() {
    assert_eq!(
        handle(
            fresh(),
            &"alice".to_string(),
            HandleMsg::Register { reg_addr: "a".to_string(), reg_hash: "h".to_string() },
            None
        ),
        Err(ArenaError::HandlerNotFound)
    );
    assert_eq!(
        handle(
            fresh(),
            &"alice".to_string(),
            HandleMsg::JoinArena { class_name: "Warrior".to_string(), secret: 1 },
            None
        ),
        Err(ArenaError::HandlerNotFound)
    );
    let deposit = HandleMsg::Receive {
        sender: "alice".to_string(),
        from: "alice".to_string(),
        amount: 3,
        msg: vec![],
    };
    let inner = HandleMsg::JoinArena { class_name: "Warrior".to_string(), secret: 1 };
    let s = handle(fresh(), &"token".to_string(), deposit, Some(inner)).unwrap();
    assert_eq!(s.arena_state.tokens_locked, 3);
    assert_eq!(
        handle(
            fresh(),
            &"alice".to_string(),
            HandleMsg::RoundAction { action_name: "Attack".to_string() },
            None
        ),
        Err(ArenaError::NotParticipant { arena_name: "Pit".to_string() })
    );
}

#[test]
fn round_action_refusals() {
    assert_eq!(
        round_action(started(), &"carol".to_string(), "Attack".to_string()),
        Err(ArenaError::NotParticipant { arena_name: "Pit".to_string() })
    );
    let one = join_arena(fresh(), "Warrior".to_string(), 1, "alice".to_string(), 100).unwrap();
    assert_eq!(
        round_action(one, &"alice".to_string(), "Attack".to_string()),
        Err(ArenaError::NoRounds { arena_name: "Pit".to_string() })
    );
    assert_eq!(
        round_action(started(), &"alice".to_string(), "UnblockableAttack".to_string()),
        Err(ArenaError::InvalidActionName { action_name: "UnblockableAttack".to_string() })
    );
    assert_eq!(
        round_action(started(), &"bob".to_string(), "Dance".to_string()),
        Err(ArenaError::InvalidActionName { action_name: "Dance".to_string() })
    );
    let acted = round_action_with_level(started(), &"alice".to_string(), "Attack".to_string(), 2)
        .unwrap();
    assert_eq!(
        round_action(acted, &"alice".to_string(), "Block".to_string()),
        Err(ArenaError::AlreadySubmitted {
            round_number: 1,
            action_name: Some("Attack".to_string())
        })
    );
}

#[test]
fn first_action_is_recorded() {
    let s = round_action_with_level(started(), &"bob".to_string(), "Block".to_string(), 1).unwrap();
    let r = &s.arena_state.rounds[0];
    assert_eq!(r.player2_action_name, Some("Block".to_string()));
    assert_eq!(r.player2_attack_level, Some(1));
    assert_eq!(r.player1_action_name, None);
    assert_eq!(r.status, "WaitingActions");
}

#[test]
fn both_actions_resolve_the_round() {
    let s = round_action_with_level(started(), &"alice".to_string(), "Attack".to_string(), 1)
        .unwrap();
    let s = round_action_with_level(s, &"bob".to_string(), "Prepare".to_string(), 2).unwrap();
    let r0 = &s.arena_state.rounds[0];
    assert_eq!(r0.status, "Completed");
    assert_eq!(r0.player1_attack_level, Some(1));
    assert_eq!(r0.player2_attack_level, Some(2));
    let r1 = &s.arena_state.rounds[1];
    assert_eq!(r1.status, "WaitingActions");
    assert_eq!(r1.player1_hp, Some(130));
    assert_eq!(r1.player2_hp, Some(110));
    assert_eq!(r1.player1_preparation, Some(false));
    assert_eq!(r1.player2_preparation, Some(true));
    // prepared: only actions that need preparation are offered
    assert_eq!(
        round_action_with_level(s.clone(), &"bob".to_string(), "Attack".to_string(), 1),
        Err(ArenaError::InvalidActionName { action_name: "Attack".to_string() })
    );
    let s = round_action_with_level(s, &"bob".to_string(), "UnblockableAttack".to_string(), 1)
        .unwrap();
    let s = round_action_with_level(s, &"alice".to_string(), "Block".to_string(), 1).unwrap();
    let r2 = &s.arena_state.rounds[2];
    assert_eq!(r2.status, "WaitingActions");
    assert_eq!(r2.player1_hp, Some(110));
    assert_eq!(r2.player2_hp, Some(110));
    assert_eq!(r2.player2_preparation, Some(false));
}

#[test]
fn four_rounds_can_be_played() {
    let mut s = started();
    let mut hp1: i32 = 130;
    let mut hp2: i32 = 130;
    for round in 0..4 {
        s = round_action(s, &"alice".to_string(), "Attack".to_string()).unwrap();
        s = round_action(s, &"bob".to_string(), "Attack".to_string()).unwrap();
        assert_eq!(s.arena_state.rounds[round].status, "Completed");
        let level1 = s.arena_state.rounds[round].player1_attack_level.unwrap();
        let level2 = s.arena_state.rounds[round].player2_attack_level.unwrap();
        assert!(1 <= level1 && level1 <= 3);
        assert!(1 <= level2 && level2 <= 3);
        hp1 -= 20 * (level2 + 1) / 2;
        hp2 -= 20 * (level1 + 1) / 2;
        if hp1 <= 0 || hp2 <= 0 {
            assert_eq!(s.arena_state.rounds[round + 1].status, "Empty");
            return;
        }
        assert_eq!(s.arena_state.rounds[round + 1].player1_hp, Some(hp1));
        assert_eq!(s.arena_state.rounds[round + 1].player2_hp, Some(hp2));
    }
    assert_eq!(s.arena_state.rounds[4].status, "WaitingActions");
}

#[test]
fn level_is_drawn_from_the_hashed_seed() {
    let s = started();
    let mut expected_seed: Vec<u8> = Vec::new();
    for e in s.secret_entropy.iter() {
        expected_seed.extend_from_slice(e);
    }
    expected_seed.extend_from_slice(s.arena_name.as_bytes());
    expected_seed.extend_from_slice(&1i32.to_be_bytes());
    expected_seed.extend_from_slice(&2i32.to_be_bytes());
    assert_eq!(level_seed_bytes(&s, 1, 2), expected_seed);
    let mut hasher = Sha256::new();
    hasher.update(&expected_seed);
    let seed: [u8; 32] = hasher.finalize().into();
    let mut rng = ChaChaRng::from_seed(seed);
    let expected: i32 = rng.gen_range(1, 4);
    assert_eq!(draw_action_level(&s, 1, 2), expected);
    let acted = round_action(s, &"bob".to_string(), "Block".to_string()).unwrap();
    assert_eq!(acted.arena_state.rounds[0].player2_attack_level, Some(expected));
}

#[test]
fn byte_encodings() {
    assert_eq!(u64_to_be_bytes(0x0102030405060708), 0x0102030405060708u64.to_be_bytes());
    assert_eq!(i32_to_be_bytes(-2), (-2i32).to_be_bytes());
    assert_eq!(i32_to_be_bytes(258), [0, 0, 1, 2]);
}

#[test]
fn state_is_shown_to_valid_keys_only() {
    let valid = IsKeyValidResponse { is_key_valid: IsKeyValid { is_valid: true } };
    let invalid = IsKeyValidResponse { is_key_valid: IsKeyValid { is_valid: false } };
    assert_eq!(get_state(fresh(), valid).unwrap().state, fresh());
    assert_eq!(get_state(fresh(), invalid), Err(ArenaError::InvalidViewingKey));
    assert_eq!(
        get_state_query(&fresh(), "alice".to_string(), "vk".to_string()),
        FactoryQueryMsg::IsKeyValid {
            factory_key: "fkey".to_string(),
            viewing_key: "vk".to_string(),
            address: "alice".to_string(),
        }
    );
}

#[test]
fn play_stops_after_five_rounds() {
    let mut s = started();
    for _ in 0..4 {
        s = round_action_with_level(s, &"alice".to_string(), "Attack".to_string(), 1).unwrap();
        s = round_action_with_level(s, &"bob".to_string(), "Attack".to_string(), 1).unwrap();
    }
    s = round_action_with_level(s, &"alice".to_string(), "Attack".to_string(), 1).unwrap();
    s = round_action_with_level(s, &"bob".to_string(), "Attack".to_string(), 3).unwrap();
    assert_eq!(s.arena_state.rounds.len(), 5);
    for round in s.arena_state.rounds.iter() {
        assert_eq!(round.status, "Completed");
    }
    assert_eq!(s.arena_state.rounds[4].player2_attack_level, Some(3));
    assert_eq!(
        round_action(s, &"alice".to_string(), "Attack".to_string()),
        Err(ArenaError::NoRounds { arena_name: "Pit".to_string() })
    );
}

#[test]
fn a_player_without_hit_points_loses() {
    let s = join_arena(fresh(), "Mage".to_string(), 1, "alice".to_string(), 10).unwrap();
    let mut s = join_arena(s, "Archer".to_string(), 2, "bob".to_string(), 10).unwrap();
    assert_eq!(s.arena_state.rounds[0].player1_hp, Some(100));
    assert_eq!(s.arena_state.rounds[0].player2_hp, Some(100));
    for _ in 0..3 {
        s = round_action_with_level(s, &"alice".to_string(), "Attack".to_string(), 1).unwrap();
        s = round_action_with_level(s, &"bob".to_string(), "Attack".to_string(), 1).unwrap();
    }
    assert_eq!(s.arena_state.rounds[3].status, "WaitingActions");
    assert_eq!(s.arena_state.rounds[3].player1_hp, Some(40));
    assert_eq!(s.arena_state.rounds[3].player2_hp, Some(22));
    s = round_action_with_level(s, &"alice".to_string(), "Attack".to_string(), 1).unwrap();
    s = round_action_with_level(s, &"bob".to_string(), "Attack".to_string(), 1).unwrap();
    assert_eq!(s.arena_state.rounds[3].status, "Completed");
    assert_eq!(s.arena_state.rounds[4].status, "Empty");
    assert_eq!(s.arena_state.rounds[4].player1_hp, None);
    assert_eq!(
        round_action(s, &"bob".to_string(), "Attack".to_string()),
        Err(ArenaError::NoRounds { arena_name: "Pit".to_string() })
    );
}

#[test]
fn all_three_levels_occur() {
    let s = started();
    let mut seen = [false; 3];
    for round_number in 1..200 {
        let level = draw_action_level(&s, round_number, 1);
        assert!(1 <= level && level <= 3);
        seen[(level - 1) as usize] = true;
    }
    assert_eq!(seen, [true, true, true]);
}

#[test]
fn joins_lock_one_bet_per_seat() {
    let s = fresh();
    assert_eq!(s.arena_state.tokens_locked, 0);
    let s = join_arena(s, "Archer".to_string(), 1, "alice".to_string(), 40).unwrap();
    assert_eq!(s.arena_state.tokens_locked, 40);
    let s = join_arena(s, "Mage".to_string(), 2, "bob".to_string(), 40).unwrap();
    assert_eq!(s.arena_state.tokens_locked, 80);
    assert_ne!(s.arena_state.player1, s.arena_state.player2);
}

#[test]
fn huge_second_bet_overflows() {
    let big = u128::MAX / 2 + 1;
    let one = join_arena(fresh(), "Warrior".to_string(), 1, "alice".to_string(), big).unwrap();
    assert!(join_would_overflow(&one, &"Warrior".to_string(), &"bob".to_string(), big));
    assert!(!join_would_overflow(&one, &"Warrior".to_string(), &"bob".to_string(), 5));
    assert!(!join_would_overflow(&one, &"Warrior".to_string(), &"alice".to_string(), big));
    let deposit = HandleMsg::Receive {
        sender: "bob".to_string(),
        from: "bob".to_string(),
        amount: big,
        msg: vec![],
    };
    let join = Some(HandleMsg::JoinArena { class_name: "Warrior".to_string(), secret: 2 });
    assert!(handle_would_fail(&one, &"token".to_string(), &deposit, &join));
    assert!(!handle_would_fail(&one, &"other".to_string(), &deposit, &join));
    let small = join_arena(fresh(), "Warrior".to_string(), 1, "alice".to_string(), 7).unwrap();
    assert!(!join_would_overflow(&small, &"Warrior".to_string(), &"bob".to_string(), 7));
}

#[test]
fn stored_states_are_checked() {
    assert!(fresh().is_wf());
    assert!(started().is_wf());
    let played =
        round_action_with_level(started(), &"alice".to_string(), "Attack".to_string(), 2).unwrap();
    assert!(played.is_wf());

    let mut locked_without_players = fresh();
    locked_without_players.arena_state.tokens_locked = 5;
    assert!(!locked_without_players.is_wf());

    let mut same_player = started();
    same_player.arena_state.player2 = Some("alice".to_string());
    assert!(!same_player.is_wf());

    let mut unknown_status = started();
    unknown_status.arena_state.rounds[3].status = "Bogus".to_string();
    assert!(!unknown_status.is_wf());

    let mut two_waiting = started();
    two_waiting.arena_state.rounds[2].status = "WaitingActions".to_string();
    assert!(!two_waiting.is_wf());

    let mut bad_level = played.clone();
    bad_level.arena_state.rounds[0].player1_attack_level = Some(4);
    assert!(!bad_level.is_wf());

    let mut unknown_class = started();
    unknown_class.arena_state.player2_class_name = Some("Ogre".to_string());
    assert!(!unknown_class.is_wf());

    let mut duplicate_class = fresh();
    duplicate_class.classes[2].name = "Warrior".to_string();
    assert!(!duplicate_class.is_wf());
}

#[test]
fn action_level_scales_damage() {
    let s = round_action_with_level(started(), &"alice".to_string(), "Attack".to_string(), 3)
        .unwrap();
    let s = round_action_with_level(s, &"bob".to_string(), "Prepare".to_string(), 1).unwrap();
    assert_eq!(s.arena_state.rounds[1].player2_hp, Some(90));
    assert_eq!(s.arena_state.rounds[1].player1_hp, Some(130));
    let s = round_action_with_level(s, &"alice".to_string(), "Attack".to_string(), 1).unwrap();
    let s = round_action_with_level(s, &"bob".to_string(), "UnblockableAttack".to_string(), 2)
        .unwrap();
    assert_eq!(s.arena_state.rounds[2].player1_hp, Some(100));
    assert_eq!(s.arena_state.rounds[2].player2_hp, Some(70));
}

#[test]
fn a_run_of_joins_locks_one_bet_per_seat() {
    let mut s = fresh();
    let joins: [(&str, u64, &str, u128); 5] = [
        ("Ogre", 1, "carol", 30),
        ("Mage", 2, "alice", 30),
        ("Archer", 3, "bob", 29),
        ("Archer", 4, "alice", 30),
        ("Archer", 5, "bob", 30),
    ];
    for (class_name, secret, from, amount) in joins.iter() {
        if let Ok(next) =
            join_arena(s.clone(), class_name.to_string(), *secret, from.to_string(), *amount)
        {
            s = next;
        }
        assert!(s.is_wf());
    }
    assert_eq!(s.arena_state.tokens_locked, 60);
    assert_eq!(s.arena_state.player1, Some("alice".to_string()));
    assert_eq!(s.arena_state.player2, Some("bob".to_string()));
}
