use secret_brawl::arena::combat::{damage_at_level, is_special_matchup, move_of_name, round_result, Move};
use secret_brawl::arena::simulation::{run_simulation, sample_state};
use secret_brawl::arena::state::{Action, Class};

fn action(name: &str, preparation_needed: bool) -> Action {
    Action { name: name.to_string(), preparation_needed }
}

fn class(name: &str, base_attack: i32) -> Class {
    Class {
        name: name.to_string(),
        base_hp: 125,
        base_attack,
        base_dodge_chance: 0,
        actions: vec![],
    }
}

fn play(a1: &str, a2: &str) -> (i32, bool, i32, bool) {
    round_result(
        100,
        true,
        90,
        true,
        &action(a1, false),
        &action(a2, false),
        &class("One", 20),
        &class("Two", 7),
        1,
        1,
    )
}

#[test]
fn attack_against_attack_hurts_both() {
    assert_eq!(play("Attack", "Attack"), (93, false, 70, false));
}

#[test]
fn block_stops_attack() {
    assert_eq!(play("Attack", "Block"), (100, false, 90, false));
    assert_eq!(play("Block", "Attack"), (100, false, 90, false));
}

#[test]
fn attack_hurts_preparer() {
    assert_eq!(play("Attack", "Prepare"), (100, false, 70, true));
    assert_eq!(play("Prepare", "Attack"), (93, true, 90, false));
}

#[test]
fn prepare_against_block_is_free() {
    assert_eq!(play("Prepare", "Block"), (100, true, 90, false));
    assert_eq!(play("Prepare", "Prepare"), (100, true, 90, true));
}

#[test]
fn unblockable_attack_goes_through_block() {
    assert_eq!(play("UnblockableAttack", "Block"), (100, false, 70, false));
    assert_eq!(play("Block", "UnblockableAttack"), (93, false, 90, false));
    assert_eq!(play("UnblockableAttack", "UnblockableAttack"), (93, false, 70, false));
}

#[test]
fn counter_attack_answers_attacks() {
    assert_eq!(play("Attack", "CounterAttack"), (93, false, 90, false));
    assert_eq!(play("CounterAttack", "Attack"), (100, false, 70, false));
    assert_eq!(play("CounterAttack", "UnblockableAttack"), (100, false, 70, false));
    assert_eq!(play("UnblockableAttack", "CounterAttack"), (93, false, 90, false));
    assert_eq!(play("CounterAttack", "Prepare"), (100, false, 90, true));
    assert_eq!(play("CounterAttack", "CounterAttack"), (100, false, 90, false));
}

#[test]
fn unknown_pair_changes_nothing() {
    assert_eq!(play("DoubleAttack", "Attack"), (100, true, 90, true));
    assert_eq!(play("Attack", "IncreaseDodgeChance"), (100, true, 90, true));
}

#[test]
fn every_known_pair_is_symmetric() {
    let names = ["Attack", "Block", "Prepare", "UnblockableAttack", "CounterAttack"];
    for a in names.iter() {
        for b in names.iter() {
            let (h1, p1, h2, p2) = round_result(
                50, false, 60, true, &action(a, false), &action(b, false),
                &class("One", 3), &class("Two", 11), 2, 3,
            );
            let (g2, q2, g1, q1) = round_result(
                60, true, 50, false, &action(b, false), &action(a, false),
                &class("Two", 11), &class("One", 3), 3, 2,
            );
            assert_eq!((h1, p1, h2, p2), (g1, q1, g2, q2));
        }
    }
}

#[test]
fn move_names() {
    assert_eq!(move_of_name(&"Attack".to_string()), Some(Move::Attack));
    assert_eq!(move_of_name(&"CounterAttack".to_string()), Some(Move::CounterAttack));
    assert_eq!(move_of_name(&"attack".to_string()), None);
}

#[test]
fn special_matchups() {
    assert!(is_special_matchup(&action("Attack", false), &action("Prepare", false)));
    assert!(!is_special_matchup(&action("Attack", false), &action("DoubleAttack", true)));
}

#[test]
fn simulation_of_attack_against_prepare() {
    assert_eq!(run_simulation(), (105, false, 85, true));
}

#[test]
fn simulation_classes() {
    let state = sample_state();
    assert_eq!(state.classes.len(), 2);
    assert_eq!(state.classes[0].name, "Warrior");
    assert_eq!(state.classes[0].base_hp, 125);
    assert_eq!(state.classes[1].name, "Archer");
    assert_eq!(state.classes[1].base_attack, 25);
    assert_eq!(state.classes[1].actions[3].name, "IncreaseDodgeChance");
}

#[test]
fn levels_raise_damage() {
    assert_eq!(damage_at_level(20, 1), 20);
    assert_eq!(damage_at_level(20, 2), 30);
    assert_eq!(damage_at_level(20, 3), 40);
    assert_eq!(damage_at_level(25, 2), 37);
    assert_eq!(damage_at_level(-25, 2), -37);
    let r = round_result(
        100,
        false,
        100,
        false,
        &action("Attack", false),
        &action("Attack", false),
        &class("One", 20),
        &class("Two", 26),
        3,
        2,
    );
    assert_eq!(r, (61, false, 60, false));
}
