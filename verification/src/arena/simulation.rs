//! A stand-alone run of one round between two warriors, to try the combat
//! table out.
use vstd::prelude::*;
use crate::arena::combat::{lemma_move_names, round_result};
use crate::arena::state::{Action, ActionView, Class, ClassView};

verus! {

/// The classes the simulation knows.
pub struct State {
    pub classes: Vec<Class>,
}

/// The simulation's warrior.
pub open spec fn simulated_warrior() -> ClassView {
    ClassView {
        name: "Warrior"@,
        base_hp: 125,
        base_attack: 20,
        base_dodge_chance: 0,
        actions: seq![
            ActionView { name: "Attack"@, preparation_needed: false },
            ActionView { name: "UnblockableAttack"@, preparation_needed: true },
            ActionView { name: "Block"@, preparation_needed: false },
            ActionView { name: "CounterAttack"@, preparation_needed: true },
            ActionView { name: "Prepare"@, preparation_needed: false },
        ],
    }
}

/// The simulation's archer: fewer hit points, a stronger attack, a chance
/// to dodge.
pub open spec fn simulated_archer() -> ClassView {
    ClassView {
        name: "Archer"@,
        base_hp: 100,
        base_attack: 25,
        base_dodge_chance: 20,
        actions: seq![
            ActionView { name: "Attack"@, preparation_needed: false },
            ActionView { name: "DoubleAttack"@, preparation_needed: true },
            ActionView { name: "Block"@, preparation_needed: false },
            ActionView { name: "IncreaseDodgeChance"@, preparation_needed: true },
            ActionView { name: "Prepare"@, preparation_needed: false },
        ],
    }
}

fn sim_action(name: &str, preparation_needed: bool) -> (a: Action)
    ensures
        a@ == (ActionView { name: name@, preparation_needed: preparation_needed }),
{
    Action { name: String::from_str(name), preparation_needed }
}

/// The simulation's classes: the warrior, then the archer.
pub fn sample_state() -> (s: State)
    ensures
        s.classes@.map_values(|c: Class| c@) == seq![simulated_warrior(), simulated_archer()],
{
    let mut warrior_actions: Vec<Action> = Vec::new();
    warrior_actions.push(sim_action("Attack", false));
    warrior_actions.push(sim_action("UnblockableAttack", true));
    warrior_actions.push(sim_action("Block", false));
    warrior_actions.push(sim_action("CounterAttack", true));
    warrior_actions.push(sim_action("Prepare", false));
    let warrior = Class {
        name: String::from_str("Warrior"),
        base_hp: 125,
        base_attack: 20,
        base_dodge_chance: 0,
        actions: warrior_actions,
    };
    let mut archer_actions: Vec<Action> = Vec::new();
    archer_actions.push(sim_action("Attack", false));
    archer_actions.push(sim_action("DoubleAttack", true));
    archer_actions.push(sim_action("Block", false));
    archer_actions.push(sim_action("IncreaseDodgeChance", true));
    archer_actions.push(sim_action("Prepare", false));
    let archer = Class {
        name: String::from_str("Archer"),
        base_hp: 100,
        base_attack: 25,
        base_dodge_chance: 20,
        actions: archer_actions,
    };
    assert(warrior@.actions =~= simulated_warrior().actions);
    assert(archer@.actions =~= simulated_archer().actions);
    let mut classes: Vec<Class> = Vec::new();
    classes.push(warrior);
    classes.push(archer);
    let s = State { classes };
    assert(s.classes@.map_values(|c: Class| c@) =~= seq![simulated_warrior(), simulated_archer()]);
    s
}

/// A warrior who attacks against a warrior who prepares, both at 105 hit
/// points, the second already prepared, both actions at power level 1: the
/// attacker is untouched and no longer prepared, the preparer loses the
/// warrior's 20 and stays prepared.
pub fn run_simulation() -> (r: (i32, bool, i32, bool))
    ensures
        r == (105i32, false, 85i32, true),
{
    let state = sample_state();
    proof {
        let views = state.classes@.map_values(|c: Class| c@);
        assert(views.len() == 2);
        assert(views[0] == simulated_warrior());
    }
    let warrior = &state.classes[0];
    proof {
        assert(warrior@ == simulated_warrior());
        assert(warrior@.actions.len() == 5);
        assert(warrior@.actions[0] == simulated_warrior().actions[0]);
        assert(warrior@.actions[4] == simulated_warrior().actions[4]);
        lemma_move_names();
    }
    let attack = &warrior.actions[0];
    let prepare = &warrior.actions[4];
    let player1_hp: i32 = 105;
    let player2_hp: i32 = 105;
    round_result(player1_hp, false, player2_hp, true, attack, prepare, warrior, warrior, 1, 1)
}

} // verus!
