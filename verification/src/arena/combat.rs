//! How one round of combat resolves.
//!
//! Aggressive beats economy, economy beats defensive, defensive beats
//! aggressive: an attack (aggressive) hurts a player who prepares
//! (economy), preparing is free against a block (defensive), and a block
//! stops an attack.
use vstd::prelude::*;
use crate::arena::state::{Action, Class};

verus! {

/// The actions whose outcome the combat table knows.
#[derive(Clone, Copy, Debug, PartialEq, Eq)]
pub enum Move {
    Attack,
    Block,
    Prepare,
    UnblockableAttack,
    CounterAttack,
}

/// The move that an action's name denotes, if the combat table knows it.
pub open spec fn move_of(name: Seq<char>) -> Option<Move> {
    if name == "Attack"@ {
        Some(Move::Attack)
    } else if name == "Block"@ {
        Some(Move::Block)
    } else if name == "Prepare"@ {
        Some(Move::Prepare)
    } else if name == "UnblockableAttack"@ {
        Some(Move::UnblockableAttack)
    } else if name == "CounterAttack"@ {
        Some(Move::CounterAttack)
    } else {
        None
    }
}

/// Whether `attacker`'s move deals damage to a player who plays `defender`:
/// an attack is stopped by a block or a counter-attack, an unblockable
/// attack only by a counter-attack, a counter-attack answers attacks only,
/// and blocking or preparing deals no damage.
pub open spec fn hits(attacker: Move, defender: Move) -> bool {
    match attacker {
        Move::Attack => defender != Move::Block && defender != Move::CounterAttack,
        Move::UnblockableAttack => defender != Move::CounterAttack,
        Move::CounterAttack => defender == Move::Attack || defender == Move::UnblockableAttack,
        Move::Block => false,
        Move::Prepare => false,
    }
}

/// Half of `x`, rounded toward zero.
pub open spec fn half(x: int) -> int {
    if x >= 0 {
        x / 2
    } else {
        -((-x) / 2)
    }
}

/// The damage a hit deals at a power level: the base attack at level 1,
/// 50% more at level 2 (the half rounded toward zero), 100% more at level 3.
pub open spec fn leveled_damage(attack: int, level: int) -> int {
    if level == 2 {
        attack + half(attack)
    } else if level == 3 {
        2 * attack
    } else {
        attack
    }
}

/// Hit points and preparation of both players after a round in which they
/// played the actions named `name1` and `name2`, player 1 dealing `attack1`
/// damage when it hits and player 2 `attack2`: a player loses the
/// opponent's damage when hit, and is prepared afterwards exactly when they
/// prepared. A pair of actions the table does not know changes nothing.
pub open spec fn round_outcome(
    hp1: int,
    prep1: bool,
    hp2: int,
    prep2: bool,
    name1: Seq<char>,
    name2: Seq<char>,
    attack1: int,
    attack2: int,
) -> (int, bool, int, bool) {
    match (move_of(name1), move_of(name2)) {
        (Some(m1), Some(m2)) => (
            if hits(m2, m1) { hp1 - attack2 } else { hp1 },
            m1 == Move::Prepare,
            if hits(m1, m2) { hp2 - attack1 } else { hp2 },
            m2 == Move::Prepare,
        ),
        _ => (hp1, prep1, hp2, prep2),
    }
}

/// Both hit point totals of an outcome fit in an `i32`.
pub open spec fn outcome_fits(o: (int, bool, int, bool)) -> bool {
    &&& i32::MIN <= o.0 <= i32::MAX
    &&& i32::MIN <= o.2 <= i32::MAX
}

/// Whether `s` holds exactly the text `lit`.
pub fn text_is(s: &String, lit: &str) -> (b: bool)
    ensures
        b == (s@ == lit@),
{
    let expected = String::from_str(lit);
    *s == expected
}

/// The move that an action's name denotes, if any.
pub fn move_of_name(name: &String) -> (m: Option<Move>)
    ensures
        m == move_of(name@),
{
    if text_is(name, "Attack") {
        Some(Move::Attack)
    } else if text_is(name, "Block") {
        Some(Move::Block)
    } else if text_is(name, "Prepare") {
        Some(Move::Prepare)
    } else if text_is(name, "UnblockableAttack") {
        Some(Move::UnblockableAttack)
    } else if text_is(name, "CounterAttack") {
        Some(Move::CounterAttack)
    } else {
        None
    }
}

/// Whether the combat table has an entry for this pair of actions.
pub fn is_special_matchup(player1_action: &Action, player2_action: &Action) -> (b: bool)
    ensures
        b == (move_of(player1_action.name@) is Some && move_of(player2_action.name@) is Some),
{
    move_of_name(&player1_action.name).is_some() && move_of_name(&player2_action.name).is_some()
}

/// The damage of a hit from a class with base attack `attack` at `level`.
pub fn damage_at_level(attack: i32, level: i32) -> (d: i32)
    requires
        1 <= level <= 3,
        i32::MIN <= leveled_damage(attack as int, level as int) <= i32::MAX,
    ensures
        d as int == leveled_damage(attack as int, level as int),
{
    if level == 2 {
        attack + attack / 2
    } else if level == 3 {
        2 * attack
    } else {
        attack
    }
}

/// Resolves one round in which the players' actions have power levels
/// `player1_level` and `player2_level`: returns the new hit points and
/// preparation of player 1, then of player 2.
pub fn round_result(
    player1_hp: i32,
    player1_preparation: bool,
    player2_hp: i32,
    player2_preparation: bool,
    player1_action: &Action,
    player2_action: &Action,
    player1_class: &Class,
    player2_class: &Class,
    player1_level: i32,
    player2_level: i32,
) -> (res: (i32, bool, i32, bool))
    requires
        1 <= player1_level <= 3,
        1 <= player2_level <= 3,
        i32::MIN <= leveled_damage(player1_class.base_attack as int, player1_level as int)
            <= i32::MAX,
        i32::MIN <= leveled_damage(player2_class.base_attack as int, player2_level as int)
            <= i32::MAX,
        outcome_fits(
            round_outcome(
                player1_hp as int,
                player1_preparation,
                player2_hp as int,
                player2_preparation,
                player1_action.name@,
                player2_action.name@,
                leveled_damage(player1_class.base_attack as int, player1_level as int),
                leveled_damage(player2_class.base_attack as int, player2_level as int),
            ),
        ),
    ensures
        (res.0 as int, res.1, res.2 as int, res.3) == round_outcome(
            player1_hp as int,
            player1_preparation,
            player2_hp as int,
            player2_preparation,
            player1_action.name@,
            player2_action.name@,
            leveled_damage(player1_class.base_attack as int, player1_level as int),
            leveled_damage(player2_class.base_attack as int, player2_level as int),
        ),
{
    let mut new_player1_hp = player1_hp;
    let mut new_player1_preparation = player1_preparation;
    let mut new_player2_hp = player2_hp;
    let mut new_player2_preparation = player2_preparation;
    let attack1 = damage_at_level(player1_class.base_attack, player1_level);
    let attack2 = damage_at_level(player2_class.base_attack, player2_level);

    match (move_of_name(&player1_action.name), move_of_name(&player2_action.name)) {
        (Some(Move::Attack), Some(Move::Attack)) => {
            new_player1_hp = new_player1_hp - attack2;
            new_player2_hp = new_player2_hp - attack1;
            new_player1_preparation = false;
            new_player2_preparation = false;
        },
        (Some(Move::Attack), Some(Move::Block)) => {
            new_player1_preparation = false;
            new_player2_preparation = false;
        },
        (Some(Move::Attack), Some(Move::Prepare)) => {
            new_player2_hp = new_player2_hp - attack1;
            new_player1_preparation = false;
            new_player2_preparation = true;
        },
        (Some(Move::Attack), Some(Move::UnblockableAttack)) => {
            new_player1_hp = new_player1_hp - attack2;
            new_player2_hp = new_player2_hp - attack1;
            new_player1_preparation = false;
            new_player2_preparation = false;
        },
        (Some(Move::Attack), Some(Move::CounterAttack)) => {
            new_player1_hp = new_player1_hp - attack2;
            new_player1_preparation = false;
            new_player2_preparation = false;
        },
        (Some(Move::Block), Some(Move::Attack)) => {
            new_player1_preparation = false;
            new_player2_preparation = false;
        },
        (Some(Move::Block), Some(Move::Block)) => {
            new_player1_preparation = false;
            new_player2_preparation = false;
        },
        (Some(Move::Block), Some(Move::Prepare)) => {
            new_player1_preparation = false;
            new_player2_preparation = true;
        },
        (Some(Move::Block), Some(Move::UnblockableAttack)) => {
            new_player1_hp = new_player1_hp - attack2;
            new_player1_preparation = false;
            new_player2_preparation = false;
        },
        (Some(Move::Block), Some(Move::CounterAttack)) => {
            new_player1_preparation = false;
            new_player2_preparation = false;
        },
        (Some(Move::Prepare), Some(Move::Attack)) => {
            new_player1_hp = new_player1_hp - attack2;
            new_player1_preparation = true;
            new_player2_preparation = false;
        },
        (Some(Move::Prepare), Some(Move::Block)) => {
            new_player1_preparation = true;
            new_player2_preparation = false;
        },
        (Some(Move::Prepare), Some(Move::Prepare)) => {
            new_player1_preparation = true;
            new_player2_preparation = true;
        },
        (Some(Move::Prepare), Some(Move::UnblockableAttack)) => {
            new_player1_hp = new_player1_hp - attack2;
            new_player1_preparation = true;
            new_player2_preparation = false;
        },
        (Some(Move::Prepare), Some(Move::CounterAttack)) => {
            new_player1_preparation = true;
            new_player2_preparation = false;
        },
        (Some(Move::UnblockableAttack), Some(Move::Attack)) => {
            new_player1_hp = new_player1_hp - attack2;
            new_player2_hp = new_player2_hp - attack1;
            new_player1_preparation = false;
            new_player2_preparation = false;
        },
        (Some(Move::UnblockableAttack), Some(Move::Block)) => {
            new_player2_hp = new_player2_hp - attack1;
            new_player1_preparation = false;
            new_player2_preparation = false;
        },
        (Some(Move::UnblockableAttack), Some(Move::Prepare)) => {
            new_player2_hp = new_player2_hp - attack1;
            new_player1_preparation = false;
            new_player2_preparation = true;
        },
        (Some(Move::UnblockableAttack), Some(Move::UnblockableAttack)) => {
            new_player1_hp = new_player1_hp - attack2;
            new_player2_hp = new_player2_hp - attack1;
            new_player1_preparation = false;
            new_player2_preparation = false;
        },
        (Some(Move::UnblockableAttack), Some(Move::CounterAttack)) => {
            new_player1_hp = new_player1_hp - attack2;
            new_player1_preparation = false;
            new_player2_preparation = false;
        },
        (Some(Move::CounterAttack), Some(Move::Attack)) => {
            new_player2_hp = new_player2_hp - attack1;
            new_player1_preparation = false;
            new_player2_preparation = false;
        },
        (Some(Move::CounterAttack), Some(Move::Block)) => {
            new_player1_preparation = false;
            new_player2_preparation = false;
        },
        (Some(Move::CounterAttack), Some(Move::Prepare)) => {
            new_player1_preparation = false;
            new_player2_preparation = true;
        },
        (Some(Move::CounterAttack), Some(Move::UnblockableAttack)) => {
            new_player2_hp = new_player2_hp - attack1;
            new_player1_preparation = false;
            new_player2_preparation = false;
        },
        (Some(Move::CounterAttack), Some(Move::CounterAttack)) => {
            new_player1_preparation = false;
            new_player2_preparation = false;
        },
        _ => {},
    }
    (new_player1_hp, new_player1_preparation, new_player2_hp, new_player2_preparation)
}

/// The round is fair: exchanging the two players (their hit points,
/// preparation, actions and damage) exchanges the outcome.
pub proof fn lemma_round_outcome_symmetric(
    hp1: int,
    prep1: bool,
    hp2: int,
    prep2: bool,
    name1: Seq<char>,
    name2: Seq<char>,
    attack1: int,
    attack2: int,
)
    ensures
        ({
            let o = round_outcome(hp1, prep1, hp2, prep2, name1, name2, attack1, attack2);
            let s = round_outcome(hp2, prep2, hp1, prep1, name2, name1, attack2, attack1);
            o == (s.2, s.3, s.0, s.1)
        }),
{
}

/// A round never heals: with non-negative damage each player ends it with
/// at most the hit points they started with, and loses either nothing or
/// exactly the opponent's damage.
pub proof fn lemma_round_never_heals(
    hp1: int,
    prep1: bool,
    hp2: int,
    prep2: bool,
    name1: Seq<char>,
    name2: Seq<char>,
    attack1: int,
    attack2: int,
)
    requires
        attack1 >= 0,
        attack2 >= 0,
    ensures
        ({
            let o = round_outcome(hp1, prep1, hp2, prep2, name1, name2, attack1, attack2);
            &&& o.0 <= hp1
            &&& o.2 <= hp2
            &&& (o.0 == hp1 || o.0 == hp1 - attack2)
            &&& (o.2 == hp2 || o.2 == hp2 - attack1)
        }),
{
}

/// Aggressive beats economy, economy beats defensive, defensive beats
/// aggressive: an attack hurts a preparing opponent and costs the attacker
/// nothing; preparing against a block costs nothing and leaves the preparer
/// prepared; a block against an attack costs the blocker nothing.
pub proof fn lemma_action_cycle(
    hp1: int,
    prep1: bool,
    hp2: int,
    prep2: bool,
    attack1: int,
    attack2: int,
)
    ensures
        round_outcome(hp1, prep1, hp2, prep2, "Attack"@, "Prepare"@, attack1, attack2) == (
            hp1,
            false,
            hp2 - attack1,
            true,
        ),
        round_outcome(hp1, prep1, hp2, prep2, "Prepare"@, "Block"@, attack1, attack2) == (
            hp1,
            true,
            hp2,
            false,
        ),
        round_outcome(hp1, prep1, hp2, prep2, "Block"@, "Attack"@, attack1, attack2) == (
            hp1,
            false,
            hp2,
            false,
        ),
{
    lemma_move_names();
}

/// The five move names are different words, each denoting its own move.
pub proof fn lemma_move_names()
    ensures
        move_of("Attack"@) == Some(Move::Attack),
        move_of("Block"@) == Some(Move::Block),
        move_of("Prepare"@) == Some(Move::Prepare),
        move_of("UnblockableAttack"@) == Some(Move::UnblockableAttack),
        move_of("CounterAttack"@) == Some(Move::CounterAttack),
{
    reveal_strlit("Attack");
    reveal_strlit("Block");
    reveal_strlit("Prepare");
    reveal_strlit("UnblockableAttack");
    reveal_strlit("CounterAttack");
    assert("Attack"@[0] != "Block"@[0]);
    assert("Attack"@[0] != "Prepare"@[0]);
    assert("Attack"@[0] != "UnblockableAttack"@[0]);
    assert("Attack"@[0] != "CounterAttack"@[0]);
    assert("Block"@[0] != "Prepare"@[0]);
    assert("Block"@[0] != "UnblockableAttack"@[0]);
    assert("Block"@[0] != "CounterAttack"@[0]);
    assert("Prepare"@[0] != "UnblockableAttack"@[0]);
    assert("Prepare"@[0] != "CounterAttack"@[0]);
    assert("UnblockableAttack"@[0] != "CounterAttack"@[0]);
}

/// A counter-attacker is never hurt, and a blocker is hurt only by an
/// unblockable attack.
pub proof fn lemma_defensive_moves(
    hp1: int,
    prep1: bool,
    hp2: int,
    prep2: bool,
    name1: Seq<char>,
    name2: Seq<char>,
    attack1: int,
    attack2: int,
)
    ensures
        move_of(name1) == Some(Move::CounterAttack) ==> round_outcome(
            hp1,
            prep1,
            hp2,
            prep2,
            name1,
            name2,
            attack1,
            attack2,
        ).0 == hp1,
        move_of(name1) == Some(Move::Block) && move_of(name2) != Some(Move::UnblockableAttack)
            ==> round_outcome(hp1, prep1, hp2, prep2, name1, name2, attack1, attack2).0 == hp1,
{
}

/// A higher power level never deals less damage: for a non-negative base
/// attack, level 1 deals the base attack, level 2 half as much again and
/// level 3 twice as much.
pub proof fn lemma_levels_raise_damage(attack: int)
    requires
        attack >= 0,
    ensures
        leveled_damage(attack, 1) == attack,
        leveled_damage(attack, 2) == attack + attack / 2,
        leveled_damage(attack, 3) == 2 * attack,
        leveled_damage(attack, 1) <= leveled_damage(attack, 2) <= leveled_damage(attack, 3),
{
}

/// The combat table, pair by pair: what each pair of actions does to the
/// two players' hit points (each hit costs the opponent's damage) and
/// preparation (only preparing leaves a player prepared).
pub proof fn lemma_combat_table(
    hp1: int,
    prep1: bool,
    hp2: int,
    prep2: bool,
    damage1: int,
    damage2: int,
)
    ensures
        round_outcome(hp1, prep1, hp2, prep2, "Attack"@, "Attack"@, damage1, damage2) == (
            hp1 - damage2,
            false,
            hp2 - damage1,
            false,
        ),
        round_outcome(hp1, prep1, hp2, prep2, "Attack"@, "Block"@, damage1, damage2) == (
            hp1,
            false,
            hp2,
            false,
        ),
        round_outcome(hp1, prep1, hp2, prep2, "Attack"@, "Prepare"@, damage1, damage2) == (
            hp1,
            false,
            hp2 - damage1,
            true,
        ),
        round_outcome(hp1, prep1, hp2, prep2, "Attack"@, "UnblockableAttack"@, damage1, damage2) == (
            hp1 - damage2,
            false,
            hp2 - damage1,
            false,
        ),
        round_outcome(hp1, prep1, hp2, prep2, "Attack"@, "CounterAttack"@, damage1, damage2) == (
            hp1 - damage2,
            false,
            hp2,
            false,
        ),
        round_outcome(hp1, prep1, hp2, prep2, "Block"@, "Attack"@, damage1, damage2) == (
            hp1,
            false,
            hp2,
            false,
        ),
        round_outcome(hp1, prep1, hp2, prep2, "Block"@, "Block"@, damage1, damage2) == (
            hp1,
            false,
            hp2,
            false,
        ),
        round_outcome(hp1, prep1, hp2, prep2, "Block"@, "Prepare"@, damage1, damage2) == (
            hp1,
            false,
            hp2,
            true,
        ),
        round_outcome(hp1, prep1, hp2, prep2, "Block"@, "UnblockableAttack"@, damage1, damage2) == (
            hp1 - damage2,
            false,
            hp2,
            false,
        ),
        round_outcome(hp1, prep1, hp2, prep2, "Block"@, "CounterAttack"@, damage1, damage2) == (
            hp1,
            false,
            hp2,
            false,
        ),
        round_outcome(hp1, prep1, hp2, prep2, "Prepare"@, "Attack"@, damage1, damage2) == (
            hp1 - damage2,
            true,
            hp2,
            false,
        ),
        round_outcome(hp1, prep1, hp2, prep2, "Prepare"@, "Block"@, damage1, damage2) == (
            hp1,
            true,
            hp2,
            false,
        ),
        round_outcome(hp1, prep1, hp2, prep2, "Prepare"@, "Prepare"@, damage1, damage2) == (
            hp1,
            true,
            hp2,
            true,
        ),
        round_outcome(hp1, prep1, hp2, prep2, "Prepare"@, "UnblockableAttack"@, damage1, damage2) == (
            hp1 - damage2,
            true,
            hp2,
            false,
        ),
        round_outcome(hp1, prep1, hp2, prep2, "Prepare"@, "CounterAttack"@, damage1, damage2) == (
            hp1,
            true,
            hp2,
            false,
        ),
        round_outcome(hp1, prep1, hp2, prep2, "UnblockableAttack"@, "Attack"@, damage1, damage2) == (
            hp1 - damage2,
            false,
            hp2 - damage1,
            false,
        ),
        round_outcome(hp1, prep1, hp2, prep2, "UnblockableAttack"@, "Block"@, damage1, damage2) == (
            hp1,
            false,
            hp2 - damage1,
            false,
        ),
        round_outcome(hp1, prep1, hp2, prep2, "UnblockableAttack"@, "Prepare"@, damage1, damage2) == (
            hp1,
            false,
            hp2 - damage1,
            true,
        ),
        round_outcome(hp1, prep1, hp2, prep2, "UnblockableAttack"@, "UnblockableAttack"@, damage1, damage2) == (
            hp1 - damage2,
            false,
            hp2 - damage1,
            false,
        ),
        round_outcome(hp1, prep1, hp2, prep2, "UnblockableAttack"@, "CounterAttack"@, damage1, damage2) == (
            hp1 - damage2,
            false,
            hp2,
            false,
        ),
        round_outcome(hp1, prep1, hp2, prep2, "CounterAttack"@, "Attack"@, damage1, damage2) == (
            hp1,
            false,
            hp2 - damage1,
            false,
        ),
        round_outcome(hp1, prep1, hp2, prep2, "CounterAttack"@, "Block"@, damage1, damage2) == (
            hp1,
            false,
            hp2,
            false,
        ),
        round_outcome(hp1, prep1, hp2, prep2, "CounterAttack"@, "Prepare"@, damage1, damage2) == (
            hp1,
            false,
            hp2,
            true,
        ),
        round_outcome(hp1, prep1, hp2, prep2, "CounterAttack"@, "UnblockableAttack"@, damage1, damage2) == (
            hp1,
            false,
            hp2 - damage1,
            false,
        ),
        round_outcome(hp1, prep1, hp2, prep2, "CounterAttack"@, "CounterAttack"@, damage1, damage2) == (
            hp1,
            false,
            hp2,
            false,
        ),
{
    lemma_move_names();
}

/// An action that is none of the five the table knows changes nothing,
/// whatever the other action is.
pub proof fn lemma_unknown_action_changes_nothing(
    hp1: int,
    prep1: bool,
    hp2: int,
    prep2: bool,
    name1: Seq<char>,
    name2: Seq<char>,
    damage1: int,
    damage2: int,
)
    requires
        name1 != "Attack"@ && name1 != "Block"@ && name1 != "Prepare"@
            && name1 != "UnblockableAttack"@ && name1 != "CounterAttack"@
            || name2 != "Attack"@ && name2 != "Block"@ && name2 != "Prepare"@
            && name2 != "UnblockableAttack"@ && name2 != "CounterAttack"@,
    ensures
        round_outcome(hp1, prep1, hp2, prep2, name1, name2, damage1, damage2) == (
            hp1,
            prep1,
            hp2,
            prep2,
        ),
{
}

} // verus!
