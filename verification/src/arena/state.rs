//! The arena's stored state, its mathematical view and its invariant.
use vstd::prelude::*;

verus! {

/// Largest starting hit points a class may have.
pub const MAX_CLASS_HP: i32 = 1_000_000;

/// Largest damage a class may deal in one round.
pub const MAX_CLASS_ATTACK: i32 = 1_000_000;

/// Largest damage one hit may deal: the largest attack at the highest
/// power level.
pub const MAX_HIT: i32 = 2_000_000;

/// Largest number of rounds an arena may hold.
pub const MAX_ROUNDS: usize = 1000;

/// An action that a class may take in a round.
#[derive(Clone, Debug, PartialEq, Eq)]
pub struct Action {
    pub name: String,
    pub preparation_needed: bool,
}

pub struct ActionView {
    pub name: Seq<char>,
    pub preparation_needed: bool,
}

impl View for Action {
    type V = ActionView;

    open spec fn view(&self) -> ActionView {
        ActionView { name: self.name@, preparation_needed: self.preparation_needed }
    }
}

/// A character class that a player picks when joining an arena.
#[derive(Clone, Debug, PartialEq, Eq)]
pub struct Class {
    pub name: String,
    pub base_hp: i32,
    pub base_attack: i32,
    pub base_dodge_chance: i32,
    pub actions: Vec<Action>,
}

pub struct ClassView {
    pub name: Seq<char>,
    pub base_hp: i32,
    pub base_attack: i32,
    pub base_dodge_chance: i32,
    pub actions: Seq<ActionView>,
}

impl View for Class {
    type V = ClassView;

    open spec fn view(&self) -> ClassView {
        ClassView {
            name: self.name@,
            base_hp: self.base_hp,
            base_attack: self.base_attack,
            base_dodge_chance: self.base_dodge_chance,
            actions: self.actions@.map_values(|a: Action| a@),
        }
    }
}

/// A power level with its bonus.
#[derive(Clone, Debug, PartialEq, Eq)]
pub struct Level {
    pub number: i32,
    pub bonus: i32,
}

/// One round of a match: the players' hit points and preparation at its
/// start, and the actions they chose in it.
#[derive(Clone, Debug, PartialEq, Eq)]
pub struct Round {
    pub number: i32,
    /// "Empty", then "WaitingActions", then "Completed".
    pub status: String,
    pub player1_hp: Option<i32>,
    pub player1_preparation: Option<bool>,
    pub player2_hp: Option<i32>,
    pub player2_preparation: Option<bool>,
    pub player1_action_name: Option<String>,
    pub player1_attack_level: Option<i32>,
    pub player2_action_name: Option<String>,
    pub player2_attack_level: Option<i32>,
}

pub struct RoundView {
    pub number: i32,
    pub status: Seq<char>,
    pub player1_hp: Option<i32>,
    pub player1_preparation: Option<bool>,
    pub player2_hp: Option<i32>,
    pub player2_preparation: Option<bool>,
    pub player1_action_name: Option<Seq<char>>,
    pub player1_attack_level: Option<i32>,
    pub player2_action_name: Option<Seq<char>>,
    pub player2_attack_level: Option<i32>,
}

impl View for Round {
    type V = RoundView;

    open spec fn view(&self) -> RoundView {
        RoundView {
            number: self.number,
            status: self.status@,
            player1_hp: self.player1_hp,
            player1_preparation: self.player1_preparation,
            player2_hp: self.player2_hp,
            player2_preparation: self.player2_preparation,
            player1_action_name: self.player1_action_name.deep_view(),
            player1_attack_level: self.player1_attack_level,
            player2_action_name: self.player2_action_name.deep_view(),
            player2_attack_level: self.player2_attack_level,
        }
    }
}

/// A short public summary of an arena.
#[derive(Clone, Debug, PartialEq, Eq)]
pub struct ArenaPreview {
    pub name: String,
    pub num_players: i32,
    pub num_rounds: i32,
}

/// Where the factory that created the arena lives, and the key that
/// authenticates the arena to it.
#[derive(Clone, Debug, PartialEq, Eq)]
pub struct FactoryInfo {
    pub contract_address: String,
    pub contract_hash: String,
    pub auth_key: String,
}

pub struct FactoryInfoView {
    pub contract_address: Seq<char>,
    pub contract_hash: Seq<char>,
    pub auth_key: Seq<char>,
}

impl View for FactoryInfo {
    type V = FactoryInfoView;

    open spec fn view(&self) -> FactoryInfoView {
        FactoryInfoView {
            contract_address: self.contract_address@,
            contract_hash: self.contract_hash@,
            auth_key: self.auth_key@,
        }
    }
}

/// Totals over finished brawls.
#[derive(Clone, Debug, PartialEq, Eq)]
pub struct Statistics {
    pub total_finished_brawls: i32,
    pub total_betted: u128,
}

/// The match in an arena: the two seats, the stake locked and the rounds.
#[derive(Clone, Debug, PartialEq, Eq)]
pub struct ArenaState {
    pub tokens_locked: u128,
    pub player1: Option<String>,
    pub player1_class_name: Option<String>,
    pub player2: Option<String>,
    pub player2_class_name: Option<String>,
    pub rounds: Vec<Round>,
}

pub struct ArenaStateView {
    pub tokens_locked: u128,
    pub player1: Option<Seq<char>>,
    pub player1_class_name: Option<Seq<char>>,
    pub player2: Option<Seq<char>>,
    pub player2_class_name: Option<Seq<char>>,
    pub rounds: Seq<RoundView>,
}

impl View for ArenaState {
    type V = ArenaStateView;

    open spec fn view(&self) -> ArenaStateView {
        ArenaStateView {
            tokens_locked: self.tokens_locked,
            player1: self.player1.deep_view(),
            player1_class_name: self.player1_class_name.deep_view(),
            player2: self.player2.deep_view(),
            player2_class_name: self.player2_class_name.deep_view(),
            rounds: self.rounds@.map_values(|r: Round| r@),
        }
    }
}

/// Everything an arena stores.
#[derive(Clone, Debug, PartialEq, Eq)]
pub struct State {
    pub arena_name: String,
    pub known_snip_20: Vec<String>,
    pub secret_entropy: Vec<[u8; 8]>,
    pub arena_state: ArenaState,
    pub classes: Vec<Class>,
    pub factory: FactoryInfo,
}

pub struct StateView {
    pub arena_name: Seq<char>,
    pub known_snip_20: Seq<Seq<char>>,
    pub secret_entropy: Seq<Seq<u8>>,
    pub arena_state: ArenaStateView,
    pub classes: Seq<ClassView>,
    pub factory: FactoryInfoView,
}

impl View for State {
    type V = StateView;

    open spec fn view(&self) -> StateView {
        StateView {
            arena_name: self.arena_name@,
            known_snip_20: self.known_snip_20.deep_view(),
            secret_entropy: self.secret_entropy@.map_values(|e: [u8; 8]| e@),
            arena_state: self.arena_state@,
            classes: self.classes@.map_values(|c: Class| c@),
            factory: self.factory@,
        }
    }
}

/// The status of a round no player has reached yet.
pub open spec fn status_empty() -> Seq<char> {
    "Empty"@
}

/// The status of the round in which the players choose their actions.
pub open spec fn status_waiting() -> Seq<char> {
    "WaitingActions"@
}

/// The status of a round whose actions have both been resolved.
pub open spec fn status_completed() -> Seq<char> {
    "Completed"@
}

/// Rounds pass from "Completed" through "WaitingActions" to "Empty", in order.
pub open spec fn status_rank(status: Seq<char>) -> int {
    if status == status_completed() {
        0
    } else if status == status_waiting() {
        1
    } else {
        2
    }
}

pub open spec fn is_known_status(status: Seq<char>) -> bool {
    status == status_empty() || status == status_waiting() || status == status_completed()
}

/// The three statuses are different words.
pub proof fn lemma_statuses_distinct()
    ensures
        status_empty() != status_waiting(),
        status_empty() != status_completed(),
        status_waiting() != status_completed(),
{
    reveal_strlit("Empty");
    reveal_strlit("WaitingActions");
    reveal_strlit("Completed");
    assert(status_empty()[0] != status_waiting()[0]);
    assert(status_empty()[0] != status_completed()[0]);
    assert(status_waiting()[0] != status_completed()[0]);
}

impl ClassView {
    /// The class offers an action of this name for this state of preparation.
    pub open spec fn has_action(self, name: Seq<char>, preparation: bool) -> bool {
        exists|i: int|
            0 <= i < self.actions.len() && #[trigger] self.actions[i].name == name
                && self.actions[i].preparation_needed == preparation
    }

    pub open spec fn wf(self) -> bool {
        &&& 0 <= self.base_hp <= MAX_CLASS_HP
        &&& 0 <= self.base_attack <= MAX_CLASS_ATTACK
    }
}

/// Some class of the list carries this name.
pub open spec fn class_exists(classes: Seq<ClassView>, name: Seq<char>) -> bool {
    exists|i: int| 0 <= i < classes.len() && #[trigger] classes[i].name == name
}

/// The class of the list that carries this name (names are unique in a
/// well-formed state).
pub open spec fn class_named(classes: Seq<ClassView>, name: Seq<char>) -> ClassView {
    let i = choose|i: int| 0 <= i < classes.len() && #[trigger] classes[i].name == name;
    classes[i]
}

pub open spec fn classes_wf(classes: Seq<ClassView>) -> bool {
    &&& forall|i: int| 0 <= i < classes.len() ==> (#[trigger] classes[i]).wf()
    &&& forall|i: int, j: int|
        0 <= i < classes.len() && 0 <= j < classes.len() && i != j ==> #[trigger] classes[i].name
            != #[trigger] classes[j].name
}

impl ArenaStateView {
    /// The class of player 1 (meaningful once player 1 has joined).
    pub open spec fn class1(self, classes: Seq<ClassView>) -> ClassView {
        class_named(classes, self.player1_class_name.unwrap())
    }

    /// The class of player 2 (meaningful once player 2 has joined).
    pub open spec fn class2(self, classes: Seq<ClassView>) -> ClassView {
        class_named(classes, self.player2_class_name.unwrap())
    }

    /// The round at index `i`, in which both players choose actions, is
    /// consistent: its hit points stay in the range that `i` rounds of
    /// damage allow, and any chosen action is one the player's class offers,
    /// recorded with a power level from 1 to 3.
    pub open spec fn waiting_round_wf(self, classes: Seq<ClassView>, i: int) -> bool {
        let r = self.rounds[i];
        &&& r.player1_hp is Some
        &&& r.player2_hp is Some
        &&& r.player1_preparation is Some
        &&& r.player2_preparation is Some
        &&& -(i * MAX_HIT) <= r.player1_hp.unwrap() <= MAX_CLASS_HP
        &&& -(i * MAX_HIT) <= r.player2_hp.unwrap() <= MAX_CLASS_HP
        &&& r.player1_action_name is Some ==> (r.player1_attack_level matches Some(l) && 1 <= l
            <= 3)
        &&& r.player2_action_name is Some ==> (r.player2_attack_level matches Some(l) && 1 <= l
            <= 3)
        &&& r.player1_action_name is Some ==> self.class1(classes).has_action(
            r.player1_action_name.unwrap(),
            r.player1_preparation.unwrap(),
        )
        &&& r.player2_action_name is Some ==> self.class2(classes).has_action(
            r.player2_action_name.unwrap(),
            r.player2_preparation.unwrap(),
        )
    }

    pub open spec fn wf(self, classes: Seq<ClassView>) -> bool {
        let rounds = self.rounds;
        &&& 1 <= rounds.len() <= MAX_ROUNDS
        &&& forall|i: int| 0 <= i < rounds.len() ==> (#[trigger] rounds[i]).number == i + 1
        &&& forall|i: int| 0 <= i < rounds.len() ==> is_known_status((#[trigger] rounds[i]).status)
        &&& forall|i: int, j: int|
            0 <= i <= j < rounds.len() ==> status_rank(#[trigger] rounds[i].status) <= status_rank(
                #[trigger] rounds[j].status,
            )
        &&& forall|i: int, j: int|
            0 <= i < j < rounds.len() ==> !(#[trigger] rounds[i].status == status_waiting()
                && #[trigger] rounds[j].status == status_waiting())
        &&& (self.player1 is Some <==> self.player1_class_name is Some)
        &&& (self.player2 is Some <==> self.player2_class_name is Some)
        &&& self.player2 is Some ==> self.player1 is Some
        &&& self.player2 is Some ==> self.player1 != self.player2
        &&& self.player1 is None ==> self.tokens_locked == 0
        &&& self.player1_class_name is Some ==> class_exists(
            classes,
            self.player1_class_name.unwrap(),
        )
        &&& self.player2_class_name is Some ==> class_exists(
            classes,
            self.player2_class_name.unwrap(),
        )
        &&& self.player2 is None ==> forall|i: int|
            0 <= i < rounds.len() ==> (#[trigger] rounds[i]).status == status_empty()
        &&& forall|i: int|
            0 <= i < rounds.len() && (#[trigger] rounds[i]).status == status_empty() ==> {
                &&& rounds[i].player1_action_name is None
                &&& rounds[i].player2_action_name is None
            }
        &&& forall|i: int|
            0 <= i < rounds.len() && (#[trigger] rounds[i]).status == status_waiting()
                ==> self.waiting_round_wf(classes, i)
    }
}

impl StateView {
    /// The invariant that every state of an arena keeps: classes within
    /// bounds and uniquely named, rounds numbered in order and passing
    /// through their statuses in order, at most one round awaiting actions,
    /// seats filled in order by two different players with valid classes,
    /// nothing locked while no one is seated.
    pub open spec fn wf(self) -> bool {
        &&& classes_wf(self.classes)
        &&& self.arena_state.wf(self.classes)
    }
}

} // verus!
