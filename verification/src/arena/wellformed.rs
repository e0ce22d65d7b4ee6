//! Checking at run time that a stored state keeps the arena's invariant.
use vstd::prelude::*;
use crate::arena::combat::text_is;
use crate::arena::join::{find_class, lemma_class_named};
use crate::arena::round::find_action;
use crate::arena::state::{
    ArenaStateView, Class, ClassView, Round, RoundView, State, class_exists, class_named, classes_wf,
    is_known_status, lemma_statuses_distinct, status_completed, status_empty, status_rank,
    status_waiting, MAX_CLASS_ATTACK, MAX_CLASS_HP, MAX_HIT, MAX_ROUNDS,
};

verus! {

fn rank_of(status: &String) -> (r: u8)
    ensures
        r as int == status_rank(status@),
{
    if text_is(status, "Completed") {
        0
    } else if text_is(status, "WaitingActions") {
        1
    } else {
        2
    }
}

/// Whether the classes are bounded and uniquely named.
fn classes_ok(classes: &Vec<Class>) -> (b: bool)
    ensures
        b == classes_wf(classes@.map_values(|c: Class| c@)),
{
    let ghost v = classes@.map_values(|c: Class| c@);
    let mut i: usize = 0;
    while i < classes.len()
        invariant
            i <= classes@.len(),
            v == classes@.map_values(|c: Class| c@),
            forall|a: int| 0 <= a < i ==> (#[trigger] v[a]).wf(),
            forall|a: int, b: int| 0 <= a < b < i ==> #[trigger] v[a].name != #[trigger] v[b].name,
        decreases classes@.len() - i,
    {
        let c = &classes[i];
        if !(0 <= c.base_hp && c.base_hp <= MAX_CLASS_HP && 0 <= c.base_attack && c.base_attack
            <= MAX_CLASS_ATTACK) {
            assert(!v[i as int].wf());
            return false;
        }
        let mut j: usize = 0;
        while j < i
            invariant
                j <= i < classes@.len(),
                v == classes@.map_values(|c: Class| c@),
                forall|a: int| 0 <= a < j ==> (#[trigger] v[a]).name != v[i as int].name,
            decreases i - j,
        {
            if classes[j].name == classes[i].name {
                assert(v[j as int].name == v[i as int].name);
                return false;
            }
            j = j + 1;
        }
        i = i + 1;
    }
    assert forall|a: int, b: int|
        0 <= a < v.len() && 0 <= b < v.len() && a != b implies #[trigger] v[a].name
        != #[trigger] v[b].name by {
        if a < b {
            assert(v[a].name != v[b].name);
        } else {
            assert(v[b].name != v[a].name);
        }
    }
    true
}

/// The seat conditions of the invariant: each seat has a class exactly when
/// taken, the class exists, the second seat only after the first and by a
/// different player, nothing locked while no one sits.
pub open spec fn seats_wf(a: ArenaStateView, classes: Seq<ClassView>) -> bool {
    &&& (a.player1 is Some <==> a.player1_class_name is Some)
    &&& (a.player2 is Some <==> a.player2_class_name is Some)
    &&& a.player2 is Some ==> a.player1 is Some
    &&& a.player2 is Some ==> a.player1 != a.player2
    &&& a.player1 is None ==> a.tokens_locked == 0
    &&& a.player1_class_name is Some ==> class_exists(classes, a.player1_class_name.unwrap())
    &&& a.player2_class_name is Some ==> class_exists(classes, a.player2_class_name.unwrap())
}

fn class_of(classes: &Vec<Class>, name: &Option<String>) -> (r: Option<usize>)
    requires
        classes_wf(classes@.map_values(|c: Class| c@)),
    ensures
        name is None ==> r is None,
        name is Some ==> match r {
            Some(i) => i < classes@.len() && class_exists(
                classes@.map_values(|c: Class| c@),
                name.deep_view().unwrap(),
            ) && class_named(classes@.map_values(|c: Class| c@), name.deep_view().unwrap())
                == classes@[i as int]@,
            None => !class_exists(classes@.map_values(|c: Class| c@), name.deep_view().unwrap()),
        },
{
    match name {
        Some(n) => {
            let found = find_class(classes, n);
            proof {
                if found is Some {
                    lemma_class_named(classes@.map_values(|c: Class| c@), found.unwrap() as int);
                }
            }
            found
        },
        None => None,
    }
}

fn seats_ok(state: &State) -> (r: (bool, Option<usize>, Option<usize>))
    requires
        classes_wf(state@.classes),
    ensures
        r.0 == seats_wf(state@.arena_state, state@.classes),
        r.0 ==> (r.1 is Some <==> state@.arena_state.player1 is Some),
        r.0 ==> (r.2 is Some <==> state@.arena_state.player2 is Some),
        r.0 && r.1 is Some ==> r.1.unwrap() < state.classes@.len() && state@.arena_state.class1(
            state@.classes,
        ) == state@.classes[r.1.unwrap() as int],
        r.0 && r.2 is Some ==> r.2.unwrap() < state.classes@.len() && state@.arena_state.class2(
            state@.classes,
        ) == state@.classes[r.2.unwrap() as int],
{
    let a = &state.arena_state;
    let c1 = class_of(&state.classes, &a.player1_class_name);
    let c2 = class_of(&state.classes, &a.player2_class_name);
    let ok1 = a.player1.is_some() == a.player1_class_name.is_some();
    let ok2 = a.player2.is_some() == a.player2_class_name.is_some();
    let order = a.player2.is_none() || a.player1.is_some();
    let distinct = match (&a.player1, &a.player2) {
        (Some(x), Some(y)) => *x != *y,
        _ => true,
    };
    let locked = a.player1.is_some() || a.tokens_locked == 0;
    let exists1 = a.player1_class_name.is_none() || c1.is_some();
    let exists2 = a.player2_class_name.is_none() || c2.is_some();
    (ok1 && ok2 && order && distinct && locked && exists1 && exists2, c1, c2)
}

fn waiting_round_ok(state: &State, i: usize, c1: usize, c2: usize) -> (b: bool)
    requires
        i < state.arena_state.rounds@.len() <= MAX_ROUNDS,
        c1 < state.classes@.len(),
        c2 < state.classes@.len(),
        state@.arena_state.class1(state@.classes) == state@.classes[c1 as int],
        state@.arena_state.class2(state@.classes) == state@.classes[c2 as int],
    ensures
        b == state@.arena_state.waiting_round_wf(state@.classes, i as int),
{
    let r = &state.arena_state.rounds[i];
    let ghost rv = state@.arena_state.rounds[i as int];
    assert(rv == r@);
    if r.player1_hp.is_none() || r.player2_hp.is_none() || r.player1_preparation.is_none()
        || r.player2_preparation.is_none() {
        return false;
    }
    let low: i64 = -(i as i64) * 2_000_000i64;
    let hp1 = r.player1_hp.unwrap() as i64;
    let hp2 = r.player2_hp.unwrap() as i64;
    if hp1 < low || hp1 > 1_000_000 || hp2 < low || hp2 > 1_000_000 {
        return false;
    }
    match &r.player1_action_name {
        Some(name) => {
            if find_action(&state.classes[c1], name, r.player1_preparation.unwrap()).is_none() {
                return false;
            }
            match r.player1_attack_level {
                Some(l) => {
                    if l < 1 || l > 3 {
                        return false;
                    }
                },
                None => {
                    return false;
                },
            }
        },
        None => {},
    }
    match &r.player2_action_name {
        Some(name) => {
            if find_action(&state.classes[c2], name, r.player2_preparation.unwrap()).is_none() {
                return false;
            }
            match r.player2_attack_level {
                Some(l) => {
                    if l < 1 || l > 3 {
                        return false;
                    }
                },
                None => {
                    return false;
                },
            }
        },
        None => {},
    }
    proof {
        let c = state@.classes[c1 as int];
        let d = state@.classes[c2 as int];
        if rv.player1_action_name is Some {
            let k = choose|k: int|
                0 <= k < state.classes@[c1 as int].actions@.len() && state.classes@[c1 as int].actions@[k]@.name == rv.player1_action_name.unwrap()
                    && state.classes@[c1 as int].actions@[k].preparation_needed == rv.player1_preparation.unwrap();
            assert(c.actions[k].name == rv.player1_action_name.unwrap());
        }
        if rv.player2_action_name is Some {
            let k = choose|k: int|
                0 <= k < state.classes@[c2 as int].actions@.len() && state.classes@[c2 as int].actions@[k]@.name == rv.player2_action_name.unwrap()
                    && state.classes@[c2 as int].actions@[k].preparation_needed == rv.player2_preparation.unwrap();
            assert(d.actions[k].name == rv.player2_action_name.unwrap());
        }
    }
    true
}

/// Whether the rounds keep the invariant, the classes and seats already
/// being known to keep it (`c1`, `c2` index the seated players' classes).
fn rounds_ok(state: &State, c1: Option<usize>, c2: Option<usize>) -> (b: bool)
    requires
        classes_wf(state@.classes),
        seats_wf(state@.arena_state, state@.classes),
        c1 is Some <==> state@.arena_state.player1 is Some,
        c2 is Some <==> state@.arena_state.player2 is Some,
        c1 is Some ==> c1.unwrap() < state.classes@.len() && state@.arena_state.class1(
            state@.classes,
        ) == state@.classes[c1.unwrap() as int],
        c2 is Some ==> c2.unwrap() < state.classes@.len() && state@.arena_state.class2(
            state@.classes,
        ) == state@.classes[c2.unwrap() as int],
    ensures
        b == state@.arena_state.wf(state@.classes),
{
    let ghost a = state@.arena_state;
    let ghost classes = state@.classes;
    let ghost rounds = a.rounds;
    let n = state.arena_state.rounds.len();
    proof {
        lemma_statuses_distinct();
    }
    if n < 1 || n > MAX_ROUNDS {
        return false;
    }
    let second_seated = state.arena_state.player2.is_some();
    let mut previous: u8 = 0;
    let mut waiting_at: Option<usize> = None;
    let mut i: usize = 0;
    while i < n
        invariant
            n == rounds.len(),
            1 <= n <= MAX_ROUNDS,
            i <= n,
            a == state@.arena_state,
            classes == state@.classes,
            rounds == a.rounds,
            second_seated == (a.player2 is Some),
            classes_wf(classes),
            seats_wf(a, classes),
            c1 is Some <==> a.player1 is Some,
            c2 is Some <==> a.player2 is Some,
            c1 is Some ==> c1.unwrap() < state.classes@.len() && a.class1(classes) == classes[c1.unwrap() as int],
            c2 is Some ==> c2.unwrap() < state.classes@.len() && a.class2(classes) == classes[c2.unwrap() as int],
            status_empty() != status_waiting(),
            status_empty() != status_completed(),
            status_waiting() != status_completed(),
            forall|k: int| 0 <= k < i ==> (#[trigger] rounds[k]).number == k + 1,
            forall|k: int| 0 <= k < i ==> is_known_status((#[trigger] rounds[k]).status),
            forall|k: int, m: int|
                0 <= k <= m < i ==> status_rank(#[trigger] rounds[k].status) <= status_rank(
                    #[trigger] rounds[m].status,
                ),
            i > 0 ==> previous as int == status_rank(rounds[i - 1].status),
            forall|k: int, m: int|
                0 <= k < m < i ==> !(#[trigger] rounds[k].status == status_waiting()
                    && #[trigger] rounds[m].status == status_waiting()),
            match waiting_at {
                Some(w) => w < i && rounds[w as int].status == status_waiting(),
                None => forall|k: int| 0 <= k < i ==> (#[trigger] rounds[k]).status != status_waiting(),
            },
            a.player2 is None ==> forall|k: int|
                0 <= k < i ==> (#[trigger] rounds[k]).status == status_empty(),
            forall|k: int|
                0 <= k < i && (#[trigger] rounds[k]).status == status_empty() ==> {
                    &&& rounds[k].player1_action_name is None
                    &&& rounds[k].player2_action_name is None
                },
            forall|k: int|
                0 <= k < i && (#[trigger] rounds[k]).status == status_waiting()
                    ==> a.waiting_round_wf(classes, k),
        decreases n - i,
    {
        let r = &state.arena_state.rounds[i];
        assert(rounds[i as int] == r@);
        if r.number as i64 != i as i64 + 1 {
            return false;
        }
        let empty = text_is(&r.status, "Empty");
        let waiting = text_is(&r.status, "WaitingActions");
        let completed = text_is(&r.status, "Completed");
        if !(empty || waiting || completed) {
            return false;
        }
        let rank = rank_of(&r.status);
        if i > 0 && rank < previous {
            assert(status_rank(rounds[i - 1].status) > status_rank(rounds[i as int].status));
            return false;
        }
        if waiting && waiting_at.is_some() {
            assert(rounds[waiting_at.unwrap() as int].status == status_waiting());
            return false;
        }
        if !second_seated && !empty {
            return false;
        }
        if empty && (r.player1_action_name.is_some() || r.player2_action_name.is_some()) {
            return false;
        }
        if waiting {
            if !(second_seated && c1.is_some() && c2.is_some()) {
                return false;
            }
            if !waiting_round_ok(state, i, c1.unwrap(), c2.unwrap()) {
                return false;
            }
            waiting_at = Some(i);
        }
        previous = rank;
        i = i + 1;
    }
    true
}

impl State {
    /// Whether the state keeps the arena's invariant.
    pub fn is_wf(&self) -> (b: bool)
        ensures
            b == self@.wf(),
    {
        if !classes_ok(&self.classes) {
            return false;
        }
        let (seats, c1, c2) = seats_ok(self);
        if !seats {
            return false;
        }
        rounds_ok(self, c1, c2)
    }
}

} // verus!
