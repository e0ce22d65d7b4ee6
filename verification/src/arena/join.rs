//! Joining an arena: the first player takes a seat and locks a bet, the
//! second matches the bet and starts the match.
use vstd::prelude::*;
use crate::arena::contract::{can_deposit, result_view, ArenaError, ArenaErrorView};
use crate::arena::randomness::{be_bytes_u64, u64_to_be_bytes};
use crate::arena::state::{
    ArenaStateView, Class, ClassView, RoundView, State, StateView, class_exists, class_named,
    classes_wf, is_known_status, lemma_statuses_distinct, status_empty, status_rank,
    status_waiting,
};

verus! {
/// Whether the seat `seat` is held by `who`.
pub fn seat_is(seat: &Option<String>, who: &String) -> (b: bool)
    ensures
        b == (seat.deep_view() == Some(who@)),
{
    match seat {
        Some(holder) => *holder == *who,
        None => false,
    }
}

/// The index of the first class named `name`, if any.
pub fn find_class(classes: &Vec<Class>, name: &String) -> (r: Option<usize>)
    ensures
        match r {
            Some(i) => i < classes@.len() && classes@[i as int]@.name == name@,
            None => !class_exists(classes@.map_values(|c: Class| c@), name@),
        },
{
    let ghost views = classes@.map_values(|c: Class| c@);
    let mut i: usize = 0;
    while i < classes.len()
        invariant
            i <= classes@.len(),
            views == classes@.map_values(|c: Class| c@),
            forall|j: int| 0 <= j < i ==> (#[trigger] views[j]).name != name@,
        decreases classes@.len() - i,
    {
        if classes[i].name == *name {
            return Some(i);
        }
        i = i + 1;
    }
    None
}

/// In a list of uniquely named classes, the class named like the one at
/// index `i` is that one.
pub proof fn lemma_class_named(classes: Seq<ClassView>, i: int)
    requires
        classes_wf(classes),
        0 <= i < classes.len(),
    ensures
        class_named(classes, classes[i].name) == classes[i],
        class_exists(classes, classes[i].name),
{
    let name = classes[i].name;
    assert(classes[i].name == name);
    let j = choose|j: int| 0 <= j < classes.len() && #[trigger] classes[j].name == name;
    assert(j == i);
}

/// A class named `name` exists in a list of uniquely named, bounded
/// classes: the one it denotes is bounded too.
pub proof fn lemma_class_named_wf(classes: Seq<ClassView>, name: Seq<char>)
    requires
        classes_wf(classes),
        class_exists(classes, name),
    ensures
        class_named(classes, name).wf(),
        class_named(classes, name).name == name,
{
    let j = choose|j: int| 0 <= j < classes.len() && #[trigger] classes[j].name == name;
    assert(classes[j].wf());
}

/// The first check of a join that fails, if any: the arena is full, the
/// second deposit differs from the first, the class is unknown, or the
/// sender already holds the first seat.
pub open spec fn join_error(s: StateView, class_name: Seq<char>, from: Seq<char>, amount: u128) -> Option<
    ArenaErrorView,
> {
    let a = s.arena_state;
    if a.player1 is Some && a.player2 is Some {
        Some(ArenaErrorView::ArenaFull { arena_name: s.arena_name })
    } else if a.player1 is Some && amount != a.tokens_locked {
        Some(ArenaErrorView::BetMismatch { amount: amount, bet_size: a.tokens_locked })
    } else if !class_exists(s.classes, class_name) {
        Some(ArenaErrorView::InvalidClassName { class_name: class_name })
    } else if a.player1 == Some(from) {
        Some(ArenaErrorView::ArenaFull { arena_name: s.arena_name })
    } else {
        None
    }
}

/// The first round once both players are seated: it waits for actions,
/// each player starts with their class's hit points and unprepared.
pub open spec fn started_round(r: RoundView, hp1: i32, hp2: i32) -> RoundView {
    RoundView {
        status: status_waiting(),
        player1_hp: Some(hp1),
        player2_hp: Some(hp2),
        player1_preparation: Some(false),
        player2_preparation: Some(false),
        ..r
    }
}

/// The match after an accepted join: the first player takes the first seat
/// and locks their deposit; the second takes the other seat, adds their
/// deposit and starts the first round.
pub open spec fn joined_arena(
    a: ArenaStateView,
    classes: Seq<ClassView>,
    class_name: Seq<char>,
    from: Seq<char>,
    amount: u128,
) -> ArenaStateView {
    if a.player1 is None {
        ArenaStateView {
            player1: Some(from),
            player1_class_name: Some(class_name),
            tokens_locked: amount,
            ..a
        }
    } else {
        ArenaStateView {
            player2: Some(from),
            player2_class_name: Some(class_name),
            tokens_locked: (a.tokens_locked + amount) as u128,
            rounds: a.rounds.update(
                0,
                started_round(
                    a.rounds[0],
                    a.class1(classes).base_hp,
                    class_named(classes, class_name).base_hp,
                ),
            ),
            ..a
        }
    }
}

/// What joining gives: the first failing check's error, or the joined
/// arena with the player's secret added to the entropy.
pub open spec fn join_arena_result(
    s: StateView,
    class_name: Seq<char>,
    secret: u64,
    from: Seq<char>,
    amount: u128,
) -> Result<StateView, ArenaErrorView> {
    match join_error(s, class_name, from, amount) {
        Some(e) => Err(e),
        None => Ok(
            StateView {
                arena_state: joined_arena(s.arena_state, s.classes, class_name, from, amount),
                secret_entropy: s.secret_entropy.push(be_bytes_u64(secret)),
                ..s
            },
        ),
    }
}

/// The second deposit would make the locked amount exceed `u128::MAX`.
pub open spec fn join_overflows(s: StateView, class_name: Seq<char>, from: Seq<char>, amount: u128) -> bool {
    &&& join_error(s, class_name, from, amount) is None
    &&& s.arena_state.player1 is Some
    &&& s.arena_state.tokens_locked + amount > u128::MAX
}

/// A player joins with a deposit of `amount` from `from`, choosing a class
/// and adding a secret to the arena's entropy.
pub fn join_arena(state: State, class_name: String, secret: u64, from: String, amount: u128) -> (r:
    Result<State, ArenaError>)
    requires
        state@.wf(),
        !join_overflows(state@, class_name@, from@, amount),
    ensures
        result_view(r) == join_arena_result(state@, class_name@, secret, from@, amount),
        r matches Ok(s) ==> s@.wf(),
{
    let ghost old_view = state@;
    if state.arena_state.player1.is_some() && state.arena_state.player2.is_some() {
        return Err(ArenaError::ArenaFull { arena_name: state.arena_name });
    }
    let mut deposit = amount;
    if state.arena_state.player1.is_some() {
        match can_deposit(amount, state.arena_state.tokens_locked) {
            Ok(d) => {
                deposit = d;
            },
            Err(e) => {
                return Err(e);
            },
        }
    }
    let class2 = find_class(&state.classes, &class_name);
    if class2.is_none() {
        return Err(ArenaError::InvalidClassName { class_name });
    }
    proof {
        let k = class2.unwrap() as int;
        assert(old_view.classes[k].name == class_name@);
    }
    if seat_is(&state.arena_state.player1, &from) {
        return Err(ArenaError::ArenaFull { arena_name: state.arena_name });
    }
    let class2 = class2.unwrap();
    let mut state = state;
    if state.arena_state.player1.is_none() {
        state.arena_state.player1 = Some(from);
        state.arena_state.player1_class_name = Some(class_name);
        state.arena_state.tokens_locked = deposit;
    } else {
        let class1 = match &state.arena_state.player1_class_name {
            Some(name) => find_class(&state.classes, name),
            None => None,
        };
        proof {
            assert(old_view.classes[class2 as int].name == class_name@);
            lemma_class_named(old_view.classes, class2 as int);
        }
        let class1 = class1.unwrap();
        proof {
            lemma_class_named(old_view.classes, class1 as int);
        }
        let hp1 = state.classes[class1].base_hp;
        let hp2 = state.classes[class2].base_hp;
        state.arena_state.player2 = Some(from);
        state.arena_state.player2_class_name = Some(class_name);
        state.arena_state.tokens_locked = state.arena_state.tokens_locked + deposit;
        state.arena_state.rounds[0].player1_hp = Some(hp1);
        state.arena_state.rounds[0].player2_hp = Some(hp2);
        state.arena_state.rounds[0].player1_preparation = Some(false);
        state.arena_state.rounds[0].player2_preparation = Some(false);
        state.arena_state.rounds[0].status = String::from_str("WaitingActions");
    }
    state.secret_entropy.push(u64_to_be_bytes(secret));
    proof {
        let target = join_arena_result(old_view, class_name@, secret, from@, amount);
        assert(state@.secret_entropy =~= old_view.secret_entropy.push(be_bytes_u64(secret)));
        assert(state@.classes =~= old_view.classes);
        assert(state@.arena_state.rounds =~= target->Ok_0.arena_state.rounds);
        lemma_join_preserves_wf(old_view, class_name@, secret, from@, amount);
    }
    Ok(state)
}

/// Joining keeps an arena well formed.
pub proof fn lemma_join_preserves_wf(
    s: StateView,
    class_name: Seq<char>,
    secret: u64,
    from: Seq<char>,
    amount: u128,
)
    requires
        s.wf(),
        join_error(s, class_name, from, amount) is None,
    ensures
        join_arena_result(s, class_name, secret, from, amount)->Ok_0.wf(),
{
    let t = join_arena_result(s, class_name, secret, from, amount)->Ok_0;
    let a = s.arena_state;
    let b = t.arena_state;
    lemma_statuses_distinct();
    if a.player1 is Some {
        lemma_class_named_wf(s.classes, a.player1_class_name.unwrap());
        lemma_class_named_wf(s.classes, class_name);
        assert(b.wf(t.classes)) by {
            assert forall|i: int| 0 <= i < b.rounds.len() implies (#[trigger] b.rounds[i]).number
                == i + 1 && is_known_status(b.rounds[i].status) by {
                assert(a.rounds[i].number == i + 1);
            }
            assert forall|i: int, j: int| 0 <= i <= j < b.rounds.len() implies status_rank(
                #[trigger] b.rounds[i].status,
            ) <= status_rank(#[trigger] b.rounds[j].status) by {
                assert(a.rounds[j].status == status_empty());
            }
            assert forall|i: int|
                0 <= i < b.rounds.len() && (#[trigger] b.rounds[i]).status
                    == status_waiting() implies b.waiting_round_wf(t.classes, i) by {
                assert(a.rounds[i].status == status_empty());
                if i != 0 {
                    assert(b.rounds[i] == a.rounds[i]);
                }
            }
            assert forall|i: int, j: int|
                0 <= i < j < b.rounds.len() implies !(#[trigger] b.rounds[i].status
                == status_waiting() && #[trigger] b.rounds[j].status == status_waiting()) by {
                assert(a.rounds[j].status == status_empty());
                assert(b.rounds[j] == a.rounds[j]);
            }
            assert forall|i: int|
                0 <= i < b.rounds.len() && (#[trigger] b.rounds[i]).status
                    == status_empty() implies b.rounds[i].player1_action_name is None
                && b.rounds[i].player2_action_name is None by {
                assert(a.rounds[i].status == status_empty());
            }
        }
    }
}

/// The match starts when the second player joins: from an arena with no
/// player, a first join and then a second join leave the two players
/// seated in order, twice the bet locked, and the first round waiting for
/// actions with each player at their class's hit points, unprepared.
pub proof fn lemma_second_join_starts_match(
    s: StateView,
    class1: Seq<char>,
    secret1: u64,
    from1: Seq<char>,
    amount1: u128,
    class2: Seq<char>,
    secret2: u64,
    from2: Seq<char>,
    amount2: u128,
)
    requires
        s.wf(),
        s.arena_state.player1 is None,
        join_error(s, class1, from1, amount1) is None,
        join_error(
            join_arena_result(s, class1, secret1, from1, amount1)->Ok_0,
            class2,
            from2,
            amount2,
        ) is None,
        !join_overflows(
            join_arena_result(s, class1, secret1, from1, amount1)->Ok_0,
            class2,
            from2,
            amount2,
        ),
    ensures
        ({
            let t1 = join_arena_result(s, class1, secret1, from1, amount1)->Ok_0;
            let t2 = join_arena_result(t1, class2, secret2, from2, amount2)->Ok_0;
            let b = t2.arena_state;
            &&& amount2 == amount1
            &&& b.tokens_locked == amount1 + amount2
            &&& b.player1 == Some(from1)
            &&& b.player2 == Some(from2)
            &&& from1 != from2
            &&& b.rounds[0] == started_round(
                s.arena_state.rounds[0],
                class_named(s.classes, class1).base_hp,
                class_named(s.classes, class2).base_hp,
            )
            &&& t2.wf()
        }),
{
    let t1 = join_arena_result(s, class1, secret1, from1, amount1)->Ok_0;
    lemma_join_preserves_wf(s, class1, secret1, from1, amount1);
    lemma_join_preserves_wf(t1, class2, secret2, from2, amount2);
}



/// Whether a join would make the locked amount overflow.
pub fn join_would_overflow(state: &State, class_name: &String, from: &String, amount: u128) -> (b: bool)
    ensures
        b == join_overflows(state@, class_name@, from@, amount),
{
    let a = &state.arena_state;
    if a.player1.is_none() || a.player2.is_some() || amount != a.tokens_locked {
        return false;
    }
    let found = find_class(&state.classes, class_name);
    if found.is_none() {
        return false;
    }
    proof {
        let k = found.unwrap() as int;
        assert(state@.classes[k].name == class_name@);
    }
    if seat_is(&a.player1, from) {
        return false;
    }
    a.tokens_locked.checked_add(amount).is_none()
}

/// One bet per seated player: nothing is locked while no one sits, `bet`
/// while one player sits, twice `bet` once both do.
pub open spec fn one_bet_per_seat(a: ArenaStateView, bet: u128) -> bool {
    if a.player2 is Some {
        a.tokens_locked == 2 * bet
    } else if a.player1 is Some {
        a.tokens_locked == bet
    } else {
        a.tokens_locked == 0
    }
}

/// Joins lock one bet per seat: from a well-formed arena that holds one
/// bet `bet` per seated player, an accepted join leads to an arena that
/// holds one bet per seated player, the bet being the joiner's deposit if
/// they took the first seat and `bet` otherwise; the two seated players
/// differ. (A refused join changes nothing, and a new arena holds no bet
/// for any `bet`, since nothing is locked and no one is seated.)
pub proof fn lemma_join_keeps_one_bet_per_seat(
    s: StateView,
    bet: u128,
    class_name: Seq<char>,
    secret: u64,
    from: Seq<char>,
    amount: u128,
)
    requires
        s.wf(),
        one_bet_per_seat(s.arena_state, bet),
        !join_overflows(s, class_name, from, amount),
    ensures
        join_arena_result(s, class_name, secret, from, amount) matches Ok(t) ==> {
            &&& one_bet_per_seat(
                t.arena_state,
                if s.arena_state.player1 is None { amount } else { bet },
            )
            &&& t.arena_state.player2 is Some ==> t.arena_state.player1 is Some
                && t.arena_state.player1 != t.arena_state.player2
            &&& t.wf()
        },
{
    if join_error(s, class_name, from, amount) is None {
        lemma_join_preserves_wf(s, class_name, secret, from, amount);
    }
}

/// The arena reached from `s` by the join requests `joins` (class name,
/// secret, sender, deposit), in order, each accepted one applied and each
/// refused one changing nothing; together with the bet per seat, which the
/// first player to take the first seat sets (`bet` until then).
pub open spec fn after_joins(
    s: StateView,
    bet: u128,
    joins: Seq<(Seq<char>, u64, Seq<char>, u128)>,
) -> (StateView, u128)
    decreases joins.len(),
{
    if joins.len() == 0 {
        (s, bet)
    } else {
        let before = after_joins(s, bet, joins.drop_last());
        let j = joins.last();
        match join_arena_result(before.0, j.0, j.1, j.2, j.3) {
            Ok(t) => (t, if before.0.arena_state.player1 is None { j.3 } else { before.1 }),
            Err(_) => before,
        }
    }
}

/// No join of the run reaches a second deposit that overflows.
pub open spec fn joins_never_overflow(
    s: StateView,
    bet: u128,
    joins: Seq<(Seq<char>, u64, Seq<char>, u128)>,
) -> bool
    decreases joins.len(),
{
    joins.len() == 0 || {
        &&& joins_never_overflow(s, bet, joins.drop_last())
        &&& !join_overflows(
            after_joins(s, bet, joins.drop_last()).0,
            joins.last().0,
            joins.last().2,
            joins.last().3,
        )
    }
}

/// Every arena reached by joins holds one bet per seated player: from a
/// well-formed arena that holds one bet `bet` per seated player, any run of
/// join requests ends in a well-formed arena that locks one bet per seat
/// (the first seated player's deposit), whose seats are filled in order by
/// two different players, each with a class exactly when seated.
pub proof fn lemma_joins_keep_one_bet_per_seat(
    s: StateView,
    bet: u128,
    joins: Seq<(Seq<char>, u64, Seq<char>, u128)>,
)
    requires
        s.wf(),
        one_bet_per_seat(s.arena_state, bet),
        joins_never_overflow(s, bet, joins),
    ensures
        ({
            let (t, b) = after_joins(s, bet, joins);
            let a = t.arena_state;
            &&& t.wf()
            &&& one_bet_per_seat(a, b)
            &&& a.player2 is Some ==> a.player1 is Some && a.player1 != a.player2
            &&& (a.player1 is Some <==> a.player1_class_name is Some)
            &&& (a.player2 is Some <==> a.player2_class_name is Some)
        }),
    decreases joins.len(),
{
    if joins.len() > 0 {
        let prefix = joins.drop_last();
        lemma_joins_keep_one_bet_per_seat(s, bet, prefix);
        let (t, b) = after_joins(s, bet, prefix);
        let j = joins.last();
        lemma_join_keeps_one_bet_per_seat(t, b, j.0, j.1, j.2, j.3);
    }
}

} // verus!
