//! Playing a round: each seated player chooses an action once; when both
//! have, the round is resolved by the combat table and the next one opens.
use vstd::prelude::*;
use crate::arena::combat::{leveled_damage, round_outcome, round_result, text_is};
use crate::arena::contract::{result_view, ArenaError, ArenaErrorView};
use crate::arena::join::{find_class, lemma_class_named, lemma_class_named_wf, seat_is};
use crate::arena::randomness::{action_level, draw_action_level};
use crate::arena::state::{
    ArenaStateView, Class, ClassView, Round, RoundView, State, StateView, class_exists,
    class_named, classes_wf, is_known_status, lemma_statuses_distinct, status_completed,
    status_empty, status_rank, status_waiting, MAX_HIT,
};

verus! {
/// 1 when `sender` holds the first seat, 2 when the second (the second
/// wins if both), 0 otherwise.
pub open spec fn participant_number(a: ArenaStateView, sender: Seq<char>) -> int {
    if a.player2 == Some(sender) {
        2
    } else if a.player1 == Some(sender) {
        1
    } else {
        0
    }
}

/// The index of the last round waiting for actions, or -1 when none is.
pub open spec fn latest_waiting(rounds: Seq<RoundView>) -> int
    decreases rounds.len(),
{
    if rounds.len() == 0 {
        -1
    } else if rounds.last().status == status_waiting() {
        rounds.len() - 1
    } else {
        latest_waiting(rounds.drop_last())
    }
}

pub proof fn lemma_latest_waiting(rounds: Seq<RoundView>)
    ensures
        -1 <= latest_waiting(rounds) < rounds.len(),
        latest_waiting(rounds) >= 0 ==> rounds[latest_waiting(rounds)].status == status_waiting(),
        forall|j: int|
            latest_waiting(rounds) < j < rounds.len() ==> (#[trigger] rounds[j]).status
                != status_waiting(),
    decreases rounds.len(),
{
    if rounds.len() > 0 && rounds.last().status != status_waiting() {
        let prefix = rounds.drop_last();
        lemma_latest_waiting(prefix);
        assert forall|j: int| latest_waiting(rounds) < j < rounds.len() implies (
        #[trigger] rounds[j]).status != status_waiting() by {
            if j < rounds.len() - 1 {
                assert(rounds[j] == prefix[j]);
            }
        }
    }
}

/// The first check of a round action that fails, if any: the sender holds
/// no seat, no round waits for actions, the sender already chose in it, or
/// the sender's class offers no such action for their preparation.
pub open spec fn round_action_error(s: StateView, sender: Seq<char>, action: Seq<char>) -> Option<
    ArenaErrorView,
> {
    let a = s.arena_state;
    let pn = participant_number(a, sender);
    let w = latest_waiting(a.rounds);
    let r = a.rounds[w];
    if pn == 0 {
        Some(ArenaErrorView::NotParticipant { arena_name: s.arena_name })
    } else if w < 0 {
        Some(ArenaErrorView::NoRounds { arena_name: s.arena_name })
    } else if pn == 1 && r.player1_action_name is Some {
        Some(
            ArenaErrorView::AlreadySubmitted {
                round_number: r.number,
                action_name: r.player1_action_name,
            },
        )
    } else if pn == 2 && r.player2_action_name is Some {
        Some(
            ArenaErrorView::AlreadySubmitted {
                round_number: r.number,
                action_name: r.player2_action_name,
            },
        )
    } else if pn == 1 && !a.class1(s.classes).has_action(action, r.player1_preparation.unwrap()) {
        Some(ArenaErrorView::InvalidActionName { action_name: action })
    } else if pn == 2 && !a.class2(s.classes).has_action(action, r.player2_preparation.unwrap()) {
        Some(ArenaErrorView::InvalidActionName { action_name: action })
    } else {
        None
    }
}

/// The round with player `pn`'s action and its level recorded.
pub open spec fn submitted_round(r: RoundView, pn: int, action: Seq<char>, level: i32) -> RoundView {
    if pn == 1 {
        RoundView { player1_action_name: Some(action), player1_attack_level: Some(level), ..r }
    } else {
        RoundView { player2_action_name: Some(action), player2_attack_level: Some(level), ..r }
    }
}

/// How a round whose two actions are known resolves, by the combat table.
pub open spec fn outcome_of(a: ArenaStateView, classes: Seq<ClassView>, r: RoundView) -> (
    int,
    bool,
    int,
    bool,
) {
    round_outcome(
        r.player1_hp.unwrap() as int,
        r.player1_preparation.unwrap(),
        r.player2_hp.unwrap() as int,
        r.player2_preparation.unwrap(),
        r.player1_action_name.unwrap(),
        r.player2_action_name.unwrap(),
        leveled_damage(
            a.class1(classes).base_attack as int,
            r.player1_attack_level.unwrap() as int,
        ),
        leveled_damage(
            a.class2(classes).base_attack as int,
            r.player2_attack_level.unwrap() as int,
        ),
    )
}

/// The round after a resolved one: it waits for actions, starting from the
/// outcome's hit points and preparation.
pub open spec fn next_round(r: RoundView, o: (int, bool, int, bool)) -> RoundView {
    RoundView {
        status: status_waiting(),
        player1_hp: Some(o.0 as i32),
        player2_hp: Some(o.2 as i32),
        player1_preparation: Some(o.1),
        player2_preparation: Some(o.3),
        ..r
    }
}

/// The rounds after player `pn` plays `action` in round `w`: the action is
/// recorded; once both actions are in, the round is resolved and completed,
/// and the next round, if there is one, opens only while both players
/// have hit points left: a player at 0 or below has lost the match.
pub open spec fn played_rounds(
    a: ArenaStateView,
    classes: Seq<ClassView>,
    w: int,
    pn: int,
    action: Seq<char>,
    level: i32,
) -> Seq<RoundView> {
    let r = submitted_round(a.rounds[w], pn, action, level);
    if r.player1_action_name is Some && r.player2_action_name is Some {
        let o = outcome_of(a, classes, r);
        let rounds = if o.0 > 0 && o.2 > 0 && w + 1 < a.rounds.len() {
            a.rounds.update(w + 1, next_round(a.rounds[w + 1], o))
        } else {
            a.rounds
        };
        rounds.update(w, RoundView { status: status_completed(), ..r })
    } else {
        a.rounds.update(w, r)
    }
}

/// What a round action gives when its level is `level`: the first failing
/// check's error, or the arena with the played rounds.
pub open spec fn round_action_result(s: StateView, sender: Seq<char>, action: Seq<char>, level: i32) -> Result<
    StateView,
    ArenaErrorView,
> {
    match round_action_error(s, sender, action) {
        Some(e) => Err(e),
        None => {
            let a = s.arena_state;
            Ok(
                StateView {
                    arena_state: ArenaStateView {
                        rounds: played_rounds(
                            a,
                            s.classes,
                            latest_waiting(a.rounds),
                            participant_number(a, sender),
                            action,
                            level,
                        ),
                        ..a
                    },
                    ..s
                },
            )
        },
    }
}

/// The level that the sender draws for an action in the current round.
pub open spec fn round_action_level(s: StateView, sender: Seq<char>) -> i32 {
    let a = s.arena_state;
    action_level(
        s.secret_entropy,
        s.arena_name,
        a.rounds[latest_waiting(a.rounds)].number,
        participant_number(a, sender) as i32,
    )
}


/// The index of the last round waiting for actions, if any.
pub fn find_latest_waiting(rounds: &Vec<Round>) -> (r: Option<usize>)
    ensures
        match r {
            Some(i) => i as int == latest_waiting(rounds@.map_values(|x: Round| x@)),
            None => latest_waiting(rounds@.map_values(|x: Round| x@)) == -1,
        },
{
    let ghost views = rounds@.map_values(|x: Round| x@);
    let mut i: usize = rounds.len();
    assert(views.subrange(0, i as int) =~= views);
    while i > 0
        invariant
            i <= rounds@.len(),
            views == rounds@.map_values(|x: Round| x@),
            latest_waiting(views) == latest_waiting(views.subrange(0, i as int)),
        decreases i,
    {
        let ghost prefix = views.subrange(0, i as int);
        assert(prefix.drop_last() =~= views.subrange(0, i - 1));
        assert(prefix.last() == rounds@[i - 1]@);
        if text_is(&rounds[i - 1].status, "WaitingActions") {
            return Some(i - 1);
        }
        i = i - 1;
    }
    None
}

/// The index of the first action of `class` named `name` that needs this
/// preparation, if any.
pub fn find_action(class: &Class, name: &String, preparation: bool) -> (r: Option<usize>)
    ensures
        match r {
            Some(i) => i < class.actions@.len() && class.actions@[i as int]@.name == name@
                && class.actions@[i as int].preparation_needed == preparation,
            None => !class@.has_action(name@, preparation),
        },
{
    let mut i: usize = 0;
    while i < class.actions.len()
        invariant
            i <= class.actions@.len(),
            forall|j: int|
                0 <= j < i ==> !((#[trigger] class@.actions[j]).name == name@
                    && class@.actions[j].preparation_needed == preparation),
        decreases class.actions@.len() - i,
    {
        if class.actions[i].name == *name && class.actions[i].preparation_needed == preparation {
            return Some(i);
        }
        i = i + 1;
    }
    None
}

fn copy_opt_string(o: &Option<String>) -> (r: Option<String>)
    ensures
        r.deep_view() == o.deep_view(),
{
    match o {
        Some(x) => Some(x.clone()),
        None => None,
    }
}

/// The index of the class a seated player chose.
fn seat_class(classes: &Vec<Class>, class_name: &Option<String>) -> (r: usize)
    requires
        class_name is Some,
        class_exists(classes@.map_values(|c: Class| c@), class_name.deep_view().unwrap()),
        classes_wf(classes@.map_values(|c: Class| c@)),
    ensures
        r < classes@.len(),
        class_named(classes@.map_values(|c: Class| c@), class_name.deep_view().unwrap())
            == classes@[r as int]@,
{
    let ghost views = classes@.map_values(|c: Class| c@);
    match class_name {
        Some(name) => {
            let found = find_class(classes, name);
            let i = found.unwrap();
            proof {
                lemma_class_named(views, i as int);
            }
            i
        },
        None => 0,
    }
}

/// Runs the checks of a round action. On success gives the sender's player
/// number and the index of the round waiting for actions.
pub fn check_round_action(state: &State, sender: &String, action_name: &String) -> (r: Result<
    (i32, usize),
    ArenaError,
>)
    requires
        state@.wf(),
    ensures
        match r {
            Ok((pn, w)) => {
                &&& round_action_error(state@, sender@, action_name@) is None
                &&& pn as int == participant_number(state@.arena_state, sender@)
                &&& w as int == latest_waiting(state@.arena_state.rounds)
            },
            Err(e) => round_action_error(state@, sender@, action_name@) == Some(e@),
        },
{
    let ghost s = state@;
    let mut player_number: i32 = 0;
    if seat_is(&state.arena_state.player1, sender) {
        player_number = 1;
    }
    if seat_is(&state.arena_state.player2, sender) {
        player_number = 2;
    }
    if player_number == 0 {
        return Err(ArenaError::NotParticipant { arena_name: state.arena_name.clone() });
    }
    let latest = find_latest_waiting(&state.arena_state.rounds);
    if latest.is_none() {
        return Err(ArenaError::NoRounds { arena_name: state.arena_name.clone() });
    }
    let w = latest.unwrap();
    proof {
        lemma_latest_waiting(s.arena_state.rounds);
        lemma_statuses_distinct();
    }
    let round = &state.arena_state.rounds[w];
    if player_number == 1 && round.player1_action_name.is_some() {
        return Err(
            ArenaError::AlreadySubmitted {
                round_number: round.number,
                action_name: copy_opt_string(&round.player1_action_name),
            },
        );
    }
    if player_number == 2 && round.player2_action_name.is_some() {
        return Err(
            ArenaError::AlreadySubmitted {
                round_number: round.number,
                action_name: copy_opt_string(&round.player2_action_name),
            },
        );
    }
    let class1 = seat_class(&state.classes, &state.arena_state.player1_class_name);
    let class2 = seat_class(&state.classes, &state.arena_state.player2_class_name);
    if player_number == 1 {
        let preparation = round.player1_preparation.unwrap();
        let found = find_action(&state.classes[class1], action_name, preparation);
        if found.is_none() {
            return Err(ArenaError::InvalidActionName { action_name: action_name.clone() });
        }
        proof {
            let c = state.classes@[class1 as int]@;
            let j = found.unwrap() as int;
            assert(c.actions[j].name == action_name@);
        }
    }
    if player_number == 2 {
        let preparation = round.player2_preparation.unwrap();
        let found = find_action(&state.classes[class2], action_name, preparation);
        if found.is_none() {
            return Err(ArenaError::InvalidActionName { action_name: action_name.clone() });
        }
        proof {
            let c = state.classes@[class2 as int]@;
            let j = found.unwrap() as int;
            assert(c.actions[j].name == action_name@);
        }
    }
    Ok((player_number, w))
}


/// Around the round waiting for actions, the rounds before it are
/// completed and the rounds after it are empty.
pub proof fn lemma_rounds_around_waiting(a: ArenaStateView, classes: Seq<ClassView>)
    requires
        a.wf(classes),
        latest_waiting(a.rounds) >= 0,
    ensures
        forall|j: int|
            0 <= j < latest_waiting(a.rounds) ==> (#[trigger] a.rounds[j]).status
                == status_completed(),
        forall|j: int|
            latest_waiting(a.rounds) < j < a.rounds.len() ==> (#[trigger] a.rounds[j]).status
                == status_empty(),
        a.player1 is Some,
        a.player2 is Some,
        a.waiting_round_wf(classes, latest_waiting(a.rounds)),
{
    let w = latest_waiting(a.rounds);
    lemma_latest_waiting(a.rounds);
    lemma_statuses_distinct();
    assert(a.rounds[w].status == status_waiting());
    assert forall|j: int| 0 <= j < w implies (#[trigger] a.rounds[j]).status
        == status_completed() by {
        assert(status_rank(a.rounds[j].status) <= status_rank(a.rounds[w].status));
        assert(!(a.rounds[j].status == status_waiting() && a.rounds[w].status == status_waiting()));
        assert(is_known_status(a.rounds[j].status));
    }
    assert forall|j: int| w < j < a.rounds.len() implies (#[trigger] a.rounds[j]).status
        == status_empty() by {
        assert(status_rank(a.rounds[w].status) <= status_rank(a.rounds[j].status));
        assert(is_known_status(a.rounds[j].status));
    }
    if a.player2 is None {
        assert(a.rounds[w].status == status_empty());
    }
}

/// A round action keeps an arena well formed.
pub proof fn lemma_round_action_preserves_wf(
    s: StateView,
    sender: Seq<char>,
    action: Seq<char>,
    level: i32,
)
    requires
        s.wf(),
        round_action_error(s, sender, action) is None,
        1 <= level <= 3,
    ensures
        round_action_result(s, sender, action, level)->Ok_0.wf(),
{
    let a = s.arena_state;
    let classes = s.classes;
    let w = latest_waiting(a.rounds);
    let pn = participant_number(a, sender);
    lemma_latest_waiting(a.rounds);
    lemma_statuses_distinct();
    lemma_rounds_around_waiting(a, classes);
    lemma_class_named_wf(classes, a.player1_class_name.unwrap());
    lemma_class_named_wf(classes, a.player2_class_name.unwrap());
    let t = round_action_result(s, sender, action, level)->Ok_0;
    let b = t.arena_state;
    let r = submitted_round(a.rounds[w], pn, action, level);
    assert(b.class1(classes) == a.class1(classes));
    assert(b.class2(classes) == a.class2(classes));
    if r.player1_action_name is Some && r.player2_action_name is Some {
        let o = outcome_of(a, classes, r);
        assert(b.rounds.len() == a.rounds.len());
        assert forall|i: int| 0 <= i < b.rounds.len() implies {
            &&& (#[trigger] b.rounds[i]).number == i + 1
            &&& is_known_status(b.rounds[i].status)
            &&& (i < w ==> b.rounds[i] == a.rounds[i])
            &&& (i <= w ==> b.rounds[i].status == status_completed())
            &&& (i == w + 1 && (o.0 > 0 && o.2 > 0 && w + 1 < a.rounds.len()) ==> b.rounds[i] == next_round(a.rounds[i], o))
            &&& (i == w + 1 && !(o.0 > 0 && o.2 > 0 && w + 1 < a.rounds.len()) ==> b.rounds[i] == a.rounds[i])
            &&& (i > w + 1 ==> b.rounds[i] == a.rounds[i])
            &&& (i > w ==> b.rounds[i].status == status_empty() || b.rounds[i].status
                == status_waiting())
            &&& (i > w + 1 ==> b.rounds[i].status == status_empty())
        } by {
            assert(a.rounds[i].number == i + 1);
        }
        assert(b.wf(classes)) by {
            assert forall|i: int, j: int| 0 <= i <= j < b.rounds.len() implies status_rank(
                #[trigger] b.rounds[i].status,
            ) <= status_rank(#[trigger] b.rounds[j].status) by {}
            assert forall|i: int, j: int|
                0 <= i < j < b.rounds.len() implies !(#[trigger] b.rounds[i].status
                == status_waiting() && #[trigger] b.rounds[j].status == status_waiting()) by {}
            assert forall|i: int|
                0 <= i < b.rounds.len() && (#[trigger] b.rounds[i]).status
                    == status_waiting() implies b.waiting_round_wf(classes, i) by {
                assert(i == w + 1);
                assert(a.rounds[i].status == status_empty());
                assert(-(w * MAX_HIT) - MAX_HIT == -(i * MAX_HIT));
            }
            assert forall|i: int|
                0 <= i < b.rounds.len() && (#[trigger] b.rounds[i]).status
                    == status_empty() implies b.rounds[i].player1_action_name is None
                && b.rounds[i].player2_action_name is None by {
                assert(a.rounds[i].status == status_empty());
            }
        }
    } else {
        assert(b.rounds == a.rounds.update(w, r));
        assert(b.wf(classes)) by {
            assert forall|i: int| 0 <= i < b.rounds.len() implies (#[trigger] b.rounds[i]).number
                == i + 1 && is_known_status(b.rounds[i].status) by {
                assert(a.rounds[i].number == i + 1);
            }
            assert forall|i: int, j: int| 0 <= i <= j < b.rounds.len() implies status_rank(
                #[trigger] b.rounds[i].status,
            ) <= status_rank(#[trigger] b.rounds[j].status) by {
                assert(status_rank(a.rounds[i].status) <= status_rank(a.rounds[j].status));
            }
            assert forall|i: int, j: int|
                0 <= i < j < b.rounds.len() implies !(#[trigger] b.rounds[i].status
                == status_waiting() && #[trigger] b.rounds[j].status == status_waiting()) by {
                assert(!(a.rounds[i].status == status_waiting() && a.rounds[j].status
                    == status_waiting()));
            }
            assert forall|i: int|
                0 <= i < b.rounds.len() && (#[trigger] b.rounds[i]).status
                    == status_waiting() implies b.waiting_round_wf(classes, i) by {
                assert(i == w);
            }
            assert forall|i: int|
                0 <= i < b.rounds.len() && (#[trigger] b.rounds[i]).status
                    == status_empty() implies b.rounds[i].player1_action_name is None
                && b.rounds[i].player2_action_name is None by {
                assert(a.rounds[i].status == status_empty());
            }
        }
    }
}

/// Records a checked action with its level, and resolves the round once
/// both actions are in.
fn apply_round_action(
    state: State,
    Ghost(sender): Ghost<Seq<char>>,
    player_number: i32,
    w: usize,
    action_name: String,
    level: i32,
) -> (t: State)
    requires
        state@.wf(),
        round_action_error(state@, sender, action_name@) is None,
        1 <= level <= 3,
        player_number as int == participant_number(state@.arena_state, sender),
        w as int == latest_waiting(state@.arena_state.rounds),
    ensures
        Ok::<StateView, ArenaErrorView>(t@) == round_action_result(
            state@,
            sender,
            action_name@,
            level,
        ),
        t@.wf(),
{
    let ghost s = state@;
    let ghost action = action_name@;
    proof {
        lemma_latest_waiting(s.arena_state.rounds);
        lemma_rounds_around_waiting(s.arena_state, s.classes);
        lemma_class_named_wf(s.classes, s.arena_state.player1_class_name.unwrap());
        lemma_class_named_wf(s.classes, s.arena_state.player2_class_name.unwrap());
        lemma_round_action_preserves_wf(s, sender, action, level);
    }
    let mut state = state;
    if player_number == 1 {
        state.arena_state.rounds[w].player1_action_name = Some(action_name);
        state.arena_state.rounds[w].player1_attack_level = Some(level);
    } else {
        state.arena_state.rounds[w].player2_action_name = Some(action_name);
        state.arena_state.rounds[w].player2_attack_level = Some(level);
    }
    let ghost r = submitted_round(s.arena_state.rounds[w as int], player_number as int, action, level);
    assert(state@.arena_state.rounds =~= s.arena_state.rounds.update(w as int, r));
    if state.arena_state.rounds[w].player1_action_name.is_some()
        && state.arena_state.rounds[w].player2_action_name.is_some() {
        let class1 = seat_class(&state.classes, &state.arena_state.player1_class_name);
        let class2 = seat_class(&state.classes, &state.arena_state.player2_class_name);
        let (hp1, prep1, hp2, prep2) = {
            let round = &state.arena_state.rounds[w];
            let name1 = round.player1_action_name.as_ref().unwrap();
            let name2 = round.player2_action_name.as_ref().unwrap();
            let found1 = find_action(&state.classes[class1], name1, round.player1_preparation.unwrap());
            let found2 = find_action(&state.classes[class2], name2, round.player2_preparation.unwrap());
            proof {
                let c1 = s.arena_state.class1(s.classes);
                let c2 = s.arena_state.class2(s.classes);
                assert(c1.has_action(r.player1_action_name.unwrap(), r.player1_preparation.unwrap()));
                assert(c2.has_action(r.player2_action_name.unwrap(), r.player2_preparation.unwrap()));
                assert(-(w * MAX_HIT) >= -(999 * MAX_HIT));
            }
            let k1 = found1.unwrap();
            let k2 = found2.unwrap();
            round_result(
                round.player1_hp.unwrap(),
                round.player1_preparation.unwrap(),
                round.player2_hp.unwrap(),
                round.player2_preparation.unwrap(),
                &state.classes[class1].actions[k1],
                &state.classes[class2].actions[k2],
                &state.classes[class1],
                &state.classes[class2],
                round.player1_attack_level.unwrap(),
                round.player2_attack_level.unwrap(),
            )
        };
        if hp1 > 0 && hp2 > 0 && w + 1 < state.arena_state.rounds.len() {
            state.arena_state.rounds[w + 1].status = String::from_str("WaitingActions");
            state.arena_state.rounds[w + 1].player1_hp = Some(hp1);
            state.arena_state.rounds[w + 1].player2_hp = Some(hp2);
            state.arena_state.rounds[w + 1].player1_preparation = Some(prep1);
            state.arena_state.rounds[w + 1].player2_preparation = Some(prep2);
        }
        state.arena_state.rounds[w].status = String::from_str("Completed");
        proof {
            let o = outcome_of(s.arena_state, s.classes, r);
            assert((hp1 as int, prep1, hp2 as int, prep2) == o);
            assert(state@.arena_state.rounds =~= played_rounds(
                s.arena_state,
                s.classes,
                w as int,
                player_number as int,
                action,
                level,
            ));
        }
    }
    assert(state@.classes =~= s.classes);
    assert(state@.secret_entropy =~= s.secret_entropy);
    assert(state@.known_snip_20 =~= s.known_snip_20);
    state
}

/// Plays `action_name` for `sender` in the round waiting for actions, with
/// the given power level: the action is checked and recorded; once both
/// players have acted the round is resolved by the combat table and
/// completed; the next round, if there is one, opens only while both
/// players have hit points left.
pub fn round_action_with_level(state: State, sender: &String, action_name: String, level: i32) -> (r:
    Result<State, ArenaError>)
    requires
        state@.wf(),
        1 <= level <= 3,
    ensures
        result_view(r) == round_action_result(state@, sender@, action_name@, level),
        r matches Ok(t) ==> t@.wf(),
{
    match check_round_action(&state, sender, &action_name) {
        Err(e) => Err(e),
        Ok((player_number, w)) => Ok(
            apply_round_action(state, Ghost(sender@), player_number, w, action_name, level),
        ),
    }
}

/// Plays `action_name` for `sender`, drawing the action's level (1, 2 or 3)
/// from the arena's entropy, name, round and player number.
pub fn round_action(state: State, sender: &String, action_name: String) -> (r: Result<
    State,
    ArenaError,
>)
    requires
        state@.wf(),
    ensures
        result_view(r) == round_action_result(
            state@,
            sender@,
            action_name@,
            round_action_level(state@, sender@),
        ),
        r matches Ok(t) ==> t@.wf(),
        r is Ok ==> 1 <= round_action_level(state@, sender@) <= 3,
{
    match check_round_action(&state, sender, &action_name) {
        Err(e) => Err(e),
        Ok((player_number, w)) => {
            proof {
                lemma_latest_waiting(state@.arena_state.rounds);
            }
            let number = state.arena_state.rounds[w].number;
            let level = draw_action_level(&state, number, player_number);
            Ok(apply_round_action(state, Ghost(sender@), player_number, w, action_name, level))
        },
    }
}


/// The last round waiting for actions is `w` when `w` waits and no later
/// round does.
pub proof fn lemma_latest_waiting_is(rounds: Seq<RoundView>, w: int)
    requires
        0 <= w < rounds.len(),
        rounds[w].status == status_waiting(),
        forall|j: int| w < j < rounds.len() ==> (#[trigger] rounds[j]).status != status_waiting(),
    ensures
        latest_waiting(rounds) == w,
    decreases rounds.len(),
{
    if rounds.len() - 1 != w {
        let prefix = rounds.drop_last();
        assert forall|j: int| w < j < prefix.len() implies (#[trigger] prefix[j]).status
            != status_waiting() by {
            assert(prefix[j] == rounds[j]);
        }
        lemma_latest_waiting_is(prefix, w);
    }
}

/// A player acts once per round: after a player's action is accepted in a
/// round the opponent has not yet acted in, any further action of theirs
/// is refused as already submitted, naming the round and the first action.
pub proof fn lemma_one_action_per_round(
    s: StateView,
    sender: Seq<char>,
    first: Seq<char>,
    level: i32,
    second: Seq<char>,
)
    requires
        s.wf(),
        round_action_error(s, sender, first) is None,
        ({
            let a = s.arena_state;
            let r = a.rounds[latest_waiting(a.rounds)];
            if participant_number(a, sender) == 1 {
                r.player2_action_name is None
            } else {
                r.player1_action_name is None
            }
        }),
    ensures
        ({
            let a = s.arena_state;
            let t = round_action_result(s, sender, first, level)->Ok_0;
            round_action_error(t, sender, second) == Some(
                ArenaErrorView::AlreadySubmitted {
                    round_number: a.rounds[latest_waiting(a.rounds)].number,
                    action_name: Some(first),
                },
            )
        }),
{
    let a = s.arena_state;
    let w = latest_waiting(a.rounds);
    let pn = participant_number(a, sender);
    lemma_latest_waiting(a.rounds);
    lemma_statuses_distinct();
    let t = round_action_result(s, sender, first, level)->Ok_0;
    let r = submitted_round(a.rounds[w], pn, first, level);
    assert(t.arena_state.rounds == a.rounds.update(w, r));
    assert forall|j: int| w < j < t.arena_state.rounds.len() implies (
    #[trigger] t.arena_state.rounds[j]).status != status_waiting() by {
        assert(t.arena_state.rounds[j] == a.rounds[j]);
    }
    lemma_latest_waiting_is(t.arena_state.rounds, w);
}

/// Playing a round changes neither the seats, the classes nor the amount
/// locked.
pub proof fn lemma_round_action_keeps_stake(s: StateView, sender: Seq<char>, action: Seq<char>, level: i32)
    ensures
        round_action_result(s, sender, action, level) matches Ok(t) ==> {
            &&& t.arena_state.tokens_locked == s.arena_state.tokens_locked
            &&& t.arena_state.player1 == s.arena_state.player1
            &&& t.arena_state.player2 == s.arena_state.player2
            &&& t.arena_state.player1_class_name == s.arena_state.player1_class_name
            &&& t.arena_state.player2_class_name == s.arena_state.player2_class_name
            &&& t.classes == s.classes
        },
{
}

} // verus!
