//! What the arena's operations are for, stated on their inputs and
//! results: where an action is recorded and the level drawn for it, how a
//! round resolves, the hit points a match starts with, who a deposit
//! seats, what a refused message is answered, and what a new arena holds.
use vstd::prelude::*;
use vstd::utf8::encode_utf8;
use crate::arena::combat::{leveled_damage, lemma_move_names, round_outcome};
use crate::arena::contract::{handle_fails, handle_result, initial_state, ArenaErrorView};
use crate::arena::join::{join_arena_result, join_error, lemma_class_named};
use crate::arena::msg::HandleMsg;
use crate::arena::randomness::{
    be_bytes_i32, be_bytes_u64, chacha_gen_range, concat_all, sha256_digest,
};
use crate::arena::round::{
    lemma_latest_waiting, latest_waiting, participant_number, round_action_error,
    round_action_level, round_action_result,
};
use crate::arena::state::{ActionView, RoundView, StateView};

verus! {

/// The level recorded for an action is drawn for the round being played:
/// it is the first number from 1 to 3 that a ChaCha generator seeded with
/// the SHA-256 digest of the arena's entropy, its name, the number of the
/// round waiting for actions and the player's number draws. The action
/// itself is recorded next to it, in the same round and the player's slot.
pub proof fn lemma_level_drawn_for_current_round(s: StateView, sender: Seq<char>, action: Seq<char>)
    requires
        s.wf(),
        round_action_error(s, sender, action) is None,
    ensures
        ({
            let a = s.arena_state;
            let w = latest_waiting(a.rounds);
            let pn = participant_number(a, sender);
            let t = round_action_result(s, sender, action, round_action_level(s, sender))->Ok_0;
            let r = t.arena_state.rounds[w];
            let level = chacha_gen_range(
                sha256_digest(
                    concat_all(s.secret_entropy) + encode_utf8(s.arena_name) + be_bytes_i32(
                        (w + 1) as i32,
                    ) + be_bytes_i32(pn as i32),
                ),
                1,
                4,
            );
            &&& 0 <= w < a.rounds.len()
            &&& pn == 1 || pn == 2
            &&& pn == 1 ==> r.player1_attack_level == Some(level) && r.player1_action_name == Some(
                action,
            )
            &&& pn == 2 ==> r.player2_attack_level == Some(level) && r.player2_action_name == Some(
                action,
            )
        }),
{
    let a = s.arena_state;
    lemma_latest_waiting(a.rounds);
    let w = latest_waiting(a.rounds);
    assert(a.rounds[w].number == w + 1);
}

/// An accepted action is recorded in the seat its sender holds, in the
/// round waiting for actions: the sender is seated, and the action and its
/// level go to the sender's slot, the level being the first number from 1
/// to 3 that a ChaCha generator seeded with the SHA-256 digest of the
/// arena's entropy, its name, the number of that round and the seat's
/// number (1 for the first seat, 2 for the second) draws. The opponent's
/// choice in that round stays as it was.
pub proof fn lemma_action_recorded_in_senders_seat(
    s: StateView,
    sender: Seq<char>,
    action: Seq<char>,
    w: int,
)
    requires
        s.wf(),
        round_action_error(s, sender, action) is None,
        0 <= w < s.arena_state.rounds.len(),
        s.arena_state.rounds[w].status == "WaitingActions"@,
    ensures
        ({
            let a = s.arena_state;
            let t = round_action_result(s, sender, action, round_action_level(s, sender))->Ok_0;
            let before = a.rounds[w];
            let after = t.arena_state.rounds[w];
            let seed = concat_all(s.secret_entropy) + encode_utf8(s.arena_name) + be_bytes_i32(
                before.number,
            );
            &&& a.player1 == Some(sender) || a.player2 == Some(sender)
            &&& a.player1 == Some(sender) ==> {
                &&& after.player1_action_name == Some(action)
                &&& after.player1_attack_level == Some(
                    chacha_gen_range(sha256_digest(seed + be_bytes_i32(1)), 1, 4),
                )
                &&& after.player2_action_name == before.player2_action_name
                &&& after.player2_attack_level == before.player2_attack_level
            }
            &&& a.player2 == Some(sender) ==> {
                &&& after.player2_action_name == Some(action)
                &&& after.player2_attack_level == Some(
                    chacha_gen_range(sha256_digest(seed + be_bytes_i32(2)), 1, 4),
                )
                &&& after.player1_action_name == before.player1_action_name
                &&& after.player1_attack_level == before.player1_attack_level
            }
        }),
{
    let a = s.arena_state;
    lemma_latest_waiting(a.rounds);
    let lw = latest_waiting(a.rounds);
    if w < lw {
        assert(!(a.rounds[w].status == "WaitingActions"@ && a.rounds[lw].status == "WaitingActions"@));
    }
    assert(w == lw);
}

/// The second action of a round resolves it by the combat table. Each
/// player's damage is their class's base attack (the class named in their
/// seat) at the level recorded for their action. The round is completed
/// and keeps the hit points and preparation it started with; the next
/// round, if there is one, opens with the outcome's hit points and
/// preparation while both players have hit points left, and stays as it
/// was otherwise. The first action of a round resolves nothing: the round
/// keeps waiting. No other round changes.
pub proof fn lemma_round_resolution(
    s: StateView,
    sender: Seq<char>,
    action: Seq<char>,
    level: i32,
    w: int,
    i: int,
    j: int,
)
    requires
        s.wf(),
        round_action_error(s, sender, action) is None,
        0 <= w < s.arena_state.rounds.len(),
        s.arena_state.rounds[w].status == "WaitingActions"@,
        0 <= i < s.classes.len(),
        s.arena_state.player1_class_name == Some(s.classes[i].name),
        0 <= j < s.classes.len(),
        s.arena_state.player2_class_name == Some(s.classes[j].name),
    ensures
        ({
            let rounds = s.arena_state.rounds;
            let t = round_action_result(s, sender, action, level)->Ok_0.arena_state.rounds;
            let before = rounds[w];
            let after = t[w];
            let o = round_outcome(
                before.player1_hp.unwrap() as int,
                before.player1_preparation.unwrap(),
                before.player2_hp.unwrap() as int,
                before.player2_preparation.unwrap(),
                after.player1_action_name.unwrap(),
                after.player2_action_name.unwrap(),
                leveled_damage(s.classes[i].base_attack as int, after.player1_attack_level.unwrap() as int),
                leveled_damage(s.classes[j].base_attack as int, after.player2_attack_level.unwrap() as int),
            );
            &&& t.len() == rounds.len()
            &&& forall|k: int| 0 <= k < rounds.len() && k != w && k != w + 1 ==> #[trigger] t[k] == rounds[k]
            &&& after.player1_hp == before.player1_hp
            &&& after.player2_hp == before.player2_hp
            &&& after.player1_preparation == before.player1_preparation
            &&& after.player2_preparation == before.player2_preparation
            &&& after.player1_action_name is None || after.player2_action_name is None ==> {
                &&& after.status == "WaitingActions"@
                &&& w + 1 < rounds.len() ==> t[w + 1] == rounds[w + 1]
            }
            &&& after.player1_action_name is Some && after.player2_action_name is Some ==> {
                &&& after.status == "Completed"@
                &&& w + 1 < rounds.len() && o.0 > 0 && o.2 > 0 ==> t[w + 1] == RoundView {
                    status: "WaitingActions"@,
                    player1_hp: Some(o.0 as i32),
                    player2_hp: Some(o.2 as i32),
                    player1_preparation: Some(o.1),
                    player2_preparation: Some(o.3),
                    ..rounds[w + 1]
                }
                &&& w + 1 < rounds.len() && !(o.0 > 0 && o.2 > 0) ==> t[w + 1] == rounds[w + 1]
            }
        }),
{
    let a = s.arena_state;
    lemma_latest_waiting(a.rounds);
    let lw = latest_waiting(a.rounds);
    if w < lw {
        assert(!(a.rounds[w].status == "WaitingActions"@ && a.rounds[lw].status == "WaitingActions"@));
    }
    assert(w == lw);
    lemma_class_named(s.classes, i);
    lemma_class_named(s.classes, j);
}

/// The match starts at the classes' hit points: after the second player
/// joins, each player's hit points in the first round are the base hit
/// points of the class named in their seat, neither player is prepared,
/// and the first round waits for actions.
pub proof fn lemma_match_starts_at_class_hit_points(
    s: StateView,
    class_name: Seq<char>,
    secret: u64,
    from: Seq<char>,
    amount: u128,
)
    requires
        s.wf(),
        s.arena_state.player1 is Some,
        join_error(s, class_name, from, amount) is None,
    ensures
        ({
            let t = join_arena_result(s, class_name, secret, from, amount)->Ok_0;
            let a = t.arena_state;
            &&& a.player2_class_name == Some(class_name)
            &&& forall|i: int|
                0 <= i < t.classes.len() && #[trigger] t.classes[i].name
                    == a.player1_class_name.unwrap() ==> a.rounds[0].player1_hp == Some(
                    t.classes[i].base_hp,
                )
            &&& forall|i: int|
                0 <= i < t.classes.len() && #[trigger] t.classes[i].name == class_name
                    ==> a.rounds[0].player2_hp == Some(t.classes[i].base_hp)
            &&& a.rounds[0].player1_preparation == Some(false)
            &&& a.rounds[0].player2_preparation == Some(false)
            &&& a.rounds[0].status == "WaitingActions"@
        }),
{
    let t = join_arena_result(s, class_name, secret, from, amount)->Ok_0;
    assert forall|i: int| 0 <= i < t.classes.len() implies #[trigger] t.classes[i] == s.classes[i] by {}
    assert forall|i: int|
        0 <= i < s.classes.len() && #[trigger] s.classes[i].name
            == s.arena_state.player1_class_name.unwrap() implies t.arena_state.rounds[0].player1_hp
        == Some(s.classes[i].base_hp) by {
        lemma_class_named(s.classes, i);
    }
    assert forall|i: int|
        0 <= i < s.classes.len() && #[trigger] s.classes[i].name
            == class_name implies t.arena_state.rounds[0].player2_hp == Some(s.classes[i].base_hp) by {
        lemma_class_named(s.classes, i);
    }
}

/// A deposit seats the owner of the deposited tokens: the `from` of the
/// forwarded message takes the first free seat and the deposit is locked,
/// and the `sender` field of the forwarded message changes nothing (for a
/// deposit that `handle` accepts, one whose join does not overflow).
pub proof fn lemma_deposit_seats_its_owner(
    s: StateView,
    env_sender: Seq<char>,
    sender: String,
    other_sender: String,
    from: String,
    amount: u128,
    bytes: Vec<u8>,
    decoded: Option<HandleMsg>,
)
    requires
        s.wf(),
        !handle_fails(
            s,
            env_sender,
            HandleMsg::Receive { sender: sender, from: from, amount: amount, msg: bytes },
            decoded,
        ),
    ensures
        handle_result(
            s,
            env_sender,
            HandleMsg::Receive { sender: sender, from: from, amount: amount, msg: bytes },
            decoded,
        ) == handle_result(
            s,
            env_sender,
            HandleMsg::Receive { sender: other_sender, from: from, amount: amount, msg: bytes },
            decoded,
        ),
        decoded matches Some(HandleMsg::JoinArena { .. }) ==> (handle_result(
            s,
            env_sender,
            HandleMsg::Receive { sender: sender, from: from, amount: amount, msg: bytes },
            decoded,
        ) matches Ok(t) ==> {
            &&& s.arena_state.player1 is None ==> t.arena_state.player1 == Some(from@)
                && t.arena_state.tokens_locked == amount
            &&& s.arena_state.player1 is Some ==> t.arena_state.player2 == Some(from@)
                && t.arena_state.tokens_locked == s.arena_state.tokens_locked + amount
        }),
{
}

/// A new arena offers three classes whose actions need preparation exactly
/// as the game defines: the warrior and the mage attack, block and prepare
/// at any time, and need preparation for an unblockable attack or a
/// counter-attack; the archer attacks, blocks and prepares at any time, and
/// needs preparation for a double attack or to improve its dodging.
pub proof fn lemma_new_arena_actions(
    name: Seq<char>,
    entropy: u64,
    snip20_address: Seq<char>,
    factory_address: Seq<char>,
    factory_hash: Seq<char>,
    factory_key: Seq<char>,
)
    ensures
        ({
            let classes = initial_state(
                name,
                entropy,
                snip20_address,
                factory_address,
                factory_hash,
                factory_key,
            ).classes;
            let melee = seq![
                ActionView { name: "Attack"@, preparation_needed: false },
                ActionView { name: "UnblockableAttack"@, preparation_needed: true },
                ActionView { name: "Block"@, preparation_needed: false },
                ActionView { name: "CounterAttack"@, preparation_needed: true },
                ActionView { name: "Prepare"@, preparation_needed: false },
            ];
            &&& classes.len() == 3
            &&& classes[0].name == "Warrior"@ && classes[0].actions == melee
            &&& classes[1].name == "Archer"@ && classes[1].actions == seq![
                ActionView { name: "Attack"@, preparation_needed: false },
                ActionView { name: "DoubleAttack"@, preparation_needed: true },
                ActionView { name: "Block"@, preparation_needed: false },
                ActionView { name: "IncreaseDodgeChance"@, preparation_needed: true },
                ActionView { name: "Prepare"@, preparation_needed: false },
            ]
            &&& classes[2].name == "Mage"@ && classes[2].actions == melee
            &&& forall|c: int, k: int|
                0 <= c < classes.len() && 0 <= k < classes[c].actions.len() ==> {
                    let act = #[trigger] classes[c].actions[k];
                    &&& (act.name == "Attack"@ || act.name == "Block"@ || act.name == "Prepare"@)
                        ==> !act.preparation_needed
                    &&& (act.name == "UnblockableAttack"@ || act.name == "CounterAttack"@)
                        ==> act.preparation_needed
                }
        }),
{
    lemma_move_names();
    reveal_strlit("DoubleAttack");
    reveal_strlit("IncreaseDodgeChance");
    reveal_strlit("Attack");
    reveal_strlit("Block");
    reveal_strlit("Prepare");
    reveal_strlit("UnblockableAttack");
    reveal_strlit("CounterAttack");
    assert("DoubleAttack"@[0] != "Attack"@[0]);
    assert("DoubleAttack"@[0] != "Block"@[0]);
    assert("DoubleAttack"@[0] != "Prepare"@[0]);
    assert("IncreaseDodgeChance"@[0] != "Attack"@[0]);
    assert("IncreaseDodgeChance"@[0] != "Block"@[0]);
    assert("IncreaseDodgeChance"@[0] != "Prepare"@[0]);
    assert("Attack"@[0] != "UnblockableAttack"@[0]);
    assert("Attack"@[0] != "CounterAttack"@[0]);
    assert("Block"@[0] != "UnblockableAttack"@[0]);
    assert("Block"@[0] != "CounterAttack"@[0]);
    assert("Prepare"@[0] != "UnblockableAttack"@[0]);
    assert("Prepare"@[0] != "CounterAttack"@[0]);
}

/// A new arena is named as asked, knows only the token contract it was
/// created with, holds the creation entropy as its only entropy, seats no
/// one and locks nothing; its match has five rounds numbered 1 to 5, none
/// reached yet, with no hit points, no action and both players
/// unprepared; and it offers the warrior (130 hit points, attack 20), the
/// archer (100 hit points, attack 20, a 30% chance to dodge) and the mage
/// (100 hit points, attack 26), in that order.
pub proof fn lemma_new_arena_layout(
    name: Seq<char>,
    entropy: u64,
    snip20_address: Seq<char>,
    factory_address: Seq<char>,
    factory_hash: Seq<char>,
    factory_key: Seq<char>,
)
    ensures
        ({
            let s = initial_state(
                name,
                entropy,
                snip20_address,
                factory_address,
                factory_hash,
                factory_key,
            );
            let a = s.arena_state;
            &&& s.arena_name == name
            &&& s.known_snip_20 == seq![snip20_address]
            &&& s.secret_entropy == seq![be_bytes_u64(entropy)]
            &&& s.factory.contract_address == factory_address
            &&& s.factory.contract_hash == factory_hash
            &&& s.factory.auth_key == factory_key
            &&& a.player1 is None && a.player2 is None
            &&& a.player1_class_name is None && a.player2_class_name is None
            &&& a.tokens_locked == 0
            &&& a.rounds.len() == 5
            &&& forall|k: int|
                0 <= k < 5 ==> {
                    let r = #[trigger] a.rounds[k];
                    &&& r.number == k + 1
                    &&& r.status == "Empty"@
                    &&& r.player1_hp is None && r.player2_hp is None
                    &&& r.player1_preparation == Some(false) && r.player2_preparation == Some(false)
                    &&& r.player1_action_name is None && r.player2_action_name is None
                    &&& r.player1_attack_level is None && r.player2_attack_level is None
                }
            &&& s.classes.len() == 3
            &&& s.classes[0].name == "Warrior"@ && s.classes[0].base_hp == 130
                && s.classes[0].base_attack == 20 && s.classes[0].base_dodge_chance == 0
            &&& s.classes[1].name == "Archer"@ && s.classes[1].base_hp == 100
                && s.classes[1].base_attack == 20 && s.classes[1].base_dodge_chance == 30
            &&& s.classes[2].name == "Mage"@ && s.classes[2].base_hp == 100
                && s.classes[2].base_attack == 26 && s.classes[2].base_dodge_chance == 0
        }),
{
    let rounds = initial_state(
        name,
        entropy,
        snip20_address,
        factory_address,
        factory_hash,
        factory_key,
    ).arena_state.rounds;
    assert forall|k: int| 0 <= k < 5 implies (#[trigger] rounds[k]).number == k + 1 by {
        if k == 0 {} else if k == 1 {} else if k == 2 {} else if k == 3 {} else {}
    }
}

/// What a refused message is answered. A deposit that carries another
/// deposit is refused as recursive; then a deposit forwarded by a token
/// contract the arena does not know is refused, naming that contract; then
/// a deposit whose message is not a join is refused; a known token's join
/// deposit is a join by the owner of the tokens. A join or a deposit sent
/// directly, or a registration, finds no handler.
pub proof fn lemma_handle_refusals(
    s: StateView,
    env_sender: Seq<char>,
    sender: String,
    from: String,
    amount: u128,
    bytes: Vec<u8>,
    inner: HandleMsg,
    msg: HandleMsg,
)
    ensures
        ({
            let deposit = HandleMsg::Receive { sender: sender, from: from, amount: amount, msg: bytes };
            let r = handle_result(s, env_sender, deposit, Some(inner));
            &&& inner is Receive ==> r == Err::<StateView, ArenaErrorView>(
                ArenaErrorView::RecursiveReceive,
            )
            &&& !(inner is Receive) && !s.known_snip_20.contains(env_sender) ==> r == Err::<
                StateView,
                ArenaErrorView,
            >(ArenaErrorView::UnknownToken { sender: env_sender })
            &&& (inner is Register || inner is RoundAction) && s.known_snip_20.contains(env_sender)
                ==> r == Err::<StateView, ArenaErrorView>(ArenaErrorView::ReceiveHandlerNotFound)
            &&& s.known_snip_20.contains(env_sender) ==> (inner matches HandleMsg::JoinArena {
                class_name,
                secret,
            } ==> r == join_arena_result(s, class_name@, secret, from@, amount))
        }),
        msg is JoinArena || msg is Register ==> handle_result(s, env_sender, msg, None) == Err::<
            StateView,
            ArenaErrorView,
        >(ArenaErrorView::HandlerNotFound),
{
}

/// What a refused join is answered: a full arena is refused as full; a
/// second deposit that differs from the bet is refused, naming both; a
/// class that no class of the arena is named is refused, naming it; the
/// first player cannot take the second seat (refused as full). Any other
/// join is accepted.
pub proof fn lemma_join_refusals(
    s: StateView,
    class_name: Seq<char>,
    secret: u64,
    from: Seq<char>,
    amount: u128,
)
    ensures
        ({
            let a = s.arena_state;
            let r = join_arena_result(s, class_name, secret, from, amount);
            let known = exists|i: int| 0 <= i < s.classes.len() && #[trigger] s.classes[i].name == class_name;
            &&& a.player1 is Some && a.player2 is Some ==> r == Err::<StateView, ArenaErrorView>(
                ArenaErrorView::ArenaFull { arena_name: s.arena_name },
            )
            &&& a.player1 is Some && a.player2 is None && amount != a.tokens_locked ==> r == Err::<
                StateView,
                ArenaErrorView,
            >(ArenaErrorView::BetMismatch { amount: amount, bet_size: a.tokens_locked })
            &&& (a.player1 is None || a.player2 is None && amount == a.tokens_locked) && !known
                ==> r == Err::<StateView, ArenaErrorView>(
                ArenaErrorView::InvalidClassName { class_name: class_name },
            )
            &&& a.player1 == Some(from) && a.player2 is None && amount == a.tokens_locked && known
                ==> r == Err::<StateView, ArenaErrorView>(
                ArenaErrorView::ArenaFull { arena_name: s.arena_name },
            )
            &&& a.player1 != Some(from) && (a.player1 is None || a.player2 is None && amount
                == a.tokens_locked) && known ==> r is Ok
        }),
{
}

/// What a refused round action is answered: a sender who holds no seat is
/// refused as no participant; with no round waiting for actions, as having
/// no round; a seated player who already chose in the waiting round is
/// refused, naming the round and the action chosen; an action the player's
/// class (the class named in their seat) does not offer for their current
/// preparation is refused, naming it. Any other action is accepted.
pub proof fn lemma_round_action_refusals(
    s: StateView,
    sender: Seq<char>,
    action: Seq<char>,
    level: i32,
    w: int,
    c: int,
)
    requires
        s.wf(),
    ensures
        ({
            let a = s.arena_state;
            let r = round_action_result(s, sender, action, level);
            &&& a.player1 != Some(sender) && a.player2 != Some(sender) ==> r == Err::<
                StateView,
                ArenaErrorView,
            >(ArenaErrorView::NotParticipant { arena_name: s.arena_name })
            &&& (a.player1 == Some(sender) || a.player2 == Some(sender)) && (forall|k: int|
                0 <= k < a.rounds.len() ==> #[trigger] a.rounds[k].status != "WaitingActions"@)
                ==> r == Err::<StateView, ArenaErrorView>(
                ArenaErrorView::NoRounds { arena_name: s.arena_name },
            )
        }),
        ({
            let a = s.arena_state;
            let r = round_action_result(s, sender, action, level);
            let round = a.rounds[w];
            let mine = if a.player1 == Some(sender) { round.player1_action_name } else { round.player2_action_name };
            let prep = if a.player1 == Some(sender) { round.player1_preparation } else { round.player2_preparation };
            let seat_class = if a.player1 == Some(sender) { a.player1_class_name } else { a.player2_class_name };
            0 <= w < a.rounds.len() && round.status == "WaitingActions"@ && (a.player1 == Some(sender) || a.player2 == Some(sender))
                && 0 <= c < s.classes.len() && seat_class == Some(s.classes[c].name) ==> {
                &&& mine is Some ==> r == Err::<StateView, ArenaErrorView>(
                    ArenaErrorView::AlreadySubmitted { round_number: round.number, action_name: mine },
                )
                &&& mine is None && !(exists|k: int| 0 <= k < s.classes[c].actions.len()
                    && #[trigger] s.classes[c].actions[k].name == action
                    && s.classes[c].actions[k].preparation_needed == prep.unwrap())
                    ==> r == Err::<StateView, ArenaErrorView>(
                    ArenaErrorView::InvalidActionName { action_name: action },
                )
                &&& mine is None && (exists|k: int| 0 <= k < s.classes[c].actions.len()
                    && #[trigger] s.classes[c].actions[k].name == action
                    && s.classes[c].actions[k].preparation_needed == prep.unwrap()) ==> r is Ok
            }
        }),
{
    let a = s.arena_state;
    lemma_latest_waiting(a.rounds);
    let lw = latest_waiting(a.rounds);
    if 0 <= w < a.rounds.len() && a.rounds[w].status == "WaitingActions"@ {
        if w < lw {
            assert(!(a.rounds[w].status == "WaitingActions"@ && a.rounds[lw].status == "WaitingActions"@));
        }
        assert(w == lw);
        if 0 <= c < s.classes.len() {
            lemma_class_named(s.classes, c);
        }
    }
}

/// An accepted join records the joiner's choice: the joiner's secret, in
/// big-endian bytes, is added after the entropy gathered so far; the first
/// joiner takes the first seat with their class and locks their deposit,
/// no round changing; the second takes the second seat with their class
/// and adds their deposit (when the sum fits in a `u128`, as `join_arena`
/// requires), the first player's seat and class staying and
/// no round but the first changing. The arena's name, classes, known
/// tokens and factory stay as they were.
pub proof fn lemma_join_records_choice(
    s: StateView,
    class_name: Seq<char>,
    secret: u64,
    from: Seq<char>,
    amount: u128,
)
    requires
        s.wf(),
    ensures
        join_arena_result(s, class_name, secret, from, amount) matches Ok(t) ==> {
            let a = s.arena_state;
            let b = t.arena_state;
            &&& t.secret_entropy == s.secret_entropy.push(be_bytes_u64(secret))
            &&& t.arena_name == s.arena_name
            &&& t.classes == s.classes
            &&& t.known_snip_20 == s.known_snip_20
            &&& t.factory == s.factory
            &&& b.rounds.len() == a.rounds.len()
            &&& a.player1 is None ==> {
                &&& b.player1 == Some(from)
                &&& b.player1_class_name == Some(class_name)
                &&& b.player2 == a.player2
                &&& b.player2_class_name == a.player2_class_name
                &&& b.tokens_locked == amount
                &&& b.rounds == a.rounds
            }
            &&& a.player1 is Some ==> {
                &&& b.player1 == a.player1
                &&& b.player1_class_name == a.player1_class_name
                &&& b.player2 == Some(from)
                &&& b.player2_class_name == Some(class_name)
                &&& a.tokens_locked + amount <= u128::MAX ==> b.tokens_locked == a.tokens_locked
                    + amount
                &&& forall|k: int| 1 <= k < a.rounds.len() ==> #[trigger] b.rounds[k] == a.rounds[k]
            }
        },
{
}

} // verus!
