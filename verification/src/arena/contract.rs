//! The arena's handlers: creating an arena, routing deposits and messages,
//! showing its state. Joining is in `join`, playing a round in `round`.
use vstd::prelude::*;
use crate::arena::join::{
    after_joins, join_arena_result, join_overflows, join_would_overflow, joins_never_overflow,
    lemma_joins_keep_one_bet_per_seat, one_bet_per_seat,
};
use crate::arena::msg::{
    FactoryHandleMsg, FactoryQueryMsg, HandleMsg, InitMsg, IsKeyValidResponse, Snip20Msg,
    StateResponse,
};
use crate::arena::randomness::{be_bytes_u64, u64_to_be_bytes};
use crate::arena::round::{
    round_action_level, round_action_result,
};
use crate::arena::state::{
    Action, ActionView, ArenaState, ArenaStateView, Class, ClassView, FactoryInfo, FactoryInfoView,
    Round, RoundView, State, StateView, status_empty, lemma_statuses_distinct, classes_wf,
};
pub use crate::arena::join::join_arena;
pub use crate::arena::round::round_action;

verus! {

/// Why an arena refuses a request.
#[derive(Clone, Debug, PartialEq, Eq)]
pub enum ArenaError {
    /// The message is not one the arena handles directly.
    HandlerNotFound,
    /// A deposit may not carry another deposit.
    RecursiveReceive,
    /// The deposit comes from a token contract the arena does not know.
    UnknownToken { sender: String },
    /// The deposit carries a message other than joining.
    ReceiveHandlerNotFound,
    /// Both seats are taken, or the sender already holds the first one.
    ArenaFull { arena_name: String },
    /// The second player's deposit differs from the first player's.
    BetMismatch { amount: u128, bet_size: u128 },
    /// No class of this name.
    InvalidClassName { class_name: String },
    /// The sender holds no seat in the arena.
    NotParticipant { arena_name: String },
    /// No round is waiting for actions.
    NoRounds { arena_name: String },
    /// The sender already chose an action in the current round.
    AlreadySubmitted { round_number: i32, action_name: Option<String> },
    /// The sender's class has no such action for their preparation.
    InvalidActionName { action_name: String },
    /// The viewing key does not match the address.
    InvalidViewingKey,
}

pub enum ArenaErrorView {
    HandlerNotFound,
    RecursiveReceive,
    UnknownToken { sender: Seq<char> },
    ReceiveHandlerNotFound,
    ArenaFull { arena_name: Seq<char> },
    BetMismatch { amount: u128, bet_size: u128 },
    InvalidClassName { class_name: Seq<char> },
    NotParticipant { arena_name: Seq<char> },
    NoRounds { arena_name: Seq<char> },
    AlreadySubmitted { round_number: i32, action_name: Option<Seq<char>> },
    InvalidActionName { action_name: Seq<char> },
    InvalidViewingKey,
}

impl View for ArenaError {
    type V = ArenaErrorView;

    open spec fn view(&self) -> ArenaErrorView {
        match self {
            ArenaError::HandlerNotFound => ArenaErrorView::HandlerNotFound,
            ArenaError::RecursiveReceive => ArenaErrorView::RecursiveReceive,
            ArenaError::UnknownToken { sender } => ArenaErrorView::UnknownToken { sender: sender@ },
            ArenaError::ReceiveHandlerNotFound => ArenaErrorView::ReceiveHandlerNotFound,
            ArenaError::ArenaFull { arena_name } => ArenaErrorView::ArenaFull {
                arena_name: arena_name@,
            },
            ArenaError::BetMismatch { amount, bet_size } => ArenaErrorView::BetMismatch {
                amount: *amount,
                bet_size: *bet_size,
            },
            ArenaError::InvalidClassName { class_name } => ArenaErrorView::InvalidClassName {
                class_name: class_name@,
            },
            ArenaError::NotParticipant { arena_name } => ArenaErrorView::NotParticipant {
                arena_name: arena_name@,
            },
            ArenaError::NoRounds { arena_name } => ArenaErrorView::NoRounds {
                arena_name: arena_name@,
            },
            ArenaError::AlreadySubmitted { round_number, action_name } =>
                ArenaErrorView::AlreadySubmitted {
                    round_number: *round_number,
                    action_name: action_name.deep_view(),
                },
            ArenaError::InvalidActionName { action_name } => ArenaErrorView::InvalidActionName {
                action_name: action_name@,
            },
            ArenaError::InvalidViewingKey => ArenaErrorView::InvalidViewingKey,
        }
    }
}

/// The view of a handler's result.
pub open spec fn result_view(r: Result<State, ArenaError>) -> Result<StateView, ArenaErrorView> {
    match r {
        Ok(s) => Ok(s@),
        Err(e) => Err(e@),
    }
}

/// A round that no player has reached: numbered, "Empty", neither player
/// prepared, nothing else set.
pub open spec fn empty_round(number: i32) -> RoundView {
    RoundView {
        number: number,
        status: status_empty(),
        player1_hp: None,
        player1_preparation: Some(false),
        player2_hp: None,
        player2_preparation: Some(false),
        player1_action_name: None,
        player1_attack_level: None,
        player2_action_name: None,
        player2_attack_level: None,
    }
}

/// A fresh round with the given number.
pub fn gen_empty_rounds(round_number: i32) -> (r: Round)
    ensures
        r@ == empty_round(round_number),
{
    Round {
        number: round_number,
        status: String::from_str("Empty"),
        player1_hp: None,
        player1_preparation: Some(false),
        player2_hp: None,
        player2_preparation: Some(false),
        player1_action_name: None,
        player1_attack_level: None,
        player2_action_name: None,
        player2_attack_level: None,
    }
}

/// Accepts a deposit only when it equals the bet already locked.
pub fn can_deposit(amount: u128, bet_size: u128) -> (r: Result<u128, ArenaError>)
    ensures
        amount == bet_size ==> r == Ok::<u128, ArenaError>(amount),
        amount != bet_size ==> r == Err::<u128, ArenaError>(
            ArenaError::BetMismatch { amount: amount, bet_size: bet_size },
        ),
{
    if amount != bet_size {
        return Err(ArenaError::BetMismatch { amount, bet_size });
    }
    Ok(amount)
}

/// The actions of a warrior or a mage: attack, unblockable attack (once
/// prepared), block, counter-attack (once prepared), prepare.
pub open spec fn melee_actions() -> Seq<ActionView> {
    seq![
        ActionView { name: "Attack"@, preparation_needed: false },
        ActionView { name: "UnblockableAttack"@, preparation_needed: true },
        ActionView { name: "Block"@, preparation_needed: false },
        ActionView { name: "CounterAttack"@, preparation_needed: true },
        ActionView { name: "Prepare"@, preparation_needed: false },
    ]
}

/// The warrior: 30% more hit points than the base 100, the base attack of
/// 20.
pub open spec fn warrior_class() -> ClassView {
    ClassView {
        name: "Warrior"@,
        base_hp: 130,
        base_attack: 20,
        base_dodge_chance: 0,
        actions: melee_actions(),
    }
}

/// The archer: the base 100 hit points and attack of 20, a 30% chance to
/// dodge; it shoots twice or improves its dodging once prepared.
pub open spec fn archer_class() -> ClassView {
    ClassView {
        name: "Archer"@,
        base_hp: 100,
        base_attack: 20,
        base_dodge_chance: 30,
        actions: seq![
            ActionView { name: "Attack"@, preparation_needed: false },
            ActionView { name: "DoubleAttack"@, preparation_needed: true },
            ActionView { name: "Block"@, preparation_needed: false },
            ActionView { name: "IncreaseDodgeChance"@, preparation_needed: true },
            ActionView { name: "Prepare"@, preparation_needed: false },
        ],
    }
}

/// The mage: the base 100 hit points, 30% more damage than the base 20.
pub open spec fn mage_class() -> ClassView {
    ClassView {
        name: "Mage"@,
        base_hp: 100,
        base_attack: 26,
        base_dodge_chance: 0,
        actions: melee_actions(),
    }
}

/// The three classes an arena offers.
pub open spec fn arena_classes() -> Seq<ClassView> {
    seq![warrior_class(), archer_class(), mage_class()]
}

/// The five rounds of a match, none reached yet.
pub open spec fn initial_rounds() -> Seq<RoundView> {
    seq![empty_round(1), empty_round(2), empty_round(3), empty_round(4), empty_round(5)]
}

/// The state of a new arena: no player, nothing locked, five empty rounds,
/// the creation entropy as the only entropy, the token contract as the only
/// known token, the warrior, the archer and the mage as classes.
pub open spec fn initial_state(
    name: Seq<char>,
    entropy: u64,
    snip20_address: Seq<char>,
    factory_address: Seq<char>,
    factory_hash: Seq<char>,
    factory_key: Seq<char>,
) -> StateView {
    StateView {
        arena_name: name,
        known_snip_20: seq![snip20_address],
        secret_entropy: seq![be_bytes_u64(entropy)],
        arena_state: ArenaStateView {
            tokens_locked: 0,
            player1: None,
            player1_class_name: None,
            player2: None,
            player2_class_name: None,
            rounds: initial_rounds(),
        },
        classes: arena_classes(),
        factory: FactoryInfoView {
            contract_address: factory_address,
            contract_hash: factory_hash,
            auth_key: factory_key,
        },
    }
}

/// A new arena is well formed.
pub proof fn lemma_initial_state_wf(
    name: Seq<char>,
    entropy: u64,
    snip20_address: Seq<char>,
    factory_address: Seq<char>,
    factory_hash: Seq<char>,
    factory_key: Seq<char>,
)
    ensures
        initial_state(name, entropy, snip20_address, factory_address, factory_hash, factory_key).wf(),
{
    lemma_statuses_distinct();
    let s = initial_state(name, entropy, snip20_address, factory_address, factory_hash, factory_key);
    let rounds = s.arena_state.rounds;
    assert forall|i: int| 0 <= i < rounds.len() implies (#[trigger] rounds[i]).number == i + 1
        && rounds[i].status == status_empty() by {
        if i == 0 {} else if i == 1 {} else if i == 2 {} else if i == 3 {} else {}
    }
    reveal_strlit("Warrior");
    reveal_strlit("Archer");
    reveal_strlit("Mage");
    assert("Warrior"@[0] != "Archer"@[0]);
    assert("Warrior"@[0] != "Mage"@[0]);
    assert("Archer"@[0] != "Mage"@[0]);
    assert(classes_wf(s.classes));
}

/// A new arena holds one bet per seated player, whatever the bet: no one
/// is seated and nothing is locked.
pub proof fn lemma_new_arena_holds_no_bet(
    name: Seq<char>,
    entropy: u64,
    snip20_address: Seq<char>,
    factory_address: Seq<char>,
    factory_hash: Seq<char>,
    factory_key: Seq<char>,
    bet: u128,
)
    ensures
        one_bet_per_seat(
            initial_state(
                name,
                entropy,
                snip20_address,
                factory_address,
                factory_hash,
                factory_key,
            ).arena_state,
            bet,
        ),
{
}

/// Every arena reached from a new arena by joins locks one bet per seated
/// player, the bet being the deposit of the first player to sit; its two
/// seated players differ, and each seated player has a class.
pub proof fn lemma_new_arena_joins_keep_one_bet_per_seat(
    name: Seq<char>,
    entropy: u64,
    snip20_address: Seq<char>,
    factory_address: Seq<char>,
    factory_hash: Seq<char>,
    factory_key: Seq<char>,
    joins: Seq<(Seq<char>, u64, Seq<char>, u128)>,
)
    requires
        joins_never_overflow(
            initial_state(name, entropy, snip20_address, factory_address, factory_hash, factory_key),
            0,
            joins,
        ),
    ensures
        ({
            let s = initial_state(
                name,
                entropy,
                snip20_address,
                factory_address,
                factory_hash,
                factory_key,
            );
            let (t, b) = after_joins(s, 0, joins);
            let a = t.arena_state;
            &&& t.wf()
            &&& one_bet_per_seat(a, b)
            &&& a.player2 is Some ==> a.player1 is Some && a.player1 != a.player2
            &&& (a.player1 is Some <==> a.player1_class_name is Some)
            &&& (a.player2 is Some <==> a.player2_class_name is Some)
        }),
{
    let s = initial_state(name, entropy, snip20_address, factory_address, factory_hash, factory_key);
    lemma_initial_state_wf(name, entropy, snip20_address, factory_address, factory_hash, factory_key);
    lemma_joins_keep_one_bet_per_seat(s, 0, joins);
}

/// What creating an arena produces: its state, the callback that tells the
/// factory the arena exists, and the registration with the token contract.
pub struct ArenaInit {
    pub state: State,
    pub factory_callback: FactoryHandleMsg,
    pub snip20_register: Snip20Msg,
}

fn action(name: &str, preparation_needed: bool) -> (a: Action)
    ensures
        a@ == (ActionView { name: name@, preparation_needed: preparation_needed }),
{
    Action { name: String::from_str(name), preparation_needed }
}

fn melee_action_list() -> (v: Vec<Action>)
    ensures
        v@.map_values(|a: Action| a@) == melee_actions(),
{
    let mut actions: Vec<Action> = Vec::new();
    actions.push(action("Attack", false));
    actions.push(action("UnblockableAttack", true));
    actions.push(action("Block", false));
    actions.push(action("CounterAttack", true));
    actions.push(action("Prepare", false));
    assert(actions@.map_values(|a: Action| a@) =~= melee_actions());
    actions
}

fn class_list() -> (v: Vec<Class>)
    ensures
        v@.map_values(|c: Class| c@) == arena_classes(),
{
    let warrior = Class {
        name: String::from_str("Warrior"),
        base_hp: 130,
        base_attack: 20,
        base_dodge_chance: 0,
        actions: melee_action_list(),
    };
    let mut archer_actions: Vec<Action> = Vec::new();
    archer_actions.push(action("Attack", false));
    archer_actions.push(action("DoubleAttack", true));
    archer_actions.push(action("Block", false));
    archer_actions.push(action("IncreaseDodgeChance", true));
    archer_actions.push(action("Prepare", false));
    let archer = Class {
        name: String::from_str("Archer"),
        base_hp: 100,
        base_attack: 20,
        base_dodge_chance: 30,
        actions: archer_actions,
    };
    let mage = Class {
        name: String::from_str("Mage"),
        base_hp: 100,
        base_attack: 26,
        base_dodge_chance: 0,
        actions: melee_action_list(),
    };
    assert(archer@.actions =~= archer_class().actions);
    let mut classes: Vec<Class> = Vec::new();
    classes.push(warrior);
    classes.push(archer);
    classes.push(mage);
    assert(classes@.map_values(|c: Class| c@) =~= arena_classes());
    classes
}

/// Creates an arena (`contract_address` and `contract_code_hash` are the
/// new arena's own): its initial state, which is well formed, the callback
/// to the factory and the registration with the token contract.
pub fn init(msg: InitMsg, contract_address: String, contract_code_hash: String) -> (r: ArenaInit)
    ensures
        r.state@ == initial_state(
            msg.name@,
            msg.entropy,
            msg.snip20_contract_code_address@,
            msg.factory_address@,
            msg.factory_hash@,
            msg.factory_key@,
        ),
        r.state@.wf(),
        r.factory_callback == (FactoryHandleMsg::InitCallBackFromArenaToFactory {
            auth_key: msg.factory_key,
            contract_address: contract_address,
        }),
        r.snip20_register == (Snip20Msg::RegisterReceive {
            code_hash: contract_code_hash,
            padding: None,
        }),
{
    let mut rounds: Vec<Round> = Vec::new();
    rounds.push(gen_empty_rounds(1));
    rounds.push(gen_empty_rounds(2));
    rounds.push(gen_empty_rounds(3));
    rounds.push(gen_empty_rounds(4));
    rounds.push(gen_empty_rounds(5));
    let mut secret_entropy: Vec<[u8; 8]> = Vec::new();
    secret_entropy.push(u64_to_be_bytes(msg.entropy));
    let mut known_snip_20: Vec<String> = Vec::new();
    known_snip_20.push(msg.snip20_contract_code_address.clone());
    let classes = class_list();
    let factory_callback = FactoryHandleMsg::InitCallBackFromArenaToFactory {
        auth_key: msg.factory_key.clone(),
        contract_address,
    };
    let state = State {
        arena_name: msg.name,
        secret_entropy,
        arena_state: ArenaState {
            tokens_locked: 0,
            player1: None,
            player1_class_name: None,
            player2: None,
            player2_class_name: None,
            rounds,
        },
        known_snip_20,
        classes,
        factory: FactoryInfo {
            contract_address: msg.factory_address,
            contract_hash: msg.factory_hash,
            auth_key: msg.factory_key,
        },
    };
    proof {
        let target = initial_state(
            msg.name@,
            msg.entropy,
            msg.snip20_contract_code_address@,
            msg.factory_address@,
            msg.factory_hash@,
            msg.factory_key@,
        );
        assert(state@.arena_state.rounds =~= initial_rounds());
        assert(state@.secret_entropy =~= target.secret_entropy);
        assert(state@.known_snip_20 =~= target.known_snip_20);
        assert(state@.classes =~= target.classes);
        lemma_initial_state_wf(
            msg.name@,
            msg.entropy,
            msg.snip20_contract_code_address@,
            msg.factory_address@,
            msg.factory_hash@,
            msg.factory_key@,
        );
    }
    ArenaInit {
        state,
        factory_callback,
        snip20_register: Snip20Msg::register_receive(contract_code_hash),
    }
}


/// Whether `list` holds `item`.
pub fn contains_text(list: &Vec<String>, item: &String) -> (b: bool)
    ensures
        b == list.deep_view().contains(item@),
{
    let mut i: usize = 0;
    while i < list.len()
        invariant
            i <= list@.len(),
            forall|j: int| 0 <= j < i ==> (#[trigger] list.deep_view()[j]) != item@,
        decreases list@.len() - i,
    {
        if list[i] == *item {
            assert(list.deep_view()[i as int] == item@);
            return true;
        }
        i = i + 1;
    }
    false
}

/// What a deposit forwarded by the token contract `env_sender` gives: a
/// nested deposit is refused, then a token contract the arena does not
/// know, then any message but joining; a join goes through `join_arena`.
pub open spec fn try_receive_result(
    s: StateView,
    env_sender: Seq<char>,
    from: Seq<char>,
    amount: u128,
    msg: HandleMsg,
) -> Result<StateView, ArenaErrorView> {
    match msg {
        HandleMsg::Receive { .. } => Err(ArenaErrorView::RecursiveReceive),
        _ => if !s.known_snip_20.contains(env_sender) {
            Err(ArenaErrorView::UnknownToken { sender: env_sender })
        } else {
            match msg {
                HandleMsg::JoinArena { class_name, secret } => join_arena_result(
                    s,
                    class_name@,
                    secret,
                    from,
                    amount,
                ),
                _ => Err(ArenaErrorView::ReceiveHandlerNotFound),
            }
        },
    }
}

/// The deposit reaches a join whose second deposit would overflow.
pub open spec fn receive_overflows(
    s: StateView,
    env_sender: Seq<char>,
    from: Seq<char>,
    amount: u128,
    msg: HandleMsg,
) -> bool {
    &&& s.known_snip_20.contains(env_sender)
    &&& msg matches HandleMsg::JoinArena { class_name, .. } && join_overflows(
        s,
        class_name@,
        from,
        amount,
    )
}

/// Handles a deposit of `amount` by `from`, forwarded by the token
/// contract `env_sender` with the decoded message `msg`.
pub fn try_receive(state: State, env_sender: &String, from: String, amount: u128, msg: HandleMsg) -> (r:
    Result<State, ArenaError>)
    requires
        state@.wf(),
        !receive_overflows(state@, env_sender@, from@, amount, msg),
    ensures
        result_view(r) == try_receive_result(state@, env_sender@, from@, amount, msg),
        r matches Ok(t) ==> t@.wf(),
{
    if let HandleMsg::Receive { .. } = msg {
        return Err(ArenaError::RecursiveReceive);
    }
    if !contains_text(&state.known_snip_20, env_sender) {
        return Err(ArenaError::UnknownToken { sender: env_sender.clone() });
    }
    match msg {
        HandleMsg::JoinArena { class_name, secret } => join_arena(
            state,
            class_name,
            secret,
            from,
            amount,
        ),
        _ => Err(ArenaError::ReceiveHandlerNotFound),
    }
}

/// The question an arena asks its factory before showing its state: is
/// this viewing key valid for this address? It authenticates itself with
/// the factory's key.
pub fn get_state_query(state: &State, user_address: String, user_viewkey: String) -> (q:
    FactoryQueryMsg)
    ensures
        q == (FactoryQueryMsg::IsKeyValid {
            factory_key: state.factory.auth_key,
            viewing_key: user_viewkey,
            address: user_address,
        }),
{
    FactoryQueryMsg::IsKeyValid {
        factory_key: state.factory.auth_key.clone(),
        viewing_key: user_viewkey,
        address: user_address,
    }
}

/// Shows the whole state to a user whose viewing key the factory accepted,
/// and refuses anyone else.
pub fn get_state(state: State, response: IsKeyValidResponse) -> (r: Result<StateResponse, ArenaError>)
    ensures
        response.is_key_valid.is_valid ==> r == Ok::<StateResponse, ArenaError>(
            StateResponse { state: state },
        ),
        !response.is_key_valid.is_valid ==> r == Err::<StateResponse, ArenaError>(
            ArenaError::InvalidViewingKey,
        ),
{
    if response.is_key_valid.is_valid {
        Ok(StateResponse { state })
    } else {
        Err(ArenaError::InvalidViewingKey)
    }
}


/// What a handled message gives: a deposit (whose message `decoded` holds,
/// decoded) goes to `try_receive`, a round action to `round_action`, and
/// every other message is refused.
pub open spec fn handle_result(
    s: StateView,
    env_sender: Seq<char>,
    msg: HandleMsg,
    decoded: Option<HandleMsg>,
) -> Result<StateView, ArenaErrorView> {
    match msg {
        HandleMsg::Receive { from, amount, .. } => try_receive_result(
            s,
            env_sender,
            from@,
            amount,
            decoded.unwrap(),
        ),
        HandleMsg::RoundAction { action_name } => round_action_result(
            s,
            env_sender,
            action_name@,
            round_action_level(s, env_sender),
        ),
        _ => Err(ArenaErrorView::HandlerNotFound),
    }
}

/// The handled message would reach a join whose second deposit overflows.
pub open spec fn handle_fails(
    s: StateView,
    env_sender: Seq<char>,
    msg: HandleMsg,
    decoded: Option<HandleMsg>,
) -> bool {
    match msg {
        HandleMsg::Receive { from, amount, .. } => receive_overflows(
            s,
            env_sender,
            from@,
            amount,
            decoded.unwrap(),
        ),
        _ => false,
    }
}

/// Handles a message sent by `env_sender`. For a deposit, `decoded` is the
/// message decoded from the deposit's `msg`.
pub fn handle(state: State, env_sender: &String, msg: HandleMsg, decoded: Option<HandleMsg>) -> (r:
    Result<State, ArenaError>)
    requires
        state@.wf(),
        msg is Receive ==> decoded is Some,
        !handle_fails(state@, env_sender@, msg, decoded),
    ensures
        result_view(r) == handle_result(state@, env_sender@, msg, decoded),
        r matches Ok(t) ==> t@.wf(),
{
    match msg {
        HandleMsg::Receive { sender: _, from, amount, msg: _ } => match decoded {
            Some(inner) => try_receive(state, env_sender, from, amount, inner),
            None => Err(ArenaError::HandlerNotFound),
        },
        HandleMsg::RoundAction { action_name } => round_action(state, env_sender, action_name),
        _ => Err(ArenaError::HandlerNotFound),
    }
}


/// Whether handling the message would reach a join whose second deposit
/// overflows (the case `handle` leaves out).
pub fn handle_would_fail(state: &State, env_sender: &String, msg: &HandleMsg, decoded: &Option<HandleMsg>) -> (b:
    bool)
    requires
        msg is Receive ==> decoded is Some,
    ensures
        b == handle_fails(state@, env_sender@, *msg, *decoded),
{
    match msg {
        HandleMsg::Receive { from, amount, .. } => match decoded {
            Some(HandleMsg::JoinArena { class_name, .. }) => contains_text(
                &state.known_snip_20,
                env_sender,
            ) && join_would_overflow(state, class_name, from, *amount),
            _ => false,
        },
        _ => false,
    }
}

} // verus!
