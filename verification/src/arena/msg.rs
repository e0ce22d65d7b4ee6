//! Messages that an arena takes, sends and answers, as plain values.
use vstd::prelude::*;
use crate::arena::state::{ArenaState, State};

verus! {

/// Size of the blocks that outgoing messages are padded to.
pub const BLOCK_SIZE: usize = 256;

/// What an arena is created with.
#[derive(Clone, Debug, PartialEq, Eq)]
pub struct InitMsg {
    pub name: String,
    pub entropy: u64,
    pub factory_address: String,
    pub factory_hash: String,
    pub factory_key: String,
    pub snip20_contract_code_address: String,
    pub snip20_contract_code_hash: String,
}

/// What an arena handles. `Receive` is how a token contract forwards a
/// deposit; its `msg` holds the encoded message that rides with it.
#[derive(Clone, Debug, PartialEq, Eq)]
pub enum HandleMsg {
    Register { reg_addr: String, reg_hash: String },
    Receive { sender: String, from: String, amount: u128, msg: Vec<u8> },
    RoundAction { action_name: String },
    JoinArena { class_name: String, secret: u64 },
}

/// What an arena answers.
#[derive(Clone, Debug, PartialEq, Eq)]
pub enum QueryMsg {
    GetState { user_address: String, user_viewkey: String },
}

#[derive(Clone, Debug, PartialEq, Eq)]
pub struct GetArenaResponse {
    pub arena: ArenaState,
}

#[derive(Clone, Debug, PartialEq, Eq)]
pub struct StateResponse {
    pub state: State,
}

/// Messages sent to token contracts.
#[derive(Clone, Debug, PartialEq, Eq)]
pub enum Snip20Msg {
    RegisterReceive { code_hash: String, padding: Option<String> },
    Redeem { amount: u128, padding: Option<String> },
}

impl Snip20Msg {
    /// Asks a token contract to forward deposits to the contract whose code
    /// has this hash.
    pub fn register_receive(code_hash: String) -> (m: Self)
        ensures
            m == (Snip20Msg::RegisterReceive { code_hash: code_hash, padding: None }),
    {
        Snip20Msg::RegisterReceive { code_hash, padding: None }
    }

    /// Asks a token contract to redeem `amount`.
    pub fn redeem(amount: u128) -> (m: Self)
        ensures
            m == (Snip20Msg::Redeem { amount: amount, padding: None }),
    {
        Snip20Msg::Redeem { amount, padding: None }
    }
}

/// The factory's handle messages that an arena sends.
#[derive(Clone, Debug, PartialEq, Eq)]
pub enum FactoryHandleMsg {
    InitCallBackFromArenaToFactory { auth_key: String, contract_address: String },
}

/// The factory's queries that an arena makes.
#[derive(Clone, Debug, PartialEq, Eq)]
pub enum FactoryQueryMsg {
    IsKeyValid { factory_key: String, viewing_key: String, address: String },
}

/// The factory's answer to `IsKeyValid`.
#[derive(Clone, Debug, PartialEq, Eq)]
pub struct IsKeyValidResponse {
    pub is_key_valid: IsKeyValid,
}

#[derive(Clone, Debug, PartialEq, Eq)]
pub struct IsKeyValid {
    pub is_valid: bool,
}

} // verus!
