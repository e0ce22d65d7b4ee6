//! Messages that the factory takes and answers, as plain values.
use vstd::prelude::*;

verus! {

/// What the factory is created with.
#[derive(Clone, Debug, PartialEq, Eq)]
pub struct InitMsg {
    pub entropy: String,
    pub arena_contracts_code_id: u64,
    pub arena_contracts_code_hash: String,
    pub snip20_contract_code_address: String,
    pub snip20_contract_code_hash: String,
}

/// What a new arena is created with.
#[derive(Clone, Debug, PartialEq, Eq)]
pub struct ArenaContractInitMsg {
    pub name: String,
    pub entropy: u64,
    pub factory_address: String,
    pub factory_hash: String,
    pub factory_key: String,
    pub snip20_contract_code_address: String,
    pub snip20_contract_code_hash: String,
}

/// What the factory handles.
#[derive(Clone, Debug, PartialEq, Eq)]
pub enum HandleMsg {
    CreateViewingKey { entropy: String },
    ChangeArenaContractCodeId { code_id: u64, code_hash: String },
    NewArenaInstanciate { name: String, entropy: u64 },
    InitCallBackFromArenaToFactory { auth_key: String, contract_address: String },
}

/// Success or failure.
#[derive(Clone, Copy, Debug, PartialEq, Eq)]
pub enum ResponseStatus {
    Success,
    Failure,
}

/// What the factory answers to a handled message.
#[derive(Clone, Debug, PartialEq, Eq)]
pub enum HandleAnswer {
    /// The viewing key just created.
    ViewingKey { key: String },
    /// A status, with an optional description.
    Status { status: ResponseStatus, message: Option<String> },
}

/// What the factory answers.
#[derive(Clone, Debug, PartialEq, Eq)]
pub enum QueryMsg {
    /// Is this viewing key valid for this address? Only arenas, which know
    /// the factory's key, may ask.
    IsKeyValid { address: String, viewing_key: String, factory_key: String },
    ArenaContractCodeId,
    Arenas,
}

/// The factory's answers.
#[derive(Clone, Debug, PartialEq, Eq)]
pub enum QueryAnswer {
    ViewingKeyError { error: String },
    IsKeyValid { is_valid: bool },
    ArenaContractCodeID { code_id: u64, code_hash: String },
    Arenas { arenas: Vec<String> },
}

} // verus!
