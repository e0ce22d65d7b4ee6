//! One arena: its stored state, the combat rules and the handlers that move
//! a match forward.
pub mod combat;
pub mod contract;
pub mod join;
pub mod msg;
pub mod randomness;
pub mod round;
pub mod simulation;
pub mod state;
pub mod wellformed;
pub mod properties;
