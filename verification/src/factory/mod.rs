//! The factory: it creates arenas, keeps the list of those created, and
//! vouches for users' viewing keys.
pub mod contract;
pub mod msg;
