//! Game logic of a two-player brawl arena and of the factory that creates
//! arenas, with its rules stated as contracts and proved.
pub mod arena;
pub mod factory;
