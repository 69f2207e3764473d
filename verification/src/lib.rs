//! A single shared launch site coordinated through discrete actions:
//! participant registration, exclusive session ownership, per-participant
//! strategy registration, and a deterministic multi-round launch simulation
//! that settles earnings into participant balances.

pub mod actions;
pub mod laws;
pub mod settle;
pub mod simulation;
pub mod site;
pub mod table;
