//! Operations of a signing ceremony.

pub mod check_signature;
pub mod participants;
pub mod signing;
pub mod stage_cache;
pub mod state_machines;
