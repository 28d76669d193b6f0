//! Threshold ECDSA signing service: configuration, participant-set rules,
//! index mapping, session bookkeeping and signature checking.

pub mod mpc;
pub mod mpc_config;
pub mod utils;
pub mod communication;
pub mod pub_endpoints;
pub mod signing;
pub mod key_generation;
pub mod rocket_instances;
