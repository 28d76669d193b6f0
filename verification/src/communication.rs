//! Carrying the messages of one protocol round between this server and
//! its peers.

pub mod create_communication_channel;
pub mod envelope;
pub mod room;
