//! Helpers shared by the operations.

pub mod decimal;
pub mod hex2string;
pub mod local_share_utils;
pub mod check_timestamp;
pub mod parse_signature_json;
pub mod text;
pub mod digest;
pub mod json;
