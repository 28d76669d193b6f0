//! The signing protocol as seen by one server.

pub mod operations;
pub mod utils;

pub use operations::check_signature::{check_sig, extract_rs, get_public_key};
pub use operations::signing::Signer;
pub use utils::check_timestamp::verify_timestamp_10_minute_window;
pub use utils::hex2string::hex_to_string;
