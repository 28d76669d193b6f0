//! Where the long-term key share of a server is kept.

use vstd::prelude::*;
use vstd::string::StringExecFns;
use crate::mpc::utils::decimal::{decimal, push_decimal};

verus! {

/// The name of the file that holds the key share of server `server_id`.
pub open spec fn spec_local_share_file_name(server_id: u16) -> Seq<char> {
    "local-share"@ + decimal(server_id as nat) + ".json"@
}

/// Builds the name of the file that holds the key share of server
/// `server_id`.
pub fn local_share_file_name(server_id: u16) -> (name: String)
    ensures
        name@ == spec_local_share_file_name(server_id),
{
    let mut name = String::from_str("local-share");
    push_decimal(&mut name, server_id as u64);
    name.append(".json");
    name
}

} // verus!
