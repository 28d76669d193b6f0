//! Static configuration of one signing server.

use vstd::prelude::*;

verus! {

/// Identity of this server together with the threshold parameters of the
/// key that the servers share.
#[derive(Clone, Copy, Debug)]
pub struct MPCconfig {
    server_id: u16,
    threshold: u16,
    number_of_parties: u16,
}

impl MPCconfig {
    /// The identity of the server this configuration belongs to.
    pub closed spec fn spec_server_id(&self) -> u16 {
        self.server_id
    }

    /// The number of peers that must join the local server in a ceremony.
    pub closed spec fn spec_threshold(&self) -> u16 {
        self.threshold
    }

    /// The number of servers that hold a share of the key.
    pub closed spec fn spec_number_of_parties(&self) -> u16 {
        self.number_of_parties
    }

    /// The configuration of server `si` for a key shared among `n` servers, of
    /// which `t` peers must join the local server in a ceremony.
    pub fn new(si: u16, t: u16, n: u16) -> (config: MPCconfig)
        ensures
            config.spec_server_id() == si,
            config.spec_threshold() == t,
            config.spec_number_of_parties() == n,
    {
        MPCconfig { server_id: si, threshold: t, number_of_parties: n }
    }

    /// The identity of the server this configuration belongs to.
    pub fn server_id(&self) -> (id: u16)
        ensures
            id == self.spec_server_id(),
    {
        self.server_id
    }

    /// The number of peers that must join the local server in a ceremony.
    pub fn threshold(&self) -> (t: u16)
        ensures
            t == self.spec_threshold(),
    {
        self.threshold
    }

    /// The number of servers that hold a share of the key.
    pub fn number_of_parties(&self) -> (n: u16)
        ensures
            n == self.spec_number_of_parties(),
    {
        self.number_of_parties
    }
}

} // verus!
