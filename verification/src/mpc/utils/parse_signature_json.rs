//! The body of a signing request: who takes part, what is to be signed,
//! and when the request was made.

use vstd::prelude::*;

verus! {

/// One peer of a ceremony: its identity and the address it listens on.
#[derive(Debug)]
pub struct Participant {
    server_id: u16,
    url: String,
}

impl Participant {
    /// The identity of the peer.
    pub closed spec fn spec_server_id(&self) -> u16 {
        self.server_id
    }

    /// The address the peer listens on.
    pub closed spec fn spec_url(&self) -> Seq<char> {
        self.url@
    }

    /// A peer with its identity and the address it listens on.
    pub fn new(server_id: u16, url: String) -> (participant: Participant)
        ensures
            participant.spec_server_id() == server_id,
            participant.spec_url() == url@,
    {
        Participant { server_id, url }
    }
}

/// A signing request as it arrives at the endpoint.
#[derive(Debug)]
pub struct EndpointSignatureData {
    participants: Vec<Participant>,
    data_to_sign: String,
    timestamp: String,
}

impl EndpointSignatureData {
    /// The identities of the peers, in the order of the request.
    pub closed spec fn spec_ids(&self) -> Seq<u16> {
        Seq::new(self.participants@.len(), |i: int| self.participants@[i].server_id)
    }

    /// The addresses of the peers, in the order of the request.
    pub closed spec fn spec_urls(&self) -> Seq<Seq<char>> {
        Seq::new(self.participants@.len(), |i: int| self.participants@[i].url@)
    }

    /// The data to sign, in hexadecimal notation.
    pub closed spec fn spec_data_to_sign(&self) -> Seq<char> {
        self.data_to_sign@
    }

    /// The time of the request, as the text that was sent.
    pub closed spec fn spec_timestamp(&self) -> Seq<char> {
        self.timestamp@
    }

    /// A request that names `participants` as peers, in this order.
    pub fn new(
        participants: Vec<Participant>,
        data_to_sign: String,
        timestamp: String,
    ) -> (data: EndpointSignatureData)
        ensures
            data.spec_ids().len() == participants@.len(),
            data.spec_urls().len() == participants@.len(),
            forall|i: int|
                0 <= i < participants@.len() ==> data.spec_ids()[i]
                    == participants@[i].spec_server_id(),
            forall|i: int|
                0 <= i < participants@.len() ==> data.spec_urls()[i] == participants@[i].spec_url(),
            data.spec_data_to_sign() == data_to_sign@,
            data.spec_timestamp() == timestamp@,
    {
        EndpointSignatureData { participants, data_to_sign, timestamp }
    }

    /// The identity of the peer at position `n`.
    pub fn participant_id(&self, n: usize) -> (id: u16)
        requires
            n < self.spec_ids().len(),
        ensures
            id == self.spec_ids()[n as int],
    {
        self.participants[n].server_id
    }

    /// The address of the peer at position `n`.
    pub fn participant_url(&self, n: usize) -> (url: &str)
        requires
            n < self.spec_urls().len(),
        ensures
            url@ == self.spec_urls()[n as int],
    {
        self.participants[n].url.as_str()
    }

    /// The data to sign, in hexadecimal notation.
    pub fn data_to_sign(&self) -> (data: &str)
        ensures
            data@ == self.spec_data_to_sign(),
    {
        self.data_to_sign.as_str()
    }

    /// The time of the request, as the text that was sent.
    pub fn timestamp(&self) -> (timestamp: &str)
        ensures
            timestamp@ == self.spec_timestamp(),
    {
        self.timestamp.as_str()
    }

    /// The number of peers that the request names.
    pub fn participant_count(&self) -> (count: usize)
        ensures
            count == self.spec_ids().len(),
            count == self.spec_urls().len(),
    {
        self.participants.len()
    }

    /// The identities of the peers, in the order of the request.
    pub fn get_ids(&self) -> (ids: Vec<u16>)
        ensures
            ids@ == self.spec_ids(),
    {
        let mut res: Vec<u16> = Vec::new();
        let mut i: usize = 0;
        while i < self.participants.len()
            invariant
                i <= self.participants@.len(),
                res@ == self.spec_ids().take(i as int),
            decreases self.participants@.len() - i,
        {
            res.push(self.participants[i].server_id);
            proof {
                assert(self.spec_ids().take(i + 1) == self.spec_ids().take(i as int).push(
                    self.spec_ids()[i as int],
                ));
            }
            i += 1;
        }
        proof {
            assert(self.spec_ids().take(self.participants@.len() as int) == self.spec_ids());
        }
        res
    }

    /// The addresses of the peers, in the order of the request.
    pub fn get_urls(&self) -> (urls: Vec<String>)
        ensures
            urls.deep_view() == self.spec_urls(),
    {
        let mut res: Vec<String> = Vec::new();
        let mut i: usize = 0;
        while i < self.participants.len()
            invariant
                i <= self.participants@.len(),
                res@.len() == i,
                forall|k: int| 0 <= k < i ==> res@[k]@ == self.participants@[k].url@,
            decreases self.participants@.len() - i,
        {
            res.push(self.participants[i].url.clone());
            i += 1;
        }
        proof {
            assert(res.deep_view() =~= self.spec_urls());
        }
        res
    }
}

} // verus!
