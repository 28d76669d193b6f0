//! One room: the relay of one protocol round between this server and a
//! fixed list of peers.

use vstd::prelude::*;
use vstd::string::StringExecFns;
use crate::communication::envelope::{
    envelope_addressing, identity_from_wire, read_addressing, wire_identity,
};
use crate::mpc::utils::decimal::{decimal, push_decimal};

verus! {

/// What becomes of a message that arrived for a room.
#[derive(Debug, PartialEq, Eq)]
pub enum Delivery {
    /// The message goes into the inbound stream of the protocol.
    Forward(String),
    /// The message is addressed to another server and is dropped.
    Filtered { receiver: u16 },
    /// The message is not JSON and is dropped.
    Malformed,
}

/// Where a relay stands: it has not sent yet, it is sending, or its
/// outbound stream has ended.
#[derive(Clone, Copy, Debug, PartialEq, Eq, Structural)]
pub enum RelayState {
    Idle,
    Relaying,
    Terminated,
}

/// What the outbound stream of a room handed to the relay.
#[derive(Debug, PartialEq, Eq)]
pub enum RelayEvent {
    /// The next message of the protocol.
    Message(String),
    /// The stream yielded an error.
    StreamError,
    /// The stream is closed.
    StreamClosed,
}

/// One HTTP POST that the relay asks for.
#[derive(Debug, PartialEq, Eq)]
pub struct Post {
    pub endpoint: String,
    pub body: String,
}

/// What the relay asks its driver to do next.
#[derive(Debug, PartialEq, Eq)]
pub enum RelayAction {
    /// Send every post, each on its own, whatever becomes of the others,
    /// then hand over the next event.
    Broadcast(Vec<Post>),
    /// The relay has ended.
    Stop,
}

/// The address under which the peer at `url` takes messages for the room
/// `room_id`.
pub open spec fn spec_endpoint(url: Seq<char>, room_id: u16) -> Seq<char> {
    "https://"@ + url + "/receive_broadcast/"@ + decimal(room_id as nat)
}

/// Builds the address under which the peer at `url` takes messages for the
/// room `room_id`.
pub fn endpoint_for(url: &str, room_id: u16) -> (endpoint: String)
    ensures
        endpoint@ == spec_endpoint(url@, room_id),
{
    let mut endpoint = String::from_str("https://");
    endpoint.append(url);
    endpoint.append("/receive_broadcast/");
    push_decimal(&mut endpoint, room_id as u64);
    endpoint
}

/// The sending side of a room: it turns each outbound message into one
/// post per peer until the outbound stream ends.
pub struct Relay {
    endpoints: Vec<String>,
    state: RelayState,
    round: u64,
}

impl Relay {
    /// Where the relay stands.
    pub closed spec fn spec_state(&self) -> RelayState {
        self.state
    }

    /// The addresses the relay posts to, one per peer, in the order of the
    /// peers.
    pub closed spec fn spec_endpoints(&self) -> Seq<Seq<char>> {
        self.endpoints.deep_view()
    }

    /// How many messages the relay has broadcast.
    pub closed spec fn spec_round(&self) -> u64 {
        self.round
    }

    /// Where the relay stands.
    pub fn state(&self) -> (state: RelayState)
        ensures
            state == self.spec_state(),
    {
        self.state
    }

    /// How many messages the relay has broadcast; the count stops at the
    /// largest number it can hold.
    pub fn round(&self) -> (round: u64)
        ensures
            round == self.spec_round(),
    {
        self.round
    }

    /// Whether `action` asks for exactly one post of `body` to every
    /// endpoint, in order.
    pub open spec fn broadcasts(
        action: RelayAction,
        endpoints: Seq<Seq<char>>,
        body: Seq<char>,
    ) -> bool {
        &&& action is Broadcast
        &&& action->Broadcast_0@.len() == endpoints.len()
        &&& forall|i: int|
            0 <= i < endpoints.len() ==> {
                &&& (#[trigger] action->Broadcast_0@[i]).endpoint@ == endpoints[i]
                &&& action->Broadcast_0@[i].body@ == body
            }
    }

    /// Takes the next event of the outbound stream. A message is broadcast
    /// to every peer as long as the relay has not ended; an error or the
    /// end of the stream ends the relay for good.
    pub fn on_event(&mut self, event: RelayEvent) -> (action: RelayAction)
        ensures
            final(self).spec_endpoints() == old(self).spec_endpoints(),
            match event {
                RelayEvent::Message(body) => if old(self).spec_state() == RelayState::Terminated {
                    &&& action is Stop
                    &&& final(self).spec_state() == RelayState::Terminated
                    &&& final(self).spec_round() == old(self).spec_round()
                } else {
                    &&& Self::broadcasts(action, old(self).spec_endpoints(), body@)
                    &&& final(self).spec_state() == RelayState::Relaying
                    &&& final(self).spec_round() == if old(self).spec_round() < u64::MAX {
                        (old(self).spec_round() + 1) as u64
                    } else {
                        old(self).spec_round()
                    }
                },
                _ => {
                    &&& action is Stop
                    &&& final(self).spec_state() == RelayState::Terminated
                    &&& final(self).spec_round() == old(self).spec_round()
                },
            },
    {
        match event {
            RelayEvent::Message(body) => {
                if self.state == RelayState::Terminated {
                    return RelayAction::Stop;
                }
                self.state = RelayState::Relaying;
                if self.round < u64::MAX {
                    self.round = self.round + 1;
                }
                let mut posts: Vec<Post> = Vec::new();
                let mut i: usize = 0;
                while i < self.endpoints.len()
                    invariant
                        i <= self.endpoints@.len(),
                        posts@.len() == i,
                        forall|k: int|
                            0 <= k < i ==> {
                                &&& (#[trigger] posts@[k]).endpoint@ == self.endpoints@[k]@
                                &&& posts@[k].body@ == body@
                            },
                    decreases self.endpoints@.len() - i,
                {
                    posts.push(Post { endpoint: self.endpoints[i].clone(), body: body.clone() });
                    i += 1;
                }
                RelayAction::Broadcast(posts)
            },
            RelayEvent::StreamError => {
                self.state = RelayState::Terminated;
                RelayAction::Stop
            },
            RelayEvent::StreamClosed => {
                self.state = RelayState::Terminated;
                RelayAction::Stop
            },
        }
    }
}

/// One room. `S` is whatever the transport keeps for the room, such as the
/// sink into the inbound stream; the room only carries it.
pub struct Room<S> {
    server_id: u16,
    room_id: u16,
    handle: S,
}

impl<S> Room<S> {
    /// The identity of the local server.
    pub closed spec fn spec_server_id(&self) -> u16 {
        self.server_id
    }

    /// The session identifier of the room.
    pub closed spec fn spec_room_id(&self) -> u16 {
        self.room_id
    }

    /// What the transport keeps for the room.
    pub closed spec fn spec_handle(&self) -> S {
        self.handle
    }

    /// The room of server `server_id` for the session `room_id`.
    pub fn new(server_id: u16, room_id: u16, handle: S) -> (room: Self)
        ensures
            room.spec_server_id() == server_id,
            room.spec_room_id() == room_id,
            room.spec_handle() == handle,
    {
        Room { server_id, room_id, handle }
    }

    /// The identity of the local server.
    pub fn server_id(&self) -> (id: u16)
        ensures
            id == self.spec_server_id(),
    {
        self.server_id
    }

    /// The session identifier of the room.
    pub fn room_id(&self) -> (id: u16)
        ensures
            id == self.spec_room_id(),
    {
        self.room_id
    }

    /// What the transport keeps for the room.
    pub fn handle(&self) -> (handle: &S)
        ensures
            *handle == self.spec_handle(),
    {
        &self.handle
    }

    /// Starts the sending side of the room for the peers at `server_urls`.
    pub fn init_room(&self, server_urls: &Vec<String>) -> (relay: Relay)
        ensures
            relay.spec_state() == RelayState::Idle,
            relay.spec_round() == 0,
            relay.spec_endpoints().len() == server_urls@.len(),
            forall|i: int|
                0 <= i < server_urls@.len() ==> #[trigger] relay.spec_endpoints()[i]
                    == spec_endpoint(server_urls@[i]@, self.spec_room_id()),
    {
        let mut endpoints: Vec<String> = Vec::new();
        let mut i: usize = 0;
        while i < server_urls.len()
            invariant
                i <= server_urls@.len(),
                endpoints@.len() == i,
                forall|k: int|
                    0 <= k < i ==> (#[trigger] endpoints@[k])@ == spec_endpoint(
                        server_urls@[k]@,
                        self.room_id,
                    ),
            decreases server_urls@.len() - i,
        {
            endpoints.push(endpoint_for(server_urls[i].as_str(), self.room_id));
            i += 1;
        }
        Relay { endpoints, state: RelayState::Idle, round: 0 }
    }

    /// What becomes of `message` for a given reading of its addressing: a
    /// message for nobody in particular or for this server is forwarded, a
    /// message for another server is filtered out, and a message that could
    /// not be read is dropped as malformed.
    pub open spec fn routed(
        server_id: u16,
        message: String,
        addressing: Option<(Option<u64>, Option<u64>)>,
    ) -> Delivery {
        match addressing {
            None => Delivery::Malformed,
            Some((_, None)) => Delivery::Forward(message),
            Some((_, Some(raw))) => if wire_identity(raw) == server_id {
                Delivery::Forward(message)
            } else {
                Delivery::Filtered { receiver: wire_identity(raw) }
            },
        }
    }

    /// Decides on `message` once its addressing has been read.
    pub fn route(
        &self,
        message: String,
        addressing: Option<(Option<u64>, Option<u64>)>,
    ) -> (delivery: Delivery)
        ensures
            delivery == Self::routed(self.spec_server_id(), message, addressing),
    {
        match addressing {
            None => Delivery::Malformed,
            Some((_, None)) => Delivery::Forward(message),
            Some((_, Some(raw))) => {
                let receiver_id = identity_from_wire(raw);
                if receiver_id != self.server_id {
                    Delivery::Filtered { receiver: receiver_id }
                } else {
                    Delivery::Forward(message)
                }
            },
        }
    }

    /// Takes a message that a peer posted to this room and decides whether
    /// it goes into the inbound stream.
    pub fn receive(&self, message: String) -> (delivery: Delivery)
        ensures
            delivery == Self::routed(
                self.spec_server_id(),
                message,
                envelope_addressing(message@),
            ),
    {
        let addressing = read_addressing(message.as_str());
        self.route(message, addressing)
    }
}

/// Broadcast filtering: a message that names another server as its
/// receiver is never forwarded, and a message that names no receiver always
/// is.
pub proof fn law_broadcast_filtering<S>(
    server_id: u16,
    message: String,
    sender: Option<u64>,
    receiver: u64,
)
    ensures
        wire_identity(receiver) != server_id ==> !(Room::<S>::routed(
            server_id,
            message,
            Some((sender, Some(receiver))),
        ) is Forward),
        Room::<S>::routed(server_id, message, Some((sender, None))) == Delivery::Forward(message),
{
}

} // verus!
