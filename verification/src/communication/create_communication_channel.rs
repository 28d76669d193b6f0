//! The registry of rooms: at most one live room per session identifier.

use std::collections::HashMap;
use vstd::prelude::*;
use crate::communication::room::Room;

verus! {

broadcast use vstd::std_specs::hash::group_hash_axioms;

/// The rooms of one server, by session identifier.
pub struct Db<S> {
    server_id: u16,
    rooms: HashMap<u16, Room<S>>,
}

impl<S> Db<S> {
    /// The identity of the server that owns the registry.
    pub closed spec fn spec_server_id(&self) -> u16 {
        self.server_id
    }

    /// The live rooms, by session identifier.
    pub closed spec fn rooms(&self) -> Map<u16, Room<S>> {
        self.rooms@
    }

    /// The registry of server `server_id`, with no room yet.
    pub fn empty(server_id: u16) -> (db: Self)
        ensures
            db.spec_server_id() == server_id,
            db.rooms() == Map::<u16, Room<S>>::empty(),
    {
        Db { server_id, rooms: HashMap::new() }
    }

    /// The identity of the server that owns the registry.
    pub fn server_id(&self) -> (id: u16)
        ensures
            id == self.spec_server_id(),
    {
        self.server_id
    }

    /// Opens a fresh room under `room_id`. A room that was registered
    /// under the same identifier is removed first, so that what the old
    /// round left behind never reaches the new one.
    pub fn create_room(&mut self, server_id: u16, room_id: u16, handle: S)
        ensures
            final(self).spec_server_id() == old(self).spec_server_id(),
            final(self).rooms().dom() == old(self).rooms().dom().insert(room_id),
            final(self).rooms()[room_id].spec_server_id() == server_id,
            final(self).rooms()[room_id].spec_room_id() == room_id,
            final(self).rooms()[room_id].spec_handle() == handle,
            forall|other: u16|
                other != room_id && old(self).rooms().contains_key(other)
                    ==> final(self).rooms()[other] == old(self).rooms()[other],
    {
        self.delete_room(room_id);
        let room = Room::new(server_id, room_id, handle);
        self.rooms.insert(room_id, room);
        assert(final(self).rooms().dom() =~= old(self).rooms().dom().insert(room_id));
    }

    /// The room registered under `room_id`, if there is one.
    pub fn get_room(&self, room_id: u16) -> (room: Option<&Room<S>>)
        ensures
            match room {
                Some(r) => self.rooms().contains_key(room_id) && *r == self.rooms()[room_id],
                None => !self.rooms().contains_key(room_id),
            },
    {
        self.rooms.get(&room_id)
    }

    /// Closes the room registered under `room_id`, if there is one.
    pub fn delete_room(&mut self, room_id: u16)
        ensures
            final(self).spec_server_id() == old(self).spec_server_id(),
            final(self).rooms() == old(self).rooms().remove(room_id),
    {
        self.rooms.remove(&room_id);
    }
}

/// Session isolation: once a fresh room has been opened under a session
/// identifier, what the transport kept for any earlier room is found in the
/// registry only where it was already registered under another identifier.
/// Nothing that looks a room up by the identifier of the replaced round
/// reaches the old room.
pub proof fn law_replaced_room_unreachable<S>(
    before: Db<S>,
    after: Db<S>,
    room_id: u16,
    fresh: S,
    stale: S,
    found_under: u16,
)
    requires
        after.rooms().dom() == before.rooms().dom().insert(room_id),
        after.rooms()[room_id].spec_handle() == fresh,
        forall|other: u16|
            other != room_id && before.rooms().contains_key(other) ==> after.rooms()[other]
                == before.rooms()[other],
        stale != fresh,
        after.rooms().contains_key(found_under),
        after.rooms()[found_under].spec_handle() == stale,
    ensures
        found_under != room_id,
        before.rooms().contains_key(found_under),
        before.rooms()[found_under].spec_handle() == stale,
{
}

} // verus!
