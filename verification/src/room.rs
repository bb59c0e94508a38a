//! The room of the `conclave_room` crate, as far as the datagram layer reads
//! and changes it.

use conclave_room::Room;
use std::time::Instant;
use vstd::prelude::*;

verus! {

/// Index of a connection within its room.
pub type ConnectionIndex = u8;

/// Election epoch of a room.
pub type Term = u16;

/// Fingerprint of what a peer knows of the room's history.
pub type Knowledge = u64;

/// The index that stands for "no connection": a room without a leader has it
/// as its leader index.
pub const NO_CONNECTION: ConnectionIndex = 0xff;

/// `conclave_room::Room`. What the datagram layer needs of it has the names
/// below; the rest of it stays out of sight.
#[verifier::external_type_specification]
#[verifier::external_body]
pub struct ExRoom(Room);

/// `std::time::Instant`: a point in time that is handed on and never looked
/// into.
#[verifier::external_type_specification]
#[verifier::external_body]
pub struct ExInstant(Instant);

/// What a room has recorded of one peer from the pings it sent.
pub struct Peer {
    pub knowledge: Knowledge,
    pub has_connection_to_leader: bool,
    pub last_reported_term: Term,
    pub last_ping_at: Instant,
}

/// The peers of a room by connection index: for each key of the room's
/// `connections`, the `knowledge`, `has_connection_host` and
/// `last_reported_term` of the connection stored under it, and the
/// `last_ping_at` of its `quality`.
pub uninterp spec fn room_peers(room: Room) -> Map<ConnectionIndex, Peer>;

/// For each key of the room's `connections`, the pings that the `quality` of
/// the connection stored under it has counted since its rate was last
/// calculated: the private counter of its `pings_per_second`.
pub uninterp spec fn room_ping_counts(room: Room) -> Map<ConnectionIndex, u32>;

/// The `term` field of a room.
pub uninterp spec fn room_term(room: Room) -> Term;

/// The `leader_index` field of a room.
pub uninterp spec fn room_leader_index(room: Room) -> ConnectionIndex;

/// Reads the field `term` of `conclave_room::Room`.
#[verifier::external_body]
pub(crate) fn term_of(room: &Room) -> (term: Term)
    ensures
        term == room_term(*room),
{
    room.term
}

/// Reads the field `leader_index` of `conclave_room::Room`.
#[verifier::external_body]
pub(crate) fn leader_index_of(room: &Room) -> (leader_index: ConnectionIndex)
    ensures
        leader_index == room_leader_index(*room),
{
    room.leader_index
}

/// Calls `HashMap::contains_key` on the field `connections` of
/// `conclave_room::Room`: whether the room holds a connection under `id`.
#[verifier::external_body]
pub(crate) fn holds_connection(room: &Room, id: ConnectionIndex) -> (found: bool)
    ensures
        found == room_peers(*room).contains_key(id),
{
    room.connections.contains_key(&id)
}

/// Writes the field `last_reported_term` of the `conclave_room::Connection`
/// that `HashMap::get_mut` finds under `id`. Nothing else changes.
#[verifier::external_body]
pub(crate) fn set_last_reported_term(room: &mut Room, id: ConnectionIndex, term: Term)
    requires
        room_peers(*old(room)).contains_key(id),
    ensures
        room_peers(*final(room)) == room_peers(*old(room)).insert(
            id,
            Peer { last_reported_term: term, ..room_peers(*old(room))[id] },
        ),
        room_ping_counts(*final(room)) == room_ping_counts(*old(room)),
        room_term(*final(room)) == room_term(*old(room)),
        room_leader_index(*final(room)) == room_leader_index(*old(room)),
{
    room.connections.get_mut(&id).unwrap().last_reported_term = term;
}

/// Writes the field `has_connection_host` of the `conclave_room::Connection`
/// that `HashMap::get_mut` finds under `id`. Nothing else changes.
#[verifier::external_body]
pub(crate) fn set_has_connection_to_leader(room: &mut Room, id: ConnectionIndex, flag: bool)
    requires
        room_peers(*old(room)).contains_key(id),
    ensures
        room_peers(*final(room)) == room_peers(*old(room)).insert(
            id,
            Peer { has_connection_to_leader: flag, ..room_peers(*old(room))[id] },
        ),
        room_ping_counts(*final(room)) == room_ping_counts(*old(room)),
        room_term(*final(room)) == room_term(*old(room)),
        room_leader_index(*final(room)) == room_leader_index(*old(room)),
{
    room.connections.get_mut(&id).unwrap().has_connection_host = flag;
}

/// Writes the field `knowledge` of the `conclave_room::Connection` that
/// `HashMap::get_mut` finds under `id`. Nothing else changes.
#[verifier::external_body]
pub(crate) fn set_knowledge(room: &mut Room, id: ConnectionIndex, knowledge: Knowledge)
    requires
        room_peers(*old(room)).contains_key(id),
    ensures
        room_peers(*final(room)) == room_peers(*old(room)).insert(
            id,
            Peer { knowledge, ..room_peers(*old(room))[id] },
        ),
        room_ping_counts(*final(room)) == room_ping_counts(*old(room)),
        room_term(*final(room)) == room_term(*old(room)),
        room_leader_index(*final(room)) == room_leader_index(*old(room)),
{
    room.connections.get_mut(&id).unwrap().knowledge = knowledge;
}

/// Calls `ConnectionQuality::on_ping` on the `quality` of the
/// `conclave_room::Connection` that `HashMap::get_mut` finds under `id`. The
/// call notes `now` as the time of the last ping and adds one to the count of
/// pings; that addition overflows on a count that is full, which the
/// `requires` leaves out. Nothing else changes.
#[verifier::external_body]
pub(crate) fn note_ping_time(room: &mut Room, id: ConnectionIndex, now: Instant)
    requires
        room_peers(*old(room)).contains_key(id),
        room_ping_counts(*old(room))[id] < u32::MAX,
    ensures
        room_peers(*final(room)) == room_peers(*old(room)).insert(
            id,
            Peer { last_ping_at: now, ..room_peers(*old(room))[id] },
        ),
        room_ping_counts(*final(room)) == room_ping_counts(*old(room)).insert(
            id,
            (room_ping_counts(*old(room))[id] + 1) as u32,
        ),
        room_term(*final(room)) == room_term(*old(room)),
        room_leader_index(*final(room)) == room_leader_index(*old(room)),
{
    room.connections.get_mut(&id).unwrap().quality.on_ping(now);
}

/// Records a ping on the connection stored under `id`, step by step as
/// `conclave_room::Connection::on_ping` does, which is private to its crate:
/// the connection takes over the reported term and the flag, its quality
/// notes the ping, and the connection takes over the knowledge.
pub(crate) fn apply_ping(
    room: &mut Room,
    id: ConnectionIndex,
    term: Term,
    has_connection_to_leader: bool,
    knowledge: Knowledge,
    now: Instant,
)
    requires
        room_peers(*old(room)).contains_key(id),
        room_ping_counts(*old(room))[id] < u32::MAX,
    ensures
        room_peers(*final(room)) == room_peers(*old(room)).insert(
            id,
            Peer {
                knowledge,
                has_connection_to_leader,
                last_reported_term: term,
                last_ping_at: now,
            },
        ),
        room_ping_counts(*final(room)) == room_ping_counts(*old(room)).insert(
            id,
            (room_ping_counts(*old(room))[id] + 1) as u32,
        ),
        room_term(*final(room)) == room_term(*old(room)),
        room_leader_index(*final(room)) == room_leader_index(*old(room)),
{
    set_last_reported_term(room, id, term);
    set_has_connection_to_leader(room, id, has_connection_to_leader);
    note_ping_time(room, id, now);
    set_knowledge(room, id, knowledge);
    assert(room_peers(*room) =~= room_peers(*old(room)).insert(
        id,
        Peer { knowledge, has_connection_to_leader, last_reported_term: term, last_ping_at: now },
    ));
}

} // verus!
