//! Datagram layer of a conclave room: turns the state of a room into the
//! octets that are sent to its peers, and applies the commands that arrive
//! from them to the connection they came in on.

pub mod command;
pub mod error;
pub mod octets;
pub mod room;
pub mod room_info;

use crate::command::decode;
use crate::command::parse;
use crate::command::Command;
use crate::command::PING_COMMAND_TYPE_ID;
use crate::command::PING_DATAGRAM_LENGTH;
use crate::error::Error;
use crate::octets::stream_over;
use crate::octets::unread;
use crate::room::apply_ping;
use crate::room::holds_connection;
use crate::room::leader_index_of;
use crate::room::room_leader_index;
use crate::room::room_peers;
use crate::room::room_ping_counts;
use crate::room::room_term;
use crate::room::term_of;
use crate::room::ConnectionIndex;
use crate::room::Peer;
use crate::room_info::room_info_octets;
use crate::room_info::RoomInfo;
use conclave_room::Room;
use flood_rs::prelude::InOctetStream;
use std::time::Instant;
use vstd::prelude::*;

verus! {

/// A room together with the index of one of its connections.
pub struct NetworkConnection {
    pub id: ConnectionIndex,
    pub room: Room,
}

/// Something that can tell of itself in a datagram.
pub trait SendDatagram {
    fn send(&self) -> Vec<u8>;
}

/// Something that takes the datagrams that its connections receive.
pub trait ReceiveDatagram {
    /// Whether a datagram received on `connection_id` can be taken.
    spec fn accepts(&self, connection_id: ConnectionIndex, datagram: Seq<u8>) -> bool;

    fn receive(
        &mut self,
        connection_id: ConnectionIndex,
        now: Instant,
        buffer: &mut InOctetStream,
    ) -> Result<(), String>
        requires
            old(self).accepts(connection_id, unread(*old(buffer))),
    ;
}

/// What a datagram received on `connection_id` asks for: the command to
/// apply, or why nothing is applied. A connection that the room does not
/// hold is reported whatever the datagram says.
pub open spec fn verdict(known: bool, connection_id: ConnectionIndex, datagram: Seq<u8>) -> Result<
    Command,
    Error,
> {
    if known {
        parse(datagram)
    } else {
        Err(Error::UnknownConnection(connection_id))
    }
}

/// Whether `room` can take `datagram` on `connection_id`. A room counts the
/// pings of each connection in 32 bits: where the datagram holds a command
/// for a connection that the room holds, that count must have room for one
/// more. Every other datagram can be taken.
pub open spec fn room_accepts(
    room: Room,
    connection_id: ConnectionIndex,
    datagram: Seq<u8>,
) -> bool {
    verdict(room_peers(room).contains_key(connection_id), connection_id, datagram) is Ok
        ==> room_ping_counts(room)[connection_id] < u32::MAX
}

/// The peers of a room after `command`, received at the time `now`, was
/// applied to the one under `connection_id`: a ping overwrites what the room
/// had recorded of it.
pub open spec fn applied(
    peers: Map<ConnectionIndex, Peer>,
    connection_id: ConnectionIndex,
    command: Command,
    now: Instant,
) -> Map<ConnectionIndex, Peer> {
    match command {
        Command::Ping { term, has_connection_to_leader, knowledge } => peers.insert(
            connection_id,
            Peer {
                knowledge,
                has_connection_to_leader,
                last_reported_term: term,
                last_ping_at: now,
            },
        ),
    }
}

/// How a room stands after a datagram was received at the time `now`: after
/// a command, its peers are those of before with the command applied, the
/// connection's count of pings has grown by one, and term and leader are as
/// before; after a failure, the room is as it was.
pub open spec fn received(
    before: Room,
    after: Room,
    connection_id: ConnectionIndex,
    now: Instant,
    verdict: Result<Command, Error>,
) -> bool {
    match verdict {
        Ok(command) => {
            &&& room_peers(after) == applied(room_peers(before), connection_id, command, now)
            &&& room_ping_counts(after) == room_ping_counts(before).insert(
                connection_id,
                (room_ping_counts(before)[connection_id] + 1) as u32,
            )
            &&& room_term(after) == room_term(before)
            &&& room_leader_index(after) == room_leader_index(before)
        },
        Err(_) => after == before,
    }
}

/// The datagram that tells the peers of `room`: its term and its leader.
pub fn encode(room: &Room) -> (octets: Vec<u8>)
    ensures
        octets@ == room_info_octets(room_term(*room), room_leader_index(*room)),
{
    let info = RoomInfo { term: term_of(room), leader_index: leader_index_of(room) };
    info.to_octets()
}

/// Takes one command from `cursor` and applies it to the connection of
/// `room` that it was received on.
///
/// The connection is looked up first, then the datagram is read, and only a
/// whole command changes the room: after any failure the room is as it was.
///
/// The room keeps its count of pings to itself, so no caller can test what
/// `room_accepts` asks; it holds as long as a connection has not taken
/// `u32::MAX` pings since the room last calculated its rate.
pub fn dispatch(
    room: &mut Room,
    connection_id: ConnectionIndex,
    now: Instant,
    cursor: &mut InOctetStream,
) -> (outcome: Result<(), Error>)
    requires
        room_accepts(*old(room), connection_id, unread(*old(cursor))),
    ensures
        ({
            let known = room_peers(*old(room)).contains_key(connection_id);
            let verdict = verdict(known, connection_id, unread(*old(cursor)));
            &&& outcome is Ok <==> verdict is Ok
            &&& verdict matches Err(error) ==> outcome == Err::<(), Error>(error)
            &&& received(*old(room), *final(room), connection_id, now, verdict)
            &&& !known ==> *final(cursor) == *old(cursor)
            &&& outcome is Ok ==> unread(*final(cursor)) == unread(*old(cursor)).skip(
                PING_DATAGRAM_LENGTH as int,
            )
        }),
{
    if !holds_connection(room, connection_id) {
        return Err(Error::UnknownConnection(connection_id));
    }
    match decode(cursor) {
        Err(error) => Err(error),
        Ok(Command::Ping { term, has_connection_to_leader, knowledge }) => {
            apply_ping(room, connection_id, term, has_connection_to_leader, knowledge, now);
            Ok(())
        },
    }
}

/// Applies the command that `datagram` holds to the connection of `room`
/// that it was received on, as `dispatch` does.
pub fn receive_datagram(
    room: &mut Room,
    connection_id: ConnectionIndex,
    now: Instant,
    datagram: &[u8],
) -> (outcome: Result<(), Error>)
    requires
        room_accepts(*old(room), connection_id, datagram@),
    ensures
        ({
            let known = room_peers(*old(room)).contains_key(connection_id);
            let verdict = verdict(known, connection_id, datagram@);
            &&& outcome is Ok <==> verdict is Ok
            &&& verdict matches Err(error) ==> outcome == Err::<(), Error>(error)
            &&& received(*old(room), *final(room), connection_id, now, verdict)
        }),
{
    let mut cursor = stream_over(datagram);
    dispatch(room, connection_id, now, &mut cursor)
}

impl SendDatagram for Room {
    /// The datagram that tells the peers of this room.
    fn send(&self) -> (octets: Vec<u8>)
        ensures
            octets@ == room_info_octets(room_term(*self), room_leader_index(*self)),
    {
        encode(self)
    }
}

impl ReceiveDatagram for Room {
    open spec fn accepts(&self, connection_id: ConnectionIndex, datagram: Seq<u8>) -> bool {
        room_accepts(*self, connection_id, datagram)
    }

    /// Applies the command in `buffer` as `dispatch` does, and puts a
    /// failure into words.
    fn receive(
        &mut self,
        connection_id: ConnectionIndex,
        now: Instant,
        buffer: &mut InOctetStream,
    ) -> (outcome: Result<(), String>)
        ensures
            ({
                let known = room_peers(*old(self)).contains_key(connection_id);
                let verdict = verdict(known, connection_id, unread(*old(buffer)));
                &&& outcome is Ok <==> verdict is Ok
                &&& verdict matches Err(error) ==> outcome matches Err(text) && text@
                    == error.text()
                &&& received(*old(self), *final(self), connection_id, now, verdict)
            }),
    {
        match dispatch(self, connection_id, now, buffer) {
            Ok(()) => Ok(()),
            Err(error) => Err(error.message()),
        }
    }
}

/// A datagram received on a connection that the room does not hold is
/// answered with `UnknownConnection`, whatever it says, and the room stays
/// as it was.
pub proof fn lemma_unknown_connection_is_reported(
    before: Room,
    after: Room,
    connection_id: ConnectionIndex,
    now: Instant,
    datagram: Seq<u8>,
)
    requires
        !room_peers(before).contains_key(connection_id),
        received(before, after, connection_id, now, verdict(false, connection_id, datagram)),
    ensures
        verdict(false, connection_id, datagram) == Err::<Command, Error>(
            Error::UnknownConnection(connection_id),
        ),
        after == before,
{
}

/// A datagram of fewer octets than a ping has, which is empty or opens as a
/// ping does, is answered with `MalformedPayload`, and the room stays as it
/// was.
pub proof fn lemma_short_datagram_is_malformed(
    before: Room,
    after: Room,
    connection_id: ConnectionIndex,
    now: Instant,
    datagram: Seq<u8>,
)
    requires
        room_peers(before).contains_key(connection_id),
        datagram.len() < PING_DATAGRAM_LENGTH,
        datagram.len() == 0 || datagram[0] == PING_COMMAND_TYPE_ID,
        received(before, after, connection_id, now, verdict(true, connection_id, datagram)),
    ensures
        verdict(true, connection_id, datagram) == Err::<Command, Error>(Error::MalformedPayload),
        after == before,
{
}

/// A datagram whose first octet opens no command is answered with
/// `UnknownCommandType` and that octet, and the room stays as it was.
pub proof fn lemma_unknown_tag_is_reported(
    before: Room,
    after: Room,
    connection_id: ConnectionIndex,
    now: Instant,
    datagram: Seq<u8>,
)
    requires
        room_peers(before).contains_key(connection_id),
        datagram.len() > 0,
        datagram[0] != PING_COMMAND_TYPE_ID,
        received(before, after, connection_id, now, verdict(true, connection_id, datagram)),
    ensures
        verdict(true, connection_id, datagram) == Err::<Command, Error>(
            Error::UnknownCommandType(datagram[0]),
        ),
        after == before,
{
}

/// A command changes what the room has recorded of the connection it was
/// received on, and of no other: the room holds the same connections as
/// before, and every other one is as it was.
pub proof fn lemma_command_touches_one_connection(
    peers: Map<ConnectionIndex, Peer>,
    connection_id: ConnectionIndex,
    command: Command,
    now: Instant,
    other: ConnectionIndex,
)
    requires
        peers.contains_key(connection_id),
        other != connection_id,
    ensures
        applied(peers, connection_id, command, now).dom() == peers.dom(),
        peers.contains_key(other) ==> applied(peers, connection_id, command, now)[other]
            == peers[other],
{
    assert(applied(peers, connection_id, command, now).dom() =~= peers.dom());
}

/// The last ping wins: of two pings received on one connection the first
/// leaves no trace. So a ping received twice leaves of knowledge, flag and
/// term what it leaves received once.
pub proof fn lemma_last_ping_wins(
    peers: Map<ConnectionIndex, Peer>,
    connection_id: ConnectionIndex,
    first: Command,
    first_at: Instant,
    second: Command,
    second_at: Instant,
)
    ensures
        applied(applied(peers, connection_id, first, first_at), connection_id, second, second_at)
            == applied(peers, connection_id, second, second_at),
{
    assert(applied(
        applied(peers, connection_id, first, first_at),
        connection_id,
        second,
        second_at,
    ) =~= applied(peers, connection_id, second, second_at));
}

} // verus!
