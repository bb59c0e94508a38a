//! The commands that a peer sends to a room, and how a datagram spells them.
//!
//! A datagram holds one command. Its first octet says which kind of command
//! it is; the octets behind it are that kind's payload, of a fixed length.
//!
//! | offset | size | field of a ping                                   |
//! |--------|------|---------------------------------------------------|
//! | 0      | 1    | `0xFF`, the kind                                  |
//! | 1      | 2    | term, least significant octet first               |
//! | 3      | 8    | knowledge, most significant octet first           |
//! | 11     | 1    | connection to the leader: zero is no, else yes    |

use crate::error::Error;
use crate::octets::big_endian_u64;
use crate::octets::read_u64;
use crate::octets::read_u8;
use crate::octets::unread;
use crate::room::Knowledge;
use crate::room::Term;
use flood_rs::prelude::InOctetStream;
use vstd::prelude::*;

verus! {

/// The octet that opens a ping.
pub const PING_COMMAND_TYPE_ID: u8 = 0xff;

/// The number of octets of a ping, the opening octet included.
pub const PING_DATAGRAM_LENGTH: usize = 12;

/// The kinds of command, each known by the octet that opens its datagram.
#[derive(Debug, Clone, Copy, PartialEq, Eq, Structural)]
pub enum CommandKind {
    Ping,
}

impl CommandKind {
    /// The kind that `tag` opens, if it opens one.
    pub open spec fn of_tag(tag: u8) -> Option<CommandKind> {
        if tag == PING_COMMAND_TYPE_ID {
            Some(CommandKind::Ping)
        } else {
            None
        }
    }

    /// The number of octets that follow the opening octet.
    pub open spec fn payload_length(self) -> nat {
        match self {
            CommandKind::Ping => 11,
        }
    }

    /// The kind that `tag` opens, if it opens one.
    pub fn from_tag(tag: u8) -> (kind: Option<CommandKind>)
        ensures
            kind == CommandKind::of_tag(tag),
    {
        match tag {
            PING_COMMAND_TYPE_ID => Some(CommandKind::Ping),
            _ => None,
        }
    }
}

/// A command that a peer sends to the room.
#[derive(Debug, Clone, Copy, PartialEq, Eq, Structural)]
pub enum Command {
    /// The peer is alive, and reports the term it is in, whether it reaches
    /// the leader and what it knows.
    Ping { term: Term, has_connection_to_leader: bool, knowledge: Knowledge },
}

/// The number that two octets stand for, least significant octet first.
pub open spec fn little_endian_u16(low: u8, high: u8) -> int {
    low + high * 0x100
}

/// The ping that the eleven octets of a payload spell.
pub open spec fn ping_of(payload: Seq<u8>) -> Command
    recommends
        payload.len() == 11,
{
    Command::Ping {
        term: little_endian_u16(payload[0], payload[1]) as Term,
        has_connection_to_leader: payload[10] != 0,
        knowledge: big_endian_u64(payload.subrange(2, 10)) as Knowledge,
    }
}

/// What a datagram says: the command it holds, or why it holds none. The
/// opening octet is judged before the length of the payload, and octets
/// behind the payload are not looked at.
pub open spec fn parse(datagram: Seq<u8>) -> Result<Command, Error> {
    if datagram.len() == 0 {
        Err(Error::MalformedPayload)
    } else {
        match CommandKind::of_tag(datagram[0]) {
            None => Err(Error::UnknownCommandType(datagram[0])),
            Some(kind) => if datagram.len() < 1 + kind.payload_length() {
                Err(Error::MalformedPayload)
            } else {
                match kind {
                    CommandKind::Ping => Ok(
                        ping_of(datagram.subrange(1, PING_DATAGRAM_LENGTH as int)),
                    ),
                }
            },
        }
    }
}

/// Takes the payload of a ping from the stream.
fn decode_ping(cursor: &mut InOctetStream) -> (outcome: Result<Command, Error>)
    ensures
        unread(*old(cursor)).len() >= 11 ==> outcome == Ok::<Command, Error>(
            ping_of(unread(*old(cursor)).take(11)),
        ) && unread(*final(cursor)) == unread(*old(cursor)).skip(11),
        unread(*old(cursor)).len() < 11 ==> outcome == Err::<Command, Error>(
            Error::MalformedPayload,
        ),
{
    let ghost payload = unread(*cursor);
    let low = match read_u8(cursor) {
        Some(octet) => octet,
        None => { return Err(Error::MalformedPayload); },
    };
    let high = match read_u8(cursor) {
        Some(octet) => octet,
        None => { return Err(Error::MalformedPayload); },
    };
    let knowledge = match read_u64(cursor) {
        Some(number) => number,
        None => { return Err(Error::MalformedPayload); },
    };
    let flag = match read_u8(cursor) {
        Some(octet) => octet,
        None => { return Err(Error::MalformedPayload); },
    };
    proof {
        assert(payload.skip(1).skip(1).take(8) == payload.take(11).subrange(2, 10));
        assert(payload.skip(1).skip(1).skip(8).skip(1) == payload.skip(11));
    }
    let term: Term = low as Term + (high as Term) * 0x100;
    Ok(Command::Ping { term, has_connection_to_leader: flag != 0, knowledge })
}

/// Takes one command from the stream: the opening octet, and then as many
/// octets as the kind it names has in its payload.
///
/// The outcome is what `parse` says of the octets that the stream had left.
/// After a command the stream stands behind its last octet; after a failure
/// nothing is said of where it stands.
pub fn decode(cursor: &mut InOctetStream) -> (outcome: Result<Command, Error>)
    ensures
        outcome == parse(unread(*old(cursor))),
        outcome is Ok ==> unread(*final(cursor)) == unread(*old(cursor)).skip(
            PING_DATAGRAM_LENGTH as int,
        ),
{
    let ghost datagram = unread(*cursor);
    let tag = match read_u8(cursor) {
        Some(octet) => octet,
        None => { return Err(Error::MalformedPayload); },
    };
    match CommandKind::from_tag(tag) {
        None => Err(Error::UnknownCommandType(tag)),
        Some(CommandKind::Ping) => {
            proof {
                assert(datagram.len() >= 12 ==> datagram.skip(1).take(11) == datagram.subrange(
                    1,
                    12,
                ));
                assert(datagram.len() >= 12 ==> datagram.skip(1).skip(11) == datagram.skip(12));
            }
            decode_ping(cursor)
        },
    }
}

} // verus!
