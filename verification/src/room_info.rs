//! The summary of a room that goes out to its peers.
//!
//! Peers agree on one such datagram only: that of a new room, in term zero
//! and without a leader, which is `00 00 00 FF`. How the two octets behind
//! the term are to be read is not settled by it. This library reads them as
//! follows, and that reading, on which the datagram of a room with a leader
//! rests, is its own choice:
//!
//! | offset | size | field                                             |
//! |--------|------|---------------------------------------------------|
//! | 0      | 2    | term, least significant octet first               |
//! | 2      | 1    | number of client infos that follow: always zero   |
//! | 3      | 1    | index of the leader, `0xFF` while there is none   |

use crate::octets::empty_stream;
use crate::octets::octets_of;
use crate::octets::write_u8;
use crate::octets::written;
use crate::room::ConnectionIndex;
use crate::room::Term;
use vstd::prelude::*;

verus! {

/// What a room tells its peers of itself. No client infos go with it.
#[derive(Debug, Clone, Copy, PartialEq, Eq, Structural)]
pub struct RoomInfo {
    pub term: Term,
    pub leader_index: ConnectionIndex,
}

/// The datagram that tells of a room in `term` led by `leader_index`, in the
/// layout that this library has chosen.
pub open spec fn room_info_octets(term: Term, leader_index: ConnectionIndex) -> Seq<u8> {
    seq![(term % 0x100) as u8, (term / 0x100) as u8, 0u8, leader_index]
}

impl RoomInfo {
    /// The datagram that tells of this room.
    pub fn to_octets(&self) -> (octets: Vec<u8>)
        ensures
            octets@ == room_info_octets(self.term, self.leader_index),
    {
        let mut stream = empty_stream();
        write_u8(&mut stream, (self.term % 0x100) as u8);
        write_u8(&mut stream, (self.term / 0x100) as u8);
        write_u8(&mut stream, 0);
        write_u8(&mut stream, self.leader_index);
        octets_of(&stream)
    }
}

} // verus!
