//! The octet streams of the `flood_rs` crate: one to read a datagram from,
//! one to collect a datagram in.

use flood_rs::prelude::InOctetStream;
use flood_rs::prelude::OutOctetStream;
use flood_rs::prelude::ReadOctetStream;
use flood_rs::prelude::WriteOctetStream;
use vstd::prelude::*;

verus! {

/// `flood_rs::in_stream::InOctetStream`: octets in memory and a place among
/// them.
#[verifier::external_type_specification]
#[verifier::external_body]
pub struct ExInOctetStream(InOctetStream);

/// `flood_rs::out_stream::OutOctetStream`: octets in memory that grow at the
/// end.
#[verifier::external_type_specification]
#[verifier::external_body]
pub struct ExOutOctetStream(OutOctetStream);

/// The octets of an input stream that no read has taken yet, next one first.
pub uninterp spec fn unread(stream: InOctetStream) -> Seq<u8>;

/// The octets that an output stream has collected, first one first.
pub uninterp spec fn written(stream: OutOctetStream) -> Seq<u8>;

/// The number that eight octets stand for, most significant octet first.
pub open spec fn big_endian_u64(octets: Seq<u8>) -> int
    recommends
        octets.len() == 8,
{
    octets[0] * 0x0100_0000_0000_0000 + octets[1] * 0x0001_0000_0000_0000 + octets[2]
        * 0x0000_0100_0000_0000 + octets[3] * 0x0000_0001_0000_0000 + octets[4] * 0x0100_0000
        + octets[5] * 0x0001_0000 + octets[6] * 0x0100 + octets[7]
}

/// Calls `InOctetStream::new`, which copies `octets` into a stream that
/// stands before the first of them.
#[verifier::external_body]
pub(crate) fn stream_over(octets: &[u8]) -> (stream: InOctetStream)
    ensures
        unread(stream) == octets@,
{
    InOctetStream::new(octets)
}

/// Calls `read_u8` of `InOctetStream`. With an octet left, the call takes the
/// next one and hands it out; with none left it fails, and nothing is said of
/// where the stream then stands.
#[verifier::external_body]
pub(crate) fn read_u8(stream: &mut InOctetStream) -> (octet: Option<u8>)
    ensures
        octet is Some <==> unread(*old(stream)).len() >= 1,
        octet matches Some(value) ==> value == unread(*old(stream))[0] && unread(*final(stream))
            == unread(*old(stream)).skip(1),
{
    stream.read_u8().ok()
}

/// Calls `read_u64` of `InOctetStream`. With eight octets left, the call takes
/// them and hands out the number they stand for, most significant octet
/// first; with fewer left it fails, and nothing is said of where the stream
/// then stands.
#[verifier::external_body]
pub(crate) fn read_u64(stream: &mut InOctetStream) -> (number: Option<u64>)
    ensures
        number is Some <==> unread(*old(stream)).len() >= 8,
        number matches Some(value) ==> value == big_endian_u64(unread(*old(stream)).take(8))
            && unread(*final(stream)) == unread(*old(stream)).skip(8),
{
    stream.read_u64().ok()
}

/// Calls `OutOctetStream::new`: a stream that has collected nothing.
#[verifier::external_body]
pub(crate) fn empty_stream() -> (stream: OutOctetStream)
    ensures
        written(stream) == Seq::<u8>::empty(),
{
    OutOctetStream::new()
}

/// Calls `write_u8` of `OutOctetStream`, which puts `octet` behind what the
/// stream has collected and never fails.
#[verifier::external_body]
pub(crate) fn write_u8(stream: &mut OutOctetStream, octet: u8)
    ensures
        written(*final(stream)) == written(*old(stream)).push(octet),
{
    stream.write_u8(octet).expect("a stream in memory takes every octet");
}

/// Calls `OutOctetStream::octets`: a copy of what the stream has collected.
#[verifier::external_body]
pub(crate) fn octets_of(stream: &OutOctetStream) -> (octets: Vec<u8>)
    ensures
        octets@ == written(*stream),
{
    stream.octets()
}

} // verus!
