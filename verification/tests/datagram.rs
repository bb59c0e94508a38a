use std::time::Duration;
use std::time::Instant;

use conclave_room::QualityAssessment;
use conclave_room::Room;
use conclave_room_net::command::decode;
use conclave_room_net::command::Command;
use conclave_room_net::command::CommandKind;
use conclave_room_net::command::PING_COMMAND_TYPE_ID;
use conclave_room_net::command::PING_DATAGRAM_LENGTH;
use conclave_room_net::dispatch;
use conclave_room_net::encode;
use conclave_room_net::error::push_decimal;
use conclave_room_net::error::Error;
use conclave_room_net::receive_datagram;
use conclave_room_net::room::NO_CONNECTION;
use conclave_room_net::room_info::RoomInfo;
use conclave_room_net::NetworkConnection;
use conclave_room_net::ReceiveDatagram;
use conclave_room_net::SendDatagram;
use flood_rs::prelude::InOctetStream;
use flood_rs::prelude::ReadOctetStream;

const EXPECTED_KNOWLEDGE_VALUE: u64 = 17718865395771014920;

fn ping_octets() -> [u8; 12] {
    [
        PING_COMMAND_TYPE_ID,
        0x00, // Term
        0x20,
        0xF5, // Knowledge
        0xE6,
        0x0E,
        0x32,
        0xE9,
        0xE4,
        0x7F,
        0x08,
        0x01, // Has connection to leader
    ]
}

fn room_with_connections(count: usize) -> (Room, Vec<u8>) {
    let mut room = Room::new();
    let now = Instant::now();
    let mut ids = Vec::new();
    for _ in 0..count {
        ids.push(room.create_connection(now).id);
    }
    (room, ids)
}

fn recorded(room: &Room, id: u8) -> (u64, bool, u16) {
    let connection = room.connections.get(&id).unwrap();
    (
        connection.knowledge,
        connection.has_connection_host,
        connection.last_reported_term,
    )
}

#[test]
fn check_send() {
    let room = Room::new();
    let octets = room.send();

    assert_eq!(vec![0x00, 0x00, 0x00, 0xff], octets);
}

#[test]
fn on_ping() {
    let octets = ping_octets();
    let mut receive_cursor = InOctetStream::new(&octets);

    let mut room = Room::new();
    let now = Instant::now();
    let first_connection_id = room.create_connection(now).id;
    let receive_result = room.receive(first_connection_id, now, &mut receive_cursor);
    assert_eq!(receive_result, Ok(()));

    let connection_after_receive = room.connections.get(&first_connection_id).unwrap();
    assert_eq!(connection_after_receive.knowledge, EXPECTED_KNOWLEDGE_VALUE);
}

#[test]
fn ping_sets_every_recorded_field() {
    let (mut room, ids) = room_with_connections(1);
    assert_eq!(recorded(&room, ids[0]), (0, false, 0));
    let outcome = receive_datagram(&mut room, ids[0], Instant::now(), &ping_octets());
    assert_eq!(outcome, Ok(()));
    assert_eq!(
        recorded(&room, ids[0]),
        (EXPECTED_KNOWLEDGE_VALUE, true, 0x2000)
    );
}

#[test]
fn ping_notes_the_time() {
    let (mut room, ids) = room_with_connections(1);
    let now = Instant::now();
    assert_eq!(receive_datagram(&mut room, ids[0], now, &ping_octets()), Ok(()));
    assert_eq!(room.connections.get(&ids[0]).unwrap().quality.last_ping_at, now);
}

#[test]
fn ping_leaves_term_and_leader() {
    let (mut room, ids) = room_with_connections(1);
    room.term = 7;
    room.leader_index = ids[0];
    assert_eq!(
        receive_datagram(&mut room, ids[0], Instant::now(), &ping_octets()),
        Ok(())
    );
    assert_eq!(room.term, 7);
    assert_eq!(room.leader_index, ids[0]);
    assert_eq!(room.connections.len(), 1);
}

#[test]
fn ping_leaves_other_connections() {
    let (mut room, ids) = room_with_connections(3);
    room.connections.get_mut(&ids[2]).unwrap().knowledge = 99;
    let outcome = receive_datagram(&mut room, ids[1], Instant::now(), &ping_octets());
    assert_eq!(outcome, Ok(()));
    assert_eq!(recorded(&room, ids[0]), (0, false, 0));
    assert_eq!(
        recorded(&room, ids[1]),
        (EXPECTED_KNOWLEDGE_VALUE, true, 0x2000)
    );
    assert_eq!(recorded(&room, ids[2]), (99, false, 0));
    assert_eq!(room.connections.len(), 3);
}

#[test]
fn zero_flag_means_no_connection_to_leader() {
    let (mut room, ids) = room_with_connections(1);
    let now = Instant::now();
    assert_eq!(receive_datagram(&mut room, ids[0], now, &ping_octets()), Ok(()));
    let mut octets = ping_octets();
    octets[11] = 0;
    assert_eq!(receive_datagram(&mut room, ids[0], now, &octets), Ok(()));
    assert_eq!(
        recorded(&room, ids[0]),
        (EXPECTED_KNOWLEDGE_VALUE, false, 0x2000)
    );
    octets[11] = 0x80;
    assert_eq!(receive_datagram(&mut room, ids[0], now, &octets), Ok(()));
    assert_eq!(
        recorded(&room, ids[0]),
        (EXPECTED_KNOWLEDGE_VALUE, true, 0x2000)
    );
}

#[test]
fn same_ping_twice_is_a_plain_overwrite() {
    let (mut room, ids) = room_with_connections(1);
    let now = Instant::now();
    assert_eq!(receive_datagram(&mut room, ids[0], now, &ping_octets()), Ok(()));
    let once = recorded(&room, ids[0]);
    assert_eq!(receive_datagram(&mut room, ids[0], now, &ping_octets()), Ok(()));
    assert_eq!(recorded(&room, ids[0]), once);
    assert_eq!(once, (EXPECTED_KNOWLEDGE_VALUE, true, 0x2000));
}

#[test]
fn last_ping_wins() {
    let (mut room, ids) = room_with_connections(1);
    let now = Instant::now();
    assert_eq!(receive_datagram(&mut room, ids[0], now, &ping_octets()), Ok(()));
    let second = [0xff, 0x02, 0x01, 0, 0, 0, 0, 0, 0, 0x01, 0x02, 0x00];
    assert_eq!(receive_datagram(&mut room, ids[0], now, &second), Ok(()));
    assert_eq!(recorded(&room, ids[0]), (0x0102, false, 0x0102));
}

#[test]
fn short_datagrams_are_malformed() {
    let octets = ping_octets();
    for length in 0..PING_DATAGRAM_LENGTH {
        let (mut room, ids) = room_with_connections(1);
        let before = recorded(&room, ids[0]);
        let outcome = receive_datagram(&mut room, ids[0], Instant::now(), &octets[..length]);
        assert_eq!(outcome, Err(Error::MalformedPayload));
        assert_eq!(recorded(&room, ids[0]), before);
        assert_eq!(room.connections.len(), 1);
    }
}

#[test]
fn short_datagram_in_words() {
    let (mut room, ids) = room_with_connections(1);
    let mut cursor = InOctetStream::new(&ping_octets()[..11]);
    let outcome = room.receive(ids[0], Instant::now(), &mut cursor);
    assert_eq!(outcome, Err("malformed payload".to_string()));
    assert_eq!(recorded(&room, ids[0]), (0, false, 0));
}

#[test]
fn empty_datagram_is_malformed() {
    let (mut room, ids) = room_with_connections(1);
    let outcome = receive_datagram(&mut room, ids[0], Instant::now(), &[]);
    assert_eq!(outcome, Err(Error::MalformedPayload));
}

#[test]
fn unknown_connection_whatever_the_payload() {
    let (mut room, ids) = room_with_connections(1);
    let stranger = ids[0] + 1;
    let now = Instant::now();
    assert_eq!(
        receive_datagram(&mut room, stranger, now, &ping_octets()),
        Err(Error::UnknownConnection(stranger))
    );
    assert_eq!(
        receive_datagram(&mut room, stranger, now, &[]),
        Err(Error::UnknownConnection(stranger))
    );
    assert_eq!(
        receive_datagram(&mut room, stranger, now, &[0x01, 0x02]),
        Err(Error::UnknownConnection(stranger))
    );
    assert_eq!(recorded(&room, ids[0]), (0, false, 0));
    assert_eq!(room.connections.len(), 1);
}

#[test]
fn unknown_connection_in_an_empty_room() {
    let mut room = Room::new();
    let mut cursor = InOctetStream::new(&ping_octets());
    let outcome = room.receive(9, Instant::now(), &mut cursor);
    assert_eq!(outcome, Err("there is no connection 9".to_string()));
    assert!(room.connections.is_empty());
}

#[test]
fn unknown_connection_leaves_the_cursor() {
    let mut room = Room::new();
    let mut cursor = InOctetStream::new(&ping_octets());
    let outcome = dispatch(&mut room, 3, Instant::now(), &mut cursor);
    assert_eq!(outcome, Err(Error::UnknownConnection(3)));
    assert_eq!(cursor.read_u8().unwrap(), PING_COMMAND_TYPE_ID);
}

#[test]
fn unknown_tag_is_reported() {
    let (mut room, ids) = room_with_connections(2);
    let mut octets = ping_octets();
    octets[0] = 0x01;
    let outcome = receive_datagram(&mut room, ids[0], Instant::now(), &octets);
    assert_eq!(outcome, Err(Error::UnknownCommandType(0x01)));
    assert_eq!(recorded(&room, ids[0]), (0, false, 0));
    assert_eq!(recorded(&room, ids[1]), (0, false, 0));
}

#[test]
fn unknown_tag_goes_before_length() {
    let (mut room, ids) = room_with_connections(1);
    let outcome = receive_datagram(&mut room, ids[0], Instant::now(), &[0x01]);
    assert_eq!(outcome, Err(Error::UnknownCommandType(0x01)));
    let mut cursor = InOctetStream::new(&[0xfe, 0x00]);
    assert_eq!(
        room.receive(ids[0], Instant::now(), &mut cursor),
        Err("unknown command type 254".to_string())
    );
}

#[test]
fn dispatch_takes_one_command_from_the_cursor() {
    let (mut room, ids) = room_with_connections(1);
    let mut octets = ping_octets().to_vec();
    octets.extend_from_slice(&[0xff, 0x01, 0x00, 0, 0, 0, 0, 0, 0, 0, 0x2a, 0x00, 0x77]);
    let mut cursor = InOctetStream::new(&octets);
    let now = Instant::now();
    assert_eq!(dispatch(&mut room, ids[0], now, &mut cursor), Ok(()));
    assert_eq!(
        recorded(&room, ids[0]),
        (EXPECTED_KNOWLEDGE_VALUE, true, 0x2000)
    );
    assert_eq!(dispatch(&mut room, ids[0], now, &mut cursor), Ok(()));
    assert_eq!(recorded(&room, ids[0]), (42, false, 1));
    assert_eq!(cursor.read_u8().unwrap(), 0x77);
    assert!(cursor.has_reached_end());
}

#[test]
fn decode_reads_the_fixture() {
    let mut cursor = InOctetStream::new(&ping_octets());
    assert_eq!(
        decode(&mut cursor),
        Ok(Command::Ping {
            term: 0x2000,
            has_connection_to_leader: true,
            knowledge: EXPECTED_KNOWLEDGE_VALUE,
        })
    );
    assert!(cursor.has_reached_end());
}

#[test]
fn decode_reads_each_field_from_its_place() {
    let octets = [0xff, 0x34, 0x12, 1, 2, 3, 4, 5, 6, 7, 8, 0];
    let mut cursor = InOctetStream::new(&octets);
    assert_eq!(
        decode(&mut cursor),
        Ok(Command::Ping {
            term: 0x1234,
            has_connection_to_leader: false,
            knowledge: 0x0102030405060708,
        })
    );
}

#[test]
fn decode_reports_failures() {
    assert_eq!(
        decode(&mut InOctetStream::new(&[])),
        Err(Error::MalformedPayload)
    );
    assert_eq!(
        decode(&mut InOctetStream::new(&[0xff])),
        Err(Error::MalformedPayload)
    );
    assert_eq!(
        decode(&mut InOctetStream::new(&[0x00, 1, 2, 3, 4, 5, 6, 7, 8, 9, 10, 11])),
        Err(Error::UnknownCommandType(0))
    );
}

#[test]
fn command_kind_of_each_tag() {
    for tag in 0..=u8::MAX {
        let expected = if tag == 0xff {
            Some(CommandKind::Ping)
        } else {
            None
        };
        assert_eq!(CommandKind::from_tag(tag), expected);
    }
    assert_eq!(PING_COMMAND_TYPE_ID, 0xff);
    assert_eq!(PING_DATAGRAM_LENGTH, 12);
}

#[test]
fn encode_writes_term_and_leader() {
    let (mut room, ids) = room_with_connections(1);
    room.term = 0x1234;
    room.leader_index = ids[0];
    assert_eq!(encode(&room), vec![0x34, 0x12, 0x00, ids[0]]);
    assert_eq!(room.send(), vec![0x34, 0x12, 0x00, ids[0]]);
}

#[test]
fn encode_of_a_new_room() {
    let room = Room::new();
    assert_eq!(room.leader_index, NO_CONNECTION);
    assert_eq!(encode(&room), vec![0x00, 0x00, 0x00, 0xff]);
}

#[test]
fn room_info_to_octets() {
    let info = RoomInfo {
        term: 0xfffe,
        leader_index: 0,
    };
    assert_eq!(info.to_octets(), vec![0xfe, 0xff, 0x00, 0x00]);
    let info = RoomInfo {
        term: 1,
        leader_index: 0xff,
    };
    assert_eq!(info.to_octets(), vec![0x01, 0x00, 0x00, 0xff]);
}

#[test]
fn network_connection_holds_its_room() {
    let (room, ids) = room_with_connections(1);
    let mut connection = NetworkConnection { id: ids[0], room };
    let outcome = receive_datagram(
        &mut connection.room,
        connection.id,
        Instant::now(),
        &ping_octets(),
    );
    assert_eq!(outcome, Ok(()));
    assert_eq!(
        recorded(&connection.room, connection.id).0,
        EXPECTED_KNOWLEDGE_VALUE
    );
}

#[test]
fn error_messages() {
    assert_eq!(
        Error::UnknownConnection(0).message(),
        "there is no connection 0"
    );
    assert_eq!(
        Error::UnknownConnection(255).message(),
        "there is no connection 255"
    );
    assert_eq!(
        Error::UnknownCommandType(1).message(),
        "unknown command type 1"
    );
    assert_eq!(
        Error::UnknownCommandType(100).message(),
        "unknown command type 100"
    );
    assert_eq!(Error::MalformedPayload.message(), "malformed payload");
}

#[test]
fn push_decimal_writes_every_number_as_std_does() {
    for number in 0..=u8::MAX {
        let mut text = String::from("n=");
        push_decimal(&mut text, number);
        assert_eq!(text, format!("n={}", number));
    }
}

#[test]
fn every_ping_is_counted() {
    let mut room = Room::new();
    let start = Instant::now();
    let id = room.create_connection(start).id;
    let later = start + Duration::from_millis(250);
    for _ in 0..6000 {
        assert_eq!(receive_datagram(&mut room, id, start, &ping_octets()), Ok(()));
    }
    let quality = &mut room.connections.get_mut(&id).unwrap().quality;
    quality.update(later);
    assert_eq!(quality.assessment, QualityAssessment::Good);
}

#[test]
fn rejected_datagrams_are_not_counted() {
    let mut room = Room::new();
    let start = Instant::now();
    let id = room.create_connection(start).id;
    let later = start + Duration::from_millis(250);
    for _ in 0..6000 {
        assert_eq!(
            receive_datagram(&mut room, id, start, &ping_octets()[..11]),
            Err(Error::MalformedPayload)
        );
    }
    let quality = &mut room.connections.get_mut(&id).unwrap().quality;
    quality.update(later);
    assert_eq!(quality.assessment, QualityAssessment::RecommendDisconnect);
}
