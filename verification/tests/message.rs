use std::time::Duration;

use bytes::{Bytes, BytesMut};
use flytrap::machine::MachineId;
use flytrap::ping::message::{Contents, Message, Reply, Request, MIN_LEN};
use flytrap::ping::seq::Sequence;
use flytrap::ping::time::Timestamp;

const T: Timestamp = Timestamp(123811200000000000); // 2023-12-04 00:00:00

fn round_trip(message: Message) {
    let mut data = BytesMut::with_capacity(1024);

    let len = message.write(&mut data);

    let mut written = Bytes::copy_from_slice(&data[..len]);
    assert_eq!(Message::read(&mut written), Some(message));
    assert_eq!(written.len(), 0);
}

fn request() -> Message {
    let from = MachineId::new("17811309c4e0d8");
    let to = MachineId::new("6e82de14c35038");
    Message::new(from, to, Sequence::new(0x1001), Request::new(T, None).into())
}

fn reply() -> Message {
    let from = MachineId::new("6e82de14c35038");
    let to = MachineId::new("17811309c4e0d8");
    Message::new(
        from,
        to,
        Sequence::new(0x2001),
        Reply::new(Sequence::new(0x1001), T, T + Duration::from_millis(200), None).into(),
    )
}

fn encode(message: &Message) -> Vec<u8> {
    let mut data = BytesMut::new();
    let len = message.write(&mut data);
    data[..len].to_vec()
}

fn decode(bytes: &[u8]) -> Option<Message> {
    Message::read(&mut Bytes::copy_from_slice(bytes))
}

#[test]
fn test_ping_request() {
    round_trip(request());
}

#[test]
fn test_ping_reply() {
    round_trip(reply());
}

#[test]
fn round_trip_keeps_last() {
    let mut message = request();
    message.contents = Request::new(T, Some(Timestamp(T.0 - 5))).into();
    round_trip(message);

    let mut message = reply();
    message.contents =
        Reply::new(Sequence::new(u32::MAX), T, Timestamp(u64::MAX), Some(Timestamp(1))).into();
    round_trip(message);
}

#[test]
fn a_last_of_zero_reads_back_as_none() {
    let mut message = request();
    message.contents = Request::new(T, Some(Timestamp(0))).into();
    let decoded = decode(&encode(&message)).unwrap();
    assert_eq!(decoded.contents, Contents::Request(Request::new(T, None)));
}

#[test]
fn request_layout() {
    let bytes = encode(&request());
    let mut expected = Vec::new();
    expected.extend_from_slice(b"flytrap\0");
    expected.extend_from_slice(&0x17811309c4e0d8u64.to_le_bytes());
    expected.extend_from_slice(&0x6e82de14c35038u64.to_le_bytes());
    expected.extend_from_slice(&0x1001u32.to_le_bytes());
    expected.extend_from_slice(&18u16.to_le_bytes());
    expected.extend_from_slice(&0x10u16.to_le_bytes());
    expected.extend_from_slice(&T.0.to_le_bytes());
    expected.extend_from_slice(&0u64.to_le_bytes());
    assert_eq!(bytes, expected);
    assert_eq!(bytes.len(), 48);
}

#[test]
fn reply_layout() {
    let bytes = encode(&reply());
    let mut expected = Vec::new();
    expected.extend_from_slice(b"flytrap\0");
    expected.extend_from_slice(&0x6e82de14c35038u64.to_le_bytes());
    expected.extend_from_slice(&0x17811309c4e0d8u64.to_le_bytes());
    expected.extend_from_slice(&0x2001u32.to_le_bytes());
    expected.extend_from_slice(&34u16.to_le_bytes());
    expected.extend_from_slice(&0x11u16.to_le_bytes());
    expected.extend_from_slice(&0x1001u32.to_le_bytes());
    expected.extend_from_slice(&[0, 0, 0, 0]);
    expected.extend_from_slice(&T.0.to_le_bytes());
    expected.extend_from_slice(&(T.0 + 200_000_000).to_le_bytes());
    expected.extend_from_slice(&0u64.to_le_bytes());
    assert_eq!(bytes, expected);
    assert_eq!(bytes.len(), 64);
}

#[test]
fn write_replaces_what_the_buffer_held() {
    let mut data = BytesMut::from(&b"left over from the last datagram"[..]);
    let len = request().write(&mut data);
    assert_eq!(len, 48);
    assert_eq!(&data[..], &encode(&request())[..]);
}

#[test]
fn read_rejects_short_buffers() {
    let bytes = encode(&request());
    assert_eq!(decode(&[]), None);
    assert_eq!(decode(&bytes[..MIN_LEN - 1]), None);
    // the header alone is long enough to be looked at, but holds no request
    assert_eq!(decode(&bytes[..MIN_LEN]), None);
    assert_eq!(decode(&bytes[..47]), None);
    let bytes = encode(&reply());
    assert_eq!(decode(&bytes[..63]), None);
}

#[test]
fn read_takes_nothing_from_a_short_buffer() {
    let mut data = Bytes::copy_from_slice(&encode(&request())[..20]);
    assert_eq!(Message::read(&mut data), None);
    assert_eq!(data.len(), 20);
}

#[test]
fn read_rejects_wrong_magic() {
    let mut bytes = encode(&request());
    bytes[0] = b'F';
    assert_eq!(decode(&bytes), None);
}

#[test]
fn read_rejects_unknown_kind() {
    let mut bytes = encode(&request());
    bytes[30] = 0x12;
    assert_eq!(decode(&bytes), None);
    bytes[30] = 0x10;
    bytes[31] = 0x01;
    assert_eq!(decode(&bytes), None);
}

#[test]
fn read_rejects_zero_identities() {
    let mut bytes = encode(&request());
    bytes[8..16].copy_from_slice(&[0; 8]);
    assert_eq!(decode(&bytes), None);

    let mut bytes = encode(&request());
    bytes[16..24].copy_from_slice(&[0; 8]);
    assert_eq!(decode(&bytes), None);
}

#[test]
fn read_rejects_zero_sequence_numbers() {
    let mut bytes = encode(&request());
    bytes[24..28].copy_from_slice(&[0; 4]);
    assert_eq!(decode(&bytes), None);

    let mut bytes = encode(&reply());
    bytes[32..36].copy_from_slice(&[0; 4]);
    assert_eq!(decode(&bytes), None);
}

#[test]
fn read_rejects_a_length_beyond_the_buffer() {
    let mut bytes = encode(&request());
    bytes[28..30].copy_from_slice(&19u16.to_le_bytes());
    assert_eq!(decode(&bytes), None);
    bytes[28..30].copy_from_slice(&18u16.to_le_bytes());
    assert_eq!(decode(&bytes), Some(request()));
}

#[test]
fn read_rejects_padding_that_is_not_zero() {
    let mut bytes = encode(&reply());
    bytes[37] = 1;
    assert_eq!(decode(&bytes), None);
}

#[test]
fn read_leaves_what_follows_the_message() {
    let mut bytes = encode(&reply());
    bytes.extend_from_slice(b"more");
    let mut data = Bytes::from(bytes);
    assert_eq!(Message::read(&mut data), Some(reply()));
    assert_eq!(&data[..], b"more");
}

#[test]
fn discriminants() {
    assert_eq!(Contents::Request(Request::new(T, None)).discriminant(), 0x10);
    assert_eq!(
        Contents::Reply(Reply::new(Sequence::new(1), T, T, None)).discriminant(),
        0x11
    );
}

fn left_after_reading(bytes: &[u8]) -> usize {
    let mut data = Bytes::copy_from_slice(bytes);
    assert_eq!(Message::read(&mut data), None);
    data.len()
}

#[test]
fn read_stops_at_the_field_that_decides() {
    let good = encode(&reply());
    assert_eq!(good.len(), 64);

    let mut bytes = good.clone();
    bytes[7] = 1;
    assert_eq!(left_after_reading(&bytes), 64 - 8);

    let mut bytes = good.clone();
    bytes[16..24].copy_from_slice(&[0; 8]);
    assert_eq!(left_after_reading(&bytes), 64 - 24);

    let mut bytes = good.clone();
    bytes[24..28].copy_from_slice(&[0; 4]);
    assert_eq!(left_after_reading(&bytes), 64 - 30);

    let mut bytes = good.clone();
    bytes[28..30].copy_from_slice(&35u16.to_le_bytes());
    assert_eq!(left_after_reading(&bytes), 64 - 30);

    let mut bytes = good.clone();
    bytes[30] = 0x13;
    assert_eq!(left_after_reading(&bytes), 64 - 32);

    let mut bytes = good.clone();
    bytes[36] = 9;
    assert_eq!(left_after_reading(&bytes), 0);

    // the length is in order, but a reply needs more than is there
    let mut bytes = good[..40].to_vec();
    bytes[28..30].copy_from_slice(&10u16.to_le_bytes());
    assert_eq!(left_after_reading(&bytes), 40 - 32);

    // the length says more than is there
    assert_eq!(left_after_reading(&good[..40]), 40 - 30);
}

#[test]
fn a_length_that_says_less_than_follows_is_in_order() {
    let mut bytes = encode(&request());
    bytes[28..30].copy_from_slice(&0u16.to_le_bytes());
    assert_eq!(decode(&bytes), Some(request()));
}
