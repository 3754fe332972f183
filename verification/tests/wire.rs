//! Byte-level checks of the message codec: exact frames for encoded
//! messages, parsing of inbound frames, and the parse error cases.

use vmbus_client::codec::parse_message;
use vmbus_client::codec::Message;
use vmbus_client::codec::OutgoingMessage;
use vmbus_client::codec::ParseError;
use vmbus_client::protocol::ChannelId;
use vmbus_client::protocol::CloseChannel;
use vmbus_client::protocol::GpadlBody;
use vmbus_client::protocol::GpadlId;
use vmbus_client::protocol::Guid;
use vmbus_client::protocol::OfferFlags;
use vmbus_client::protocol::RelIdReleased;
use vmbus_client::protocol::UserDefinedData;
use vmbus_client::protocol::MSG_CLOSE_CHANNEL;
use vmbus_client::protocol::MSG_GPADL_CREATED;
use vmbus_client::protocol::MSG_OFFER_CHANNEL;
use vmbus_client::protocol::MSG_OPEN_CHANNEL_RESULT;
use vmbus_client::protocol::MSG_RESCIND_CHANNEL_OFFER;

#[test]
fn test_encode_close_channel_exact_bytes() {
    let frame = OutgoingMessage::CloseChannel(CloseChannel { channel_id: ChannelId(0x01020304) })
        .encode();
    let mut expected = Vec::new();
    expected.extend_from_slice(&MSG_CLOSE_CHANNEL.to_le_bytes());
    expected.extend_from_slice(&0u32.to_le_bytes());
    expected.extend_from_slice(&0x01020304u32.to_le_bytes());
    assert_eq!(frame, expected);
}

#[test]
fn test_encode_rel_id_released_exact_bytes() {
    let frame = OutgoingMessage::RelIdReleased(RelIdReleased { channel_id: ChannelId(5) }).encode();
    assert_eq!(frame, vec![13, 0, 0, 0, 0, 0, 0, 0, 5, 0, 0, 0]);
}

#[test]
fn test_encode_gpadl_body_carries_data() {
    let frame = OutgoingMessage::GpadlBody(
        GpadlBody { rsvd: 0, gpadl_id: GpadlId(1) },
        vec![0xaa, 0xbb],
    )
    .encode();
    let mut expected = Vec::new();
    expected.extend_from_slice(&9u32.to_le_bytes());
    expected.extend_from_slice(&0u32.to_le_bytes());
    expected.extend_from_slice(&0u32.to_le_bytes());
    expected.extend_from_slice(&1u32.to_le_bytes());
    expected.extend_from_slice(&[0xaa, 0xbb]);
    assert_eq!(frame, expected);
}

#[test]
fn test_parse_truncated_frame() {
    assert_eq!(parse_message(&[1, 2, 3], None), Err(ParseError::Truncated));
    // a known kind whose body is too short
    let mut frame = Vec::new();
    frame.extend_from_slice(&MSG_RESCIND_CHANNEL_OFFER.to_le_bytes());
    frame.extend_from_slice(&0u32.to_le_bytes());
    frame.extend_from_slice(&[0, 0]);
    assert_eq!(parse_message(&frame, None), Err(ParseError::Truncated));
}

#[test]
fn test_parse_unknown_type() {
    let mut frame = Vec::new();
    frame.extend_from_slice(&99u32.to_le_bytes());
    frame.extend_from_slice(&0u32.to_le_bytes());
    assert_eq!(parse_message(&frame, None), Err(ParseError::UnknownMessageType(99)));
}

#[test]
fn test_parse_open_result() {
    let mut frame = Vec::new();
    frame.extend_from_slice(&MSG_OPEN_CHANNEL_RESULT.to_le_bytes());
    frame.extend_from_slice(&0u32.to_le_bytes());
    frame.extend_from_slice(&7u32.to_le_bytes());
    frame.extend_from_slice(&0u32.to_le_bytes());
    frame.extend_from_slice(&0u32.to_le_bytes());
    match parse_message(&frame, None).unwrap() {
        Message::OpenResult(r) => {
            assert_eq!(r.channel_id, ChannelId(7));
            assert_eq!(r.open_id, 0);
            assert_eq!(r.status, 0);
        }
        other => panic!("unexpected message {:?}", other),
    }
}

#[test]
fn test_parse_gpadl_created_negative_status() {
    let mut frame = Vec::new();
    frame.extend_from_slice(&MSG_GPADL_CREATED.to_le_bytes());
    frame.extend_from_slice(&0u32.to_le_bytes());
    frame.extend_from_slice(&3u32.to_le_bytes());
    frame.extend_from_slice(&4u32.to_le_bytes());
    frame.extend_from_slice(&(-1073741823i32).to_le_bytes());
    match parse_message(&frame, None).unwrap() {
        Message::GpadlCreated(g) => {
            assert_eq!(g.channel_id, ChannelId(3));
            assert_eq!(g.gpadl_id, GpadlId(4));
            assert_eq!(g.status, -1073741823);
        }
        other => panic!("unexpected message {:?}", other),
    }
}

#[test]
fn test_parse_offer_channel_fields() {
    let interface_id = Guid { data1: 0x11223344, data2: 0x5566, data3: 0x7788, data4: 0x99aabbcc };
    let mut body = Vec::new();
    body.extend_from_slice(&interface_id.data1.to_le_bytes());
    body.extend_from_slice(&interface_id.data2.to_le_bytes());
    body.extend_from_slice(&interface_id.data3.to_le_bytes());
    body.extend_from_slice(&interface_id.data4.to_le_bytes());
    body.extend_from_slice(&[0u8; 16]); // instance id
    body.extend_from_slice(&[0u8; 16]); // reserved
    body.extend_from_slice(&3u16.to_le_bytes()); // flags
    body.extend_from_slice(&16u16.to_le_bytes()); // mmio megabytes
    let mut user_defined = [0u8; 120];
    user_defined[0] = 0xde;
    user_defined[119] = 0xad;
    body.extend_from_slice(&user_defined);
    body.extend_from_slice(&2u16.to_le_bytes()); // subchannel index
    body.extend_from_slice(&0u16.to_le_bytes()); // optional mmio
    body.extend_from_slice(&42u32.to_le_bytes()); // channel id
    body.push(1); // monitor id
    body.push(0); // monitor allocated
    body.extend_from_slice(&1u16.to_le_bytes()); // dedicated
    body.extend_from_slice(&9u32.to_le_bytes()); // connection id
    assert_eq!(body.len(), 188);
    let mut frame = Vec::new();
    frame.extend_from_slice(&MSG_OFFER_CHANNEL.to_le_bytes());
    frame.extend_from_slice(&0u32.to_le_bytes());
    frame.extend_from_slice(&body);
    match parse_message(&frame, None).unwrap() {
        Message::OfferChannel(o) => {
            assert_eq!(o.interface_id, interface_id);
            assert_eq!(o.flags, OfferFlags(3));
            assert_eq!(o.mmio_megabytes, 16);
            assert_eq!(o.user_defined, UserDefinedData(user_defined));
            assert_eq!(o.subchannel_index, 2);
            assert_eq!(o.channel_id, ChannelId(42));
            assert_eq!(o.monitor_id, 1);
            assert_eq!(o.is_dedicated, 1);
            assert_eq!(o.connection_id, 9);
        }
        other => panic!("unexpected message {:?}", other),
    }
}

#[test]
fn test_parse_server_kind_is_recognized() {
    let mut frame = Vec::new();
    frame.extend_from_slice(&3u32.to_le_bytes()); // a kind only servers accept
    frame.extend_from_slice(&0u32.to_le_bytes());
    assert_eq!(parse_message(&frame, None), Ok(Message::RequestOffers));
}
