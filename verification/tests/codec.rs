use chat_gateway::codec::{decode, decode_event, decode_value, encode, event_value, to_value, DecodeError};
use chat_gateway::protocol::{GatewayPayload, MessageCreateEvent};
use chat_gateway::types::{ChannelId, ConnectionId, EventId, UserId};

fn object(members: Vec<(&str, serde_json::Value)>) -> serde_json::Value {
    let mut map = serde_json::Map::new();
    for (key, value) in members {
        map.insert(key.to_string(), value);
    }
    serde_json::Value::Object(map)
}

fn text(value: &str) -> serde_json::Value {
    serde_json::Value::String(value.to_string())
}

fn sample_event() -> MessageCreateEvent {
    MessageCreateEvent {
        id: EventId(0x0123_4567_89ab_cdef_0123_4567_89ab_cdef),
        channel_id: ChannelId(0x1111_2222_3333_4444_5555_6666_7777_8888),
        author_connection_id: ConnectionId(42),
        content: "hi \"there\"\n\u{e9}".to_string(),
    }
}

#[test]
fn hello_round_trip() {
    let payload = GatewayPayload::Hello {
        heartbeat_interval_ms: 25_000,
    };

    let json = encode(&payload);
    assert_eq!(
        json,
        r#"{"op":"Hello","d":{"heartbeat_interval_ms":25000}}"#
    );

    let parsed: GatewayPayload = decode(&json).unwrap();
    assert!(matches!(
        parsed,
        GatewayPayload::Hello {
            heartbeat_interval_ms: 25_000
        }
    ));
}

#[test]
fn identify_payload_serializes_with_ids() {
    let payload = GatewayPayload::Identify {
        user_id: UserId(uuid::Uuid::nil().as_u128()),
    };

    let json = to_value(&payload);
    assert_eq!(
        json,
        object(vec![
            ("op", text("Identify")),
            (
                "d",
                object(vec![("user_id", text("00000000-0000-0000-0000-000000000000"))])
            ),
        ])
    );
}

#[test]
fn identify_text_is_exact() {
    let payload = GatewayPayload::Identify { user_id: UserId(0xffee_0000_0000_0000_0000_0000_0000_0001) };
    assert_eq!(
        encode(&payload),
        r#"{"op":"Identify","d":{"user_id":"ffee0000-0000-0000-0000-000000000001"}}"#
    );
}

#[test]
fn subscribe_text_is_exact() {
    let payload = GatewayPayload::Subscribe { channel_id: ChannelId(1) };
    assert_eq!(
        encode(&payload),
        r#"{"op":"Subscribe","d":{"channel_id":"00000000-0000-0000-0000-000000000001"}}"#
    );
}

#[test]
fn message_create_text_is_exact() {
    let payload = GatewayPayload::MessageCreate { channel_id: ChannelId(2), content: "a\"b".to_string() };
    assert_eq!(
        encode(&payload),
        r#"{"op":"MessageCreate","d":{"channel_id":"00000000-0000-0000-0000-000000000002","content":"a\"b"}}"#
    );
}

#[test]
fn dispatch_text_is_exact() {
    let payload = GatewayPayload::Dispatch {
        t: "MESSAGE_CREATE".to_string(),
        d: MessageCreateEvent {
            id: EventId(1),
            channel_id: ChannelId(2),
            author_connection_id: ConnectionId(3),
            content: "hi".to_string(),
        },
    };
    assert_eq!(
        encode(&payload),
        concat_parts(&[
            r#"{"op":"Dispatch","d":{"t":"MESSAGE_CREATE","d":{"id":"00000000000000000000000001","#,
            r#""channel_id":"00000000-0000-0000-0000-000000000002","#,
            r#""author_connection_id":"00000000-0000-0000-0000-000000000003","content":"hi"}}}"#,
        ])
    );
}

fn concat_parts(parts: &[&str]) -> String {
    let mut whole = String::new();
    for part in parts {
        whole.push_str(part);
    }
    whole
}

#[test]
fn every_frame_kind_round_trips() {
    let frames = vec![
        GatewayPayload::Hello { heartbeat_interval_ms: 0 },
        GatewayPayload::Hello { heartbeat_interval_ms: u64::MAX },
        GatewayPayload::Identify { user_id: UserId(u128::MAX) },
        GatewayPayload::Subscribe { channel_id: ChannelId(7) },
        GatewayPayload::MessageCreate { channel_id: ChannelId(9), content: String::new() },
        GatewayPayload::MessageCreate { channel_id: ChannelId(9), content: "line\nbreak \\ \u{1F600}".to_string() },
        GatewayPayload::Dispatch { t: "MESSAGE_CREATE".to_string(), d: sample_event() },
        GatewayPayload::Dispatch { t: String::new(), d: sample_event() },
    ];
    for frame in frames {
        let text = encode(&frame);
        assert_eq!(decode(&text), Ok(frame.clone()));
        assert_eq!(decode_value(&to_value(&frame)), Ok(frame));
    }
}

#[test]
fn event_round_trips_through_its_document() {
    let event = sample_event();
    let document = event_value(&event);
    assert_eq!(document["id"], text("014D2PF2DBSQQG28T5CY4TQKFF"));
    assert_eq!(document["channel_id"], text("11112222-3333-4444-5555-666677778888"));
    assert_eq!(document["author_connection_id"], text("00000000-0000-0000-0000-00000000002a"));
    assert_eq!(decode_event(&document), Some(event));
}

#[test]
fn decode_accepts_other_member_order_and_spacing() {
    let text = " { \"d\" : { \"heartbeat_interval_ms\" : 5 , \"extra\" : null } , \"op\" : \"Hello\" } ";
    assert_eq!(decode(text), Ok(GatewayPayload::Hello { heartbeat_interval_ms: 5 }));
}

#[test]
fn decode_accepts_upper_case_and_plain_uuids() {
    let text = r#"{"op":"Subscribe","d":{"channel_id":"0000000000000000000000000000000A"}}"#;
    assert_eq!(decode(text), Ok(GatewayPayload::Subscribe { channel_id: ChannelId(10) }));
}

#[test]
fn text_that_is_no_json_is_malformed() {
    assert_eq!(decode("not json"), Err(DecodeError::Malformed));
    assert_eq!(decode(""), Err(DecodeError::Malformed));
    assert_eq!(decode(r#"{"op":"Hello""#), Err(DecodeError::Malformed));
}

#[test]
fn document_without_text_op_is_malformed() {
    assert_eq!(decode("[1,2]"), Err(DecodeError::Malformed));
    assert_eq!(decode(r#"{"d":{}}"#), Err(DecodeError::Malformed));
    assert_eq!(decode(r#"{"op":7,"d":{}}"#), Err(DecodeError::Malformed));
    assert_eq!(decode_value(&text("Hello")), Err(DecodeError::Malformed));
}

#[test]
fn unrecognized_discriminant_is_unknown_op() {
    assert_eq!(decode(r#"{"op":"Resume","d":{}}"#), Err(DecodeError::UnknownOp));
    assert_eq!(decode(r#"{"op":"hello","d":{"heartbeat_interval_ms":1}}"#), Err(DecodeError::UnknownOp));
    assert_eq!(decode(r#"{"op":"Nope"}"#), Err(DecodeError::UnknownOp));
}

#[test]
fn wrong_payload_is_invalid_payload() {
    assert_eq!(decode(r#"{"op":"Hello"}"#), Err(DecodeError::InvalidPayload));
    assert_eq!(decode(r#"{"op":"Hello","d":{}}"#), Err(DecodeError::InvalidPayload));
    assert_eq!(decode(r#"{"op":"Hello","d":{"heartbeat_interval_ms":-1}}"#), Err(DecodeError::InvalidPayload));
    assert_eq!(decode(r#"{"op":"Hello","d":{"heartbeat_interval_ms":"5"}}"#), Err(DecodeError::InvalidPayload));
    assert_eq!(decode(r#"{"op":"Identify","d":{"user_id":"xyz"}}"#), Err(DecodeError::InvalidPayload));
    assert_eq!(decode(r#"{"op":"Subscribe","d":{"channel_id":5}}"#), Err(DecodeError::InvalidPayload));
    assert_eq!(
        decode(r#"{"op":"MessageCreate","d":{"channel_id":"00000000-0000-0000-0000-000000000002"}}"#),
        Err(DecodeError::InvalidPayload)
    );
    assert_eq!(
        decode(r#"{"op":"Dispatch","d":{"t":"MESSAGE_CREATE","d":{"id":"short"}}}"#),
        Err(DecodeError::InvalidPayload)
    );
}
