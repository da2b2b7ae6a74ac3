//! The wire form of a frame: a JSON object with the discriminant under `op`
//! and the payload under `d`.

use vstd::prelude::*;
use crate::json::{
    as_text, as_unsigned, empty_object, is_frame_shaped, json_of, json_parsed, member, parse,
    parse_ulid, parse_uuid, render, text_value, ulid_parsed, ulid_rendered, ulid_text,
    unsigned_value, uuid_parsed, uuid_rendered, uuid_text, with_member, Json,
};
use crate::protocol::{
    GatewayPayload, GatewayPayloadView, MessageCreateEvent, MessageCreateEventView,
};
use crate::types::{ChannelId, ConnectionId, EventId, UserId};

verus! {

/// Why a text is not a frame.
#[derive(Clone, Copy, Debug, PartialEq, Eq, Structural)]
pub enum DecodeError {
    /// The text is not a JSON object with a string under `op`.
    Malformed,
    /// The discriminant names no frame of the protocol.
    UnknownOp,
    /// The payload under `d` is missing or is not that of the frame named.
    InvalidPayload,
}

/// The member `key` of `document`, where it is an object that has one.
pub open spec fn field(document: Json, key: Seq<char>) -> Option<Json> {
    if document is Object && document->members.contains_key(key) {
        Some(document->members[key])
    } else {
        None
    }
}

/// The string under `key`.
pub open spec fn field_text(document: Json, key: Seq<char>) -> Option<Seq<char>> {
    match field(document, key) {
        Some(Json::Text { text }) => Some(text),
        _ => None,
    }
}

/// The unsigned integer under `key`.
pub open spec fn field_unsigned(document: Json, key: Seq<char>) -> Option<u64> {
    match field(document, key) {
        Some(Json::Unsigned { value }) => Some(value),
        _ => None,
    }
}

/// The identifier written in UUID form under `key`.
pub open spec fn field_uuid(document: Json, key: Seq<char>) -> Option<u128> {
    match field_text(document, key) {
        Some(text) => uuid_parsed(text),
        None => None,
    }
}

/// The identifier written in ULID form under `key`.
pub open spec fn field_ulid(document: Json, key: Seq<char>) -> Option<u128> {
    match field_text(document, key) {
        Some(text) => ulid_parsed(text),
        None => None,
    }
}

/// The event that `document` spells out, if it does.
pub open spec fn event_of(document: Json) -> Option<MessageCreateEventView> {
    match (
        field_ulid(document, "id"@),
        field_uuid(document, "channel_id"@),
        field_uuid(document, "author_connection_id"@),
        field_text(document, "content"@),
    ) {
        (Some(id), Some(channel), Some(author), Some(content)) => Some(
            MessageCreateEventView {
                id: EventId(id),
                channel_id: ChannelId(channel),
                author_connection_id: ConnectionId(author),
                content,
            },
        ),
        _ => None,
    }
}

/// Whether `op` is the discriminant of a frame.
pub open spec fn known_op(op: Seq<char>) -> bool {
    op == "Hello"@ || op == "Identify"@ || op == "Subscribe"@ || op == "MessageCreate"@ || op
        == "Dispatch"@
}

/// The frame with discriminant `op` and payload `payload`, if the payload is
/// that of such a frame.
pub open spec fn payload_of(op: Seq<char>, payload: Json) -> Option<GatewayPayloadView> {
    if op == "Hello"@ {
        match field_unsigned(payload, "heartbeat_interval_ms"@) {
            Some(heartbeat_interval_ms) => Some(GatewayPayloadView::Hello { heartbeat_interval_ms }),
            None => None,
        }
    } else if op == "Identify"@ {
        match field_uuid(payload, "user_id"@) {
            Some(id) => Some(GatewayPayloadView::Identify { user_id: UserId(id) }),
            None => None,
        }
    } else if op == "Subscribe"@ {
        match field_uuid(payload, "channel_id"@) {
            Some(id) => Some(GatewayPayloadView::Subscribe { channel_id: ChannelId(id) }),
            None => None,
        }
    } else if op == "MessageCreate"@ {
        match (field_uuid(payload, "channel_id"@), field_text(payload, "content"@)) {
            (Some(id), Some(content)) => Some(
                GatewayPayloadView::MessageCreate { channel_id: ChannelId(id), content },
            ),
            _ => None,
        }
    } else if op == "Dispatch"@ {
        match (field_text(payload, "t"@), field(payload, "d"@)) {
            (Some(t), Some(inner)) => match event_of(inner) {
                Some(d) => Some(GatewayPayloadView::Dispatch { t, d }),
                None => None,
            },
            _ => None,
        }
    } else {
        None
    }
}

/// The frame that a document stands for, or why it stands for none.
pub open spec fn frame_of(document: Json) -> Result<GatewayPayloadView, DecodeError> {
    match field_text(document, "op"@) {
        None => Err(DecodeError::Malformed),
        Some(op) => if !known_op(op) {
            Err(DecodeError::UnknownOp)
        } else {
            match field(document, "d"@) {
                None => Err(DecodeError::InvalidPayload),
                Some(payload) => match payload_of(op, payload) {
                    Some(frame) => Ok(frame),
                    None => Err(DecodeError::InvalidPayload),
                },
            }
        },
    }
}

/// The frame that a text stands for, given what reading it as JSON gave.
pub open spec fn decoded(parsed: Option<Json>) -> Result<GatewayPayloadView, DecodeError> {
    match parsed {
        None => Err(DecodeError::Malformed),
        Some(document) => frame_of(document),
    }
}

/// The view of the outcome of decoding.
pub open spec fn outcome_view(outcome: Result<GatewayPayload, DecodeError>) -> Result<
    GatewayPayloadView,
    DecodeError,
> {
    match outcome {
        Ok(frame) => Ok(frame@),
        Err(error) => Err(error),
    }
}

/// An object with the one member `value` under `key`.
pub open spec fn record1(key: Seq<char>, value: Json) -> Json {
    Json::Object { members: Map::empty().insert(key, value) }
}

/// An object with two members.
pub open spec fn record2(key1: Seq<char>, value1: Json, key2: Seq<char>, value2: Json) -> Json {
    Json::Object { members: Map::empty().insert(key1, value1).insert(key2, value2) }
}

/// An identifier in UUID form.
pub open spec fn uuid_json(value: u128) -> Json {
    Json::Text { text: uuid_rendered(value) }
}

/// The document that spells out `event`.
pub open spec fn event_json(event: MessageCreateEventView) -> Json {
    Json::Object {
        members: Map::empty().insert("id"@, Json::Text { text: ulid_rendered(event.id.0) }).insert(
            "channel_id"@,
            uuid_json(event.channel_id.0),
        ).insert("author_connection_id"@, uuid_json(event.author_connection_id.0)).insert(
            "content"@,
            Json::Text { text: event.content },
        ),
    }
}

/// The discriminant of `frame`.
pub open spec fn op_of(frame: GatewayPayloadView) -> Seq<char> {
    match frame {
        GatewayPayloadView::Hello { .. } => "Hello"@,
        GatewayPayloadView::Identify { .. } => "Identify"@,
        GatewayPayloadView::Subscribe { .. } => "Subscribe"@,
        GatewayPayloadView::MessageCreate { .. } => "MessageCreate"@,
        GatewayPayloadView::Dispatch { .. } => "Dispatch"@,
    }
}

/// The payload of `frame` as a document.
pub open spec fn payload_json(frame: GatewayPayloadView) -> Json {
    match frame {
        GatewayPayloadView::Hello { heartbeat_interval_ms } => record1(
            "heartbeat_interval_ms"@,
            Json::Unsigned { value: heartbeat_interval_ms },
        ),
        GatewayPayloadView::Identify { user_id } => record1("user_id"@, uuid_json(user_id.0)),
        GatewayPayloadView::Subscribe { channel_id } => record1(
            "channel_id"@,
            uuid_json(channel_id.0),
        ),
        GatewayPayloadView::MessageCreate { channel_id, content } => record2(
            "channel_id"@,
            uuid_json(channel_id.0),
            "content"@,
            Json::Text { text: content },
        ),
        GatewayPayloadView::Dispatch { t, d } => record2(
            "t"@,
            Json::Text { text: t },
            "d"@,
            event_json(d),
        ),
    }
}

/// The document that `frame` is written as.
pub open spec fn envelope_json(frame: GatewayPayloadView) -> Json {
    record2("op"@, Json::Text { text: op_of(frame) }, "d"@, payload_json(frame))
}

/// The names of members and the discriminants are told apart.
proof fn lemma_names_differ()
    ensures
        "op"@ != "d"@,
        "t"@ != "d"@,
        "channel_id"@ != "content"@,
        "id"@ != "channel_id"@,
        "id"@ != "author_connection_id"@,
        "id"@ != "content"@,
        "channel_id"@ != "author_connection_id"@,
        "author_connection_id"@ != "content"@,
        "Hello"@ != "Identify"@,
        "Hello"@ != "Subscribe"@,
        "Hello"@ != "MessageCreate"@,
        "Hello"@ != "Dispatch"@,
        "Identify"@ != "Subscribe"@,
        "Identify"@ != "MessageCreate"@,
        "Identify"@ != "Dispatch"@,
        "Subscribe"@ != "MessageCreate"@,
        "Subscribe"@ != "Dispatch"@,
        "MessageCreate"@ != "Dispatch"@,
{
    reveal_strlit("op");
    reveal_strlit("d");
    reveal_strlit("t");
    reveal_strlit("id");
    reveal_strlit("channel_id");
    reveal_strlit("author_connection_id");
    reveal_strlit("content");
    reveal_strlit("Hello");
    reveal_strlit("Identify");
    reveal_strlit("Subscribe");
    reveal_strlit("MessageCreate");
    reveal_strlit("Dispatch");
    assert("op"@.len() == 2 && "d"@.len() == 1 && "t"@.len() == 1 && "id"@.len() == 2);
    assert("channel_id"@.len() == 10 && "author_connection_id"@.len() == 20);
    assert("content"@.len() == 7);
    assert("Hello"@.len() == 5 && "Identify"@.len() == 8 && "Subscribe"@.len() == 9);
    assert("MessageCreate"@.len() == 13 && "Dispatch"@.len() == 8);
    assert("t"@[0] == 't' && "d"@[0] == 'd');
    assert("Identify"@[0] == 'I' && "Dispatch"@[0] == 'D');
}

fn same_text(text: &String, literal: &str) -> (same: bool)
    ensures
        same == (text@ == literal@),
{
    let other = literal.to_owned();
    text.eq(&other)
}

fn text_member(value: &serde_json::Value, key: &str) -> (found: Option<String>)
    ensures
        match found {
            Some(text) => field_text(json_of(*value), key@) == Some(text@),
            None => field_text(json_of(*value), key@).is_none(),
        },
{
    match member(value, key) {
        Some(inner) => as_text(inner),
        None => None,
    }
}

fn unsigned_member(value: &serde_json::Value, key: &str) -> (found: Option<u64>)
    ensures
        found == field_unsigned(json_of(*value), key@),
{
    match member(value, key) {
        Some(inner) => as_unsigned(inner),
        None => None,
    }
}

fn uuid_member(value: &serde_json::Value, key: &str) -> (found: Option<u128>)
    ensures
        found == field_uuid(json_of(*value), key@),
{
    match text_member(value, key) {
        Some(text) => parse_uuid(text.as_str()),
        None => None,
    }
}

fn ulid_member(value: &serde_json::Value, key: &str) -> (found: Option<u128>)
    ensures
        found == field_ulid(json_of(*value), key@),
{
    match text_member(value, key) {
        Some(text) => parse_ulid(text.as_str()),
        None => None,
    }
}

/// Reads an event from the document that spells it out.
pub fn decode_event(value: &serde_json::Value) -> (found: Option<MessageCreateEvent>)
    ensures
        match found {
            Some(event) => event_of(json_of(*value)) == Some(event@),
            None => event_of(json_of(*value)).is_none(),
        },
{
    let id = ulid_member(value, "id");
    let channel = uuid_member(value, "channel_id");
    let author = uuid_member(value, "author_connection_id");
    let content = text_member(value, "content");
    match (id, channel, author, content) {
        (Some(id), Some(channel), Some(author), Some(content)) => Some(
            MessageCreateEvent {
                id: EventId(id),
                channel_id: ChannelId(channel),
                author_connection_id: ConnectionId(author),
                content,
            },
        ),
        _ => None,
    }
}

fn decode_payload(op: &String, payload: &serde_json::Value) -> (found: Option<GatewayPayload>)
    ensures
        match found {
            Some(frame) => payload_of(op@, json_of(*payload)) == Some(frame@),
            None => payload_of(op@, json_of(*payload)).is_none(),
        },
{
    if same_text(op, "Hello") {
        match unsigned_member(payload, "heartbeat_interval_ms") {
            Some(heartbeat_interval_ms) => Some(GatewayPayload::Hello { heartbeat_interval_ms }),
            None => None,
        }
    } else if same_text(op, "Identify") {
        match uuid_member(payload, "user_id") {
            Some(id) => Some(GatewayPayload::Identify { user_id: UserId(id) }),
            None => None,
        }
    } else if same_text(op, "Subscribe") {
        match uuid_member(payload, "channel_id") {
            Some(id) => Some(GatewayPayload::Subscribe { channel_id: ChannelId(id) }),
            None => None,
        }
    } else if same_text(op, "MessageCreate") {
        let channel = uuid_member(payload, "channel_id");
        let content = text_member(payload, "content");
        match (channel, content) {
            (Some(id), Some(content)) => Some(
                GatewayPayload::MessageCreate { channel_id: ChannelId(id), content },
            ),
            _ => None,
        }
    } else if same_text(op, "Dispatch") {
        let t = text_member(payload, "t");
        let inner = member(payload, "d");
        match (t, inner) {
            (Some(t), Some(inner)) => match decode_event(inner) {
                Some(d) => Some(GatewayPayload::Dispatch { t, d }),
                None => None,
            },
            _ => None,
        }
    } else {
        None
    }
}

/// Reads a frame from a JSON document.
pub fn decode_value(value: &serde_json::Value) -> (outcome: Result<GatewayPayload, DecodeError>)
    ensures
        outcome_view(outcome) == frame_of(json_of(*value)),
{
    let op = match text_member(value, "op") {
        Some(op) => op,
        None => {
            return Err(DecodeError::Malformed);
        },
    };
    let known = same_text(&op, "Hello") || same_text(&op, "Identify") || same_text(
        &op,
        "Subscribe",
    ) || same_text(&op, "MessageCreate") || same_text(&op, "Dispatch");
    if !known {
        return Err(DecodeError::UnknownOp);
    }
    match member(value, "d") {
        None => Err(DecodeError::InvalidPayload),
        Some(payload) => match decode_payload(&op, payload) {
            Some(frame) => Ok(frame),
            None => Err(DecodeError::InvalidPayload),
        },
    }
}

/// Reads a frame from its text.
pub fn decode(text: &str) -> (outcome: Result<GatewayPayload, DecodeError>)
    ensures
        outcome_view(outcome) == decoded(json_parsed(text@)),
{
    match parse(text) {
        Ok(value) => decode_value(&value),
        Err(_) => Err(DecodeError::Malformed),
    }
}

fn uuid_value(value: u128) -> (document: serde_json::Value)
    ensures
        json_of(document) == uuid_json(value),
        uuid_parsed(uuid_rendered(value)) == Some(value),
{
    let text = uuid_text(value);
    text_value(text.as_str())
}

/// Writes an event as the document that spells it out.
pub fn event_value(event: &MessageCreateEvent) -> (document: serde_json::Value)
    ensures
        json_of(document) == event_json(event@),
        event_of(json_of(document)) == Some(event@),
{
    let id = ulid_text(event.id.0);
    let document = empty_object();
    let document = with_member(document, "id", text_value(id.as_str()));
    let document = with_member(document, "channel_id", uuid_value(event.channel_id.0));
    let document = with_member(
        document,
        "author_connection_id",
        uuid_value(event.author_connection_id.0),
    );
    let document = with_member(document, "content", text_value(event.content.as_str()));
    proof {
        lemma_names_differ();
    }
    document
}

fn payload_value(frame: &GatewayPayload) -> (document: serde_json::Value)
    ensures
        json_of(document) == payload_json(frame@),
        payload_of(op_of(frame@), json_of(document)) == Some(frame@),
{
    proof {
        lemma_names_differ();
    }
    match frame {
        GatewayPayload::Hello { heartbeat_interval_ms } => with_member(
            empty_object(),
            "heartbeat_interval_ms",
            unsigned_value(*heartbeat_interval_ms),
        ),
        GatewayPayload::Identify { user_id } => with_member(
            empty_object(),
            "user_id",
            uuid_value(user_id.0),
        ),
        GatewayPayload::Subscribe { channel_id } => with_member(
            empty_object(),
            "channel_id",
            uuid_value(channel_id.0),
        ),
        GatewayPayload::MessageCreate { channel_id, content } => {
            let document = with_member(empty_object(), "channel_id", uuid_value(channel_id.0));
            with_member(document, "content", text_value(content.as_str()))
        },
        GatewayPayload::Dispatch { t, d } => {
            let document = with_member(empty_object(), "t", text_value(t.as_str()));
            with_member(document, "d", event_value(d))
        },
    }
}

fn op_name(frame: &GatewayPayload) -> (name: &'static str)
    ensures
        name@ == op_of(frame@),
{
    match frame {
        GatewayPayload::Hello { .. } => "Hello",
        GatewayPayload::Identify { .. } => "Identify",
        GatewayPayload::Subscribe { .. } => "Subscribe",
        GatewayPayload::MessageCreate { .. } => "MessageCreate",
        GatewayPayload::Dispatch { .. } => "Dispatch",
    }
}

/// Writes a frame as a JSON document: the discriminant under `op`, then the
/// payload under `d`. Reading the document gives the frame back.
pub fn to_value(frame: &GatewayPayload) -> (document: serde_json::Value)
    ensures
        json_of(document) == envelope_json(frame@),
        is_frame_shaped(json_of(document)),
        frame_of(json_of(document)) == Ok::<GatewayPayloadView, DecodeError>(frame@),
{
    let op = text_value(op_name(frame));
    let payload = payload_value(frame);
    let document = with_member(empty_object(), "op", op);
    let document = with_member(document, "d", payload);
    proof {
        lemma_names_differ();
    }
    document
}

/// Writes a frame as text. Decoding the text gives the frame back.
pub fn encode(frame: &GatewayPayload) -> (text: String)
    ensures
        json_parsed(text@) == Some(envelope_json(frame@)),
        decoded(json_parsed(text@)) == Ok::<GatewayPayloadView, DecodeError>(frame@),
{
    let document = to_value(frame);
    render(&document)
}

} // verus!
