use chat_gateway::auth::TokenStore;
use chat_gateway::codec::{encode, DecodeError};
use chat_gateway::gateway::Gateway;
use chat_gateway::protocol::{make_dispatch, make_hello, GatewayPayload, MessageCreateEvent, HEARTBEAT_INTERVAL_MS};
use chat_gateway::registry::Registry;
use chat_gateway::session::{Session, SessionState, TransportError};
use chat_gateway::subscriptions::SubscriptionIndex;
use chat_gateway::types::{ChannelId, ConnectionId, EventId, Token, UserId};

const GENERAL: ChannelId = ChannelId(0x67656e6572616c);

fn event(id: u128, channel: ChannelId, author: ConnectionId, content: &str) -> MessageCreateEvent {
    MessageCreateEvent { id: EventId(id), channel_id: channel, author_connection_id: author, content: content.to_string() }
}

fn drain(gateway: &mut Gateway, id: ConnectionId) -> Vec<GatewayPayload> {
    let mut frames = Vec::new();
    while let Some(frame) = gateway.registry.dequeue(id) {
        frames.push(frame);
    }
    frames
}

#[test]
fn registry_register_lookup_deregister() {
    let mut registry = Registry::new();
    assert_eq!(registry.len(), 0);
    assert!(registry.lookup(ConnectionId(1)).is_none());
    registry.register(ConnectionId(1));
    registry.register(ConnectionId(2));
    assert_eq!(registry.len(), 2);
    assert!(registry.contains(ConnectionId(1)));
    let entry = registry.lookup(ConnectionId(2)).unwrap();
    assert_eq!(entry.id, ConnectionId(2));
    assert!(entry.outbound.is_empty());
    registry.deregister(ConnectionId(1));
    assert!(!registry.contains(ConnectionId(1)));
    assert_eq!(registry.len(), 1);
    registry.deregister(ConnectionId(1));
    assert_eq!(registry.len(), 1);
}

#[test]
fn registering_again_replaces_the_queue() {
    let mut registry = Registry::new();
    registry.register(ConnectionId(1));
    assert!(registry.enqueue(ConnectionId(1), make_hello()));
    registry.register(ConnectionId(1));
    assert_eq!(registry.len(), 1);
    assert!(registry.lookup(ConnectionId(1)).unwrap().outbound.is_empty());
}

#[test]
fn queue_is_first_in_first_out() {
    let mut registry = Registry::new();
    registry.register(ConnectionId(1));
    assert!(registry.enqueue(ConnectionId(1), GatewayPayload::Hello { heartbeat_interval_ms: 1 }));
    assert!(registry.enqueue(ConnectionId(1), GatewayPayload::Hello { heartbeat_interval_ms: 2 }));
    assert!(registry.enqueue(ConnectionId(1), GatewayPayload::Hello { heartbeat_interval_ms: 3 }));
    assert!(!registry.enqueue(ConnectionId(9), GatewayPayload::Hello { heartbeat_interval_ms: 4 }));
    assert_eq!(registry.dequeue(ConnectionId(1)), Some(GatewayPayload::Hello { heartbeat_interval_ms: 1 }));
    assert_eq!(registry.dequeue(ConnectionId(1)), Some(GatewayPayload::Hello { heartbeat_interval_ms: 2 }));
    assert_eq!(registry.dequeue(ConnectionId(1)), Some(GatewayPayload::Hello { heartbeat_interval_ms: 3 }));
    assert_eq!(registry.dequeue(ConnectionId(1)), None);
    assert_eq!(registry.dequeue(ConnectionId(9)), None);
}

#[test]
fn subscribing_twice_is_subscribing_once() {
    let mut index = SubscriptionIndex::new();
    index.subscribe(GENERAL, ConnectionId(1));
    index.subscribe(GENERAL, ConnectionId(1));
    index.subscribe(GENERAL, ConnectionId(1));
    assert_eq!(index.subscribers_of(GENERAL), vec![ConnectionId(1)]);
    assert!(index.is_subscribed(GENERAL, ConnectionId(1)));
    assert!(!index.is_subscribed(ChannelId(5), ConnectionId(1)));
    assert!(index.subscribers_of(ChannelId(5)).is_empty());
}

#[test]
fn unsubscribe_all_leaves_every_channel() {
    let mut index = SubscriptionIndex::new();
    index.subscribe(ChannelId(1), ConnectionId(1));
    index.subscribe(ChannelId(1), ConnectionId(2));
    index.subscribe(ChannelId(2), ConnectionId(1));
    index.subscribe(ChannelId(3), ConnectionId(1));
    index.subscribe(ChannelId(3), ConnectionId(3));
    index.unsubscribe_all(ConnectionId(1));
    assert_eq!(index.subscribers_of(ChannelId(1)), vec![ConnectionId(2)]);
    assert!(index.subscribers_of(ChannelId(2)).is_empty());
    assert_eq!(index.subscribers_of(ChannelId(3)), vec![ConnectionId(3)]);
    index.unsubscribe_all(ConnectionId(7));
    assert_eq!(index.subscribers_of(ChannelId(1)), vec![ConnectionId(2)]);
}

#[test]
fn hello_payload_is_sent_on_connect() {
    let mut gateway = Gateway::new();
    let mut session = Session::accept(&mut gateway);
    let id = session.id();
    assert_eq!(session.state(), SessionState::Registered);
    assert_eq!(gateway.registry.len(), 1);
    assert!(gateway.registry.contains(id));
    let first = gateway.registry.dequeue(id).unwrap();
    assert_eq!(encode(&first), r#"{"op":"Hello","d":{"heartbeat_interval_ms":25000}}"#);
    assert_eq!(gateway.registry.dequeue(id), None);
    session.on_close();
    assert_eq!(session.state(), SessionState::Closing);
    assert_eq!(session.teardown(&mut gateway), Ok(()));
    assert_eq!(session.state(), SessionState::Terminated);
    assert_eq!(gateway.registry.len(), 0);
}

#[test]
fn accepted_connections_get_different_identifiers() {
    let mut gateway = Gateway::new();
    let a = Session::accept(&mut gateway);
    let b = Session::accept(&mut gateway);
    assert_ne!(a.id(), b.id());
    assert_eq!(gateway.registry.len(), 2);
}

#[test]
fn greeting_stays_first_when_a_message_arrives_before_it_is_sent() {
    let mut gateway = Gateway::new();
    let mut a = Session::new(ConnectionId(1));
    assert_eq!(a.state(), SessionState::Connecting);
    a.start(&mut gateway);
    a.on_frame(&mut gateway, GatewayPayload::Subscribe { channel_id: GENERAL }, EventId(1));
    a.on_frame(&mut gateway, GatewayPayload::MessageCreate { channel_id: GENERAL, content: "x".to_string() }, EventId(2));
    let frames = drain(&mut gateway, ConnectionId(1));
    assert_eq!(frames.len(), 2);
    assert_eq!(frames[0], GatewayPayload::Hello { heartbeat_interval_ms: HEARTBEAT_INTERVAL_MS });
    assert_eq!(frames[1], make_dispatch(event(2, GENERAL, ConnectionId(1), "x")));
}

#[test]
fn two_subscribers_each_get_one_dispatch() {
    let mut gateway = Gateway::new();
    let mut a = Session::new(ConnectionId(1));
    let mut b = Session::new(ConnectionId(2));
    let mut c = Session::new(ConnectionId(3));
    a.start(&mut gateway);
    b.start(&mut gateway);
    c.start(&mut gateway);
    a.on_frame(&mut gateway, GatewayPayload::Subscribe { channel_id: GENERAL }, EventId(0));
    b.on_frame(&mut gateway, GatewayPayload::Subscribe { channel_id: GENERAL }, EventId(0));
    b.on_frame(&mut gateway, GatewayPayload::Subscribe { channel_id: GENERAL }, EventId(0));
    c.on_frame(&mut gateway, GatewayPayload::Subscribe { channel_id: ChannelId(99) }, EventId(0));
    assert!(a.is_member_of(GENERAL));
    assert!(!c.is_member_of(GENERAL));
    a.on_frame(&mut gateway, GatewayPayload::MessageCreate { channel_id: GENERAL, content: "hi".to_string() }, EventId(77));
    let expected = GatewayPayload::Dispatch {
        t: "MESSAGE_CREATE".to_string(),
        d: event(77, GENERAL, ConnectionId(1), "hi"),
    };
    for id in [ConnectionId(1), ConnectionId(2)] {
        let frames = drain(&mut gateway, id);
        assert_eq!(frames.len(), 2);
        assert_eq!(frames[0], make_hello());
        assert_eq!(frames[1], expected);
    }
    assert_eq!(drain(&mut gateway, ConnectionId(3)), vec![make_hello()]);
}

#[test]
fn publish_through_text_uses_a_fresh_event_id() {
    let mut gateway = Gateway::new();
    let mut a = Session::accept(&mut gateway);
    let id = a.id();
    let subscribe = encode(&GatewayPayload::Subscribe { channel_id: GENERAL });
    let message = encode(&GatewayPayload::MessageCreate { channel_id: GENERAL, content: "hi".to_string() });
    assert_eq!(a.on_text(&mut gateway, &subscribe), Ok(()));
    assert_eq!(a.on_text(&mut gateway, &message), Ok(()));
    assert_eq!(a.on_text(&mut gateway, &message), Ok(()));
    let frames = drain(&mut gateway, id);
    assert_eq!(frames.len(), 3);
    let mut ids = Vec::new();
    for frame in &frames[1..] {
        match frame {
            GatewayPayload::Dispatch { t, d } => {
                assert_eq!(t, "MESSAGE_CREATE");
                assert_eq!(d.content, "hi");
                assert_eq!(d.author_connection_id, id);
                assert_eq!(d.channel_id, GENERAL);
                ids.push(d.id);
            }
            other => panic!("not a dispatch: {:?}", other),
        }
    }
    assert_ne!(ids[0], ids[1]);
}

#[test]
fn publish_without_subscribers_changes_nothing() {
    let mut gateway = Gateway::new();
    let mut a = Session::new(ConnectionId(1));
    a.start(&mut gateway);
    gateway.publish(&event(1, GENERAL, ConnectionId(1), "nobody"));
    assert_eq!(drain(&mut gateway, ConnectionId(1)), vec![make_hello()]);
}

#[test]
fn no_delivery_after_disconnect() {
    let mut gateway = Gateway::new();
    let mut a = Session::new(ConnectionId(1));
    let mut b = Session::new(ConnectionId(2));
    a.start(&mut gateway);
    b.start(&mut gateway);
    a.on_frame(&mut gateway, GatewayPayload::Subscribe { channel_id: GENERAL }, EventId(0));
    b.on_frame(&mut gateway, GatewayPayload::Subscribe { channel_id: GENERAL }, EventId(0));
    b.on_transport_error(TransportError { detail: "reset".to_string() });
    assert_eq!(b.state(), SessionState::Closing);
    assert_eq!(b.teardown(&mut gateway), Err(TransportError { detail: "reset".to_string() }));
    assert!(!b.is_member_of(GENERAL));
    assert!(!gateway.subscriptions.is_subscribed(GENERAL, ConnectionId(2)));
    gateway.publish(&event(5, GENERAL, ConnectionId(1), "late"));
    assert!(gateway.registry.lookup(ConnectionId(2)).is_none());
    assert_eq!(gateway.registry.dequeue(ConnectionId(2)), None);
    assert_eq!(drain(&mut gateway, ConnectionId(1)).len(), 2);
}

#[test]
fn member_that_left_the_registry_is_passed_over() {
    let mut gateway = Gateway::new();
    gateway.registry.register(ConnectionId(1));
    gateway.subscriptions.subscribe(GENERAL, ConnectionId(1));
    gateway.subscriptions.subscribe(GENERAL, ConnectionId(2));
    gateway.publish(&event(5, GENERAL, ConnectionId(1), "x"));
    assert_eq!(gateway.registry.len(), 1);
    assert_eq!(drain(&mut gateway, ConnectionId(1)).len(), 1);
}

#[test]
fn identify_makes_the_session_active() {
    let mut gateway = Gateway::new();
    let mut a = Session::new(ConnectionId(1));
    a.start(&mut gateway);
    assert_eq!(a.user(), None);
    a.on_frame(&mut gateway, GatewayPayload::Identify { user_id: UserId(8) }, EventId(0));
    assert_eq!(a.user(), Some(UserId(8)));
    assert_eq!(a.state(), SessionState::Active);
    a.on_frame(&mut gateway, GatewayPayload::Hello { heartbeat_interval_ms: 1 }, EventId(0));
    assert_eq!(a.state(), SessionState::Active);
    assert_eq!(drain(&mut gateway, ConnectionId(1)), vec![make_hello()]);
}

#[test]
fn malformed_text_keeps_the_connection() {
    let mut gateway = Gateway::new();
    let mut a = Session::new(ConnectionId(1));
    a.start(&mut gateway);
    assert_eq!(a.on_text(&mut gateway, "{{{"), Err(DecodeError::Malformed));
    assert_eq!(a.on_text(&mut gateway, r#"{"op":"Bogus","d":{}}"#), Err(DecodeError::UnknownOp));
    assert_eq!(a.state(), SessionState::Registered);
    assert!(gateway.registry.contains(ConnectionId(1)));
}

#[test]
fn frames_before_start_and_after_close_are_ignored() {
    let mut gateway = Gateway::new();
    let mut a = Session::new(ConnectionId(1));
    a.on_frame(&mut gateway, GatewayPayload::Subscribe { channel_id: GENERAL }, EventId(0));
    assert!(!gateway.subscriptions.is_subscribed(GENERAL, ConnectionId(1)));
    a.start(&mut gateway);
    a.on_close();
    a.on_frame(&mut gateway, GatewayPayload::Identify { user_id: UserId(1) }, EventId(0));
    assert_eq!(a.user(), None);
    a.on_transport_error(TransportError { detail: "late".to_string() });
    assert_eq!(a.teardown(&mut gateway), Ok(()));
}

#[test]
fn login_binds_the_token_to_the_user() {
    let mut store = TokenStore::new();
    let response = store.login();
    assert_eq!(store.lookup(response.token), Some(response.user_id));
    let issued = store.issue(Token(5), UserId(6));
    assert_eq!(issued.token, Token(5));
    assert_eq!(issued.user_id, UserId(6));
    assert_eq!(store.lookup(Token(5)), Some(UserId(6)));
    assert_eq!(store.lookup(Token(7)), None);
    let other = store.login();
    assert_ne!(other.token, response.token);
}
