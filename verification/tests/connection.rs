use restate_node::channel::Outcome;
use restate_node::connection::{
    CodecError, Connection, ConnectionSender, GenerationalNodeId, NetworkError, ProtocolError, ProtocolVersion,
    SendAction, SendEvent, Sending,
};
use restate_node::message::{Body, ConnectionControl, Header, Message};
use std::sync::Arc;
use std::time::Instant;
use tokio::sync::mpsc;

const PEER: GenerationalNodeId = GenerationalNodeId {
    id: 4,
    generation: 2,
};
const VERSION: ProtocolVersion = ProtocolVersion { number: 1 };

fn connect(buffer: usize) -> (Connection<u32>, mpsc::Receiver<Message>) {
    let (sender, receiver) = mpsc::channel(buffer);
    (Connection::new(PEER, VERSION, sender, 17), receiver)
}

fn control() -> ConnectionControl {
    ConnectionControl {
        signal: 2,
        message: "drain".to_string(),
    }
}

fn control_frame() -> Message {
    Message {
        header: None,
        body: Some(Body::ConnectionControl(control())),
    }
}

fn identified(cid: u64, peer: GenerationalNodeId) -> Connection<u32> {
    let (sender, _) = mpsc::channel(1);
    Connection::identified(cid, Instant::now(), peer, VERSION, sender, 17)
}

#[test]
fn new_connection_has_its_parts() {
    let before = Instant::now();
    let (connection, _receiver) = connect(1);
    assert_eq!(connection.peer, PEER);
    assert_eq!(connection.protocol_version(), VERSION);
    assert_eq!(connection.updateable_nodes_config, 17);
    assert!(connection.created >= before);
}

#[test]
fn connection_identifiers_are_drawn() {
    let drawn: Vec<u64> = (0..8).map(|_| connect(1).0.cid).collect();
    assert!(drawn.iter().any(|cid| *cid != drawn[0]));
}

#[test]
fn control_frame_goes_to_the_channel() {
    let (connection, mut receiver) = connect(1);
    let attempt = connection.send_control_frame(control());
    assert_eq!(attempt.outcome(), &Outcome::Sent);
    assert_eq!(receiver.try_recv().unwrap(), control_frame());
    assert!(receiver.try_recv().is_err());
}

#[test]
fn control_frame_does_not_wait_for_room() {
    let (connection, mut receiver) = connect(1);
    connection.send_control_frame(control());
    let attempt = connection.send_control_frame(control());
    assert_eq!(attempt.outcome(), &Outcome::Full(control_frame()));
    assert!(receiver.try_recv().is_ok());
    assert!(receiver.try_recv().is_err());
}

#[test]
fn control_frame_may_meet_a_closed_channel() {
    let (connection, receiver) = connect(1);
    drop(receiver);
    let attempt = connection.send_control_frame(control());
    assert_eq!(attempt.outcome(), &Outcome::Closed(control_frame()));
}

#[test]
fn identifier_and_peer_make_a_connection() {
    let other = GenerationalNodeId {
        generation: 3,
        ..PEER
    };
    assert!(identified(1, PEER) == identified(1, PEER));
    assert!(identified(1, PEER) != identified(2, PEER));
    assert!(identified(1, PEER) != identified(1, other));
}

fn connect_shared(buffer: usize) -> (Arc<Connection<u32>>, mpsc::Receiver<Message>) {
    let (connection, receiver) = connect(buffer);
    (Arc::new(connection), receiver)
}

#[test]
fn sender_has_the_parts_of_its_connection() {
    let (connection, _receiver) = connect_shared(1);
    let sender = connection.sender().clone();
    assert_eq!(sender.peer, PEER);
    assert_eq!(sender.protocol_version, VERSION);
    assert_eq!(sender.nodes_config, 17);
}

#[test]
fn sender_leads_back_to_its_connection() {
    let (connection, _receiver) = connect_shared(1);
    let (_other, _other_receiver) = connect_shared(1);
    for sender in [connection.sender(), connection.sender().clone()] {
        match sender.upgrade() {
            SendEvent::Upgraded(Some(found)) => assert!(Arc::ptr_eq(&found, &connection)),
            other => panic!("{other:?}"),
        }
    }
}

#[test]
fn sender_does_not_keep_its_connection_open() {
    let (connection, _receiver) = connect_shared(1);
    let sender = connection.sender();
    let copy = sender.clone();
    drop(connection);
    assert!(matches!(sender.upgrade(), SendEvent::Upgraded(None)));
    assert!(matches!(copy.upgrade(), SendEvent::Upgraded(None)));
}

fn begin() -> (Sending, Arc<Connection<u32>>) {
    let (connection, _receiver) = connect_shared(1);
    let (sending, action) = connection.sender().send(9);
    assert!(matches!(action, SendAction::Serialize(version) if version == VERSION));
    (sending, connection)
}

fn step(sending: Sending, event: SendEvent<u32>) -> (Sending, SendAction<u32>) {
    assert!(sending.accepts(&event));
    sending.step(event)
}

fn encoded(number: u8) -> Message {
    Message {
        header: Some(Header {
            my_nodes_config_version: 9,
        }),
        body: Some(Body::Encoded(vec![number])),
    }
}

fn upgraded() -> Sending {
    let (sending, connection) = begin();
    let (sending, action) = step(sending, SendEvent::Serialized(Ok(Body::Encoded(vec![1]))));
    assert!(matches!(action, SendAction::Upgrade));
    let (sending, action) = step(sending, connection.sender().upgrade());
    match action {
        SendAction::Enqueue {
            connection: to,
            message,
        } => {
            assert!(Arc::ptr_eq(&to, &connection));
            assert_eq!(message, encoded(1));
        }
        other => panic!("{other:?}"),
    }
    sending
}

fn ended(action: SendAction<u32>) -> (Result<(), NetworkError>, bool) {
    match action {
        SendAction::Return { result, measured } => (result, measured),
        other => panic!("{other:?}"),
    }
}

#[test]
fn sending_succeeds_once_enqueued() {
    let (sending, action) = step(upgraded(), SendEvent::Enqueued(true));
    assert_eq!(ended(action), (Ok(()), true));
    assert!(!sending.accepts::<u32>(&SendEvent::Enqueued(true)));
}

#[test]
fn sending_fails_where_the_message_has_no_wire_format() {
    let error = || CodecError {
        description: "too new".to_string(),
    };
    let (_, action) = step(begin().0, SendEvent::Serialized(Err(error())));
    assert_eq!(
        ended(action),
        (
            Err(NetworkError::ProtocolError(ProtocolError::Codec(error()))),
            false
        )
    );
}

#[test]
fn sending_fails_where_the_connection_is_gone() {
    let (sending, connection) = begin();
    let sender = connection.sender();
    drop(connection);
    let (sending, _) = step(sending, SendEvent::Serialized(Ok(Body::Encoded(vec![]))));
    let (_, action) = step(sending, sender.upgrade());
    assert_eq!(ended(action), (Err(NetworkError::ConnectionClosed), false));
}

#[test]
fn sending_fails_where_the_send_buffer_is_closed() {
    let (_, action) = step(upgraded(), SendEvent::Enqueued(false));
    assert_eq!(ended(action), (Err(NetworkError::ConnectionClosed), true));
}

#[test]
fn serialized_message_goes_to_the_connection_of_the_handle() {
    let (connection, _receiver) = connect_shared(1);
    let (_other, _other_receiver) = connect_shared(1);
    let header = Header {
        my_nodes_config_version: 9,
    };
    let (sending, action) = connection
        .sender()
        .serialized(header, Ok(Body::Encoded(vec![1])));
    assert!(matches!(sending, Sending::Enqueueing));
    match action {
        SendAction::Enqueue {
            connection: to,
            message,
        } => {
            assert!(Arc::ptr_eq(&to, &connection));
            assert_eq!(message, encoded(1));
        }
        other => panic!("{other:?}"),
    }
}

#[test]
fn serialized_message_meets_a_connection_that_is_gone() {
    let (connection, _receiver) = connect_shared(1);
    let sender = connection.sender();
    drop(connection);
    let (sending, action) = sender.serialized(Header::new(9), Ok(Body::Encoded(vec![1])));
    assert!(matches!(sending, Sending::Finished));
    assert_eq!(ended(action), (Err(NetworkError::ConnectionClosed), false));
}

#[test]
fn message_without_wire_format_is_not_enqueued() {
    let (connection, _receiver) = connect_shared(1);
    let error = || CodecError {
        description: "too new".to_string(),
    };
    let (sending, action) = connection.sender().serialized(Header::new(9), Err(error()));
    assert!(matches!(sending, Sending::Finished));
    assert_eq!(
        ended(action),
        (
            Err(NetworkError::ProtocolError(ProtocolError::Codec(error()))),
            false
        )
    );
}

/// Drives one sending to its end, without waiting for room.
fn send(sender: &ConnectionSender<u32>, number: u8) -> Result<(), NetworkError> {
    let (mut sending, mut action) = sender.send(9);
    loop {
        let event = match action {
            SendAction::Serialize(_) => SendEvent::Serialized(Ok(Body::Encoded(vec![number]))),
            SendAction::Upgrade => sender.upgrade(),
            SendAction::Enqueue {
                connection,
                message,
            } => SendEvent::Enqueued(connection.sender.try_send(message).is_ok()),
            SendAction::Return { result, .. } => return result,
        };
        (sending, action) = step(sending, event);
    }
}

#[test]
fn messages_keep_their_order() {
    let (connection, mut receiver) = connect_shared(3);
    let sender = connection.sender();
    assert!(send(&sender, 1).is_ok());
    assert!(send(&sender.clone(), 2).is_ok());
    assert!(send(&connection.sender(), 3).is_ok());
    assert_eq!(send(&sender, 4), Err(NetworkError::ConnectionClosed));
    for number in [1, 2, 3] {
        assert_eq!(receiver.try_recv().unwrap(), encoded(number));
    }
    assert!(receiver.try_recv().is_err());
}
