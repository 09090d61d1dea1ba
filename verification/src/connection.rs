//! Streaming connections to other nodes.

use crate::channel::{try_send, Attempt, Outcome};
use crate::link::{law_answer_is_that_of_the_lookup, Link};
use crate::message::{Body, ConnectionControl, Header, Message, Version};
use std::sync::Arc;
use std::time::Instant;
use tokio::sync::mpsc;
use vstd::prelude::*;

verus! {

/// Declares [`std::time::Instant`]. Nothing is claimed of it here.
#[verifier::external_type_specification]
#[verifier::external_body]
pub struct ExInstant(Instant);

/// [`Instant::now`]. Nothing is claimed of the time that it gives.
pub assume_specification[ Instant::now ]() -> Instant;

/// [`rand::random`]. Nothing is claimed of the number that it draws.
#[verifier::external_body]
pub(crate) fn random_id() -> u64 {
    rand::random()
}

/// Whether this number was drawn for an identifier. Only [`random_id`] draws one.
pub closed spec fn is_drawn(number: u64) -> bool {
    call_ensures(random_id, (), number)
}

/// A drawn number is one that the random source gave.
pub(crate) proof fn law_drawn_number_is_that_of_the_random_source(number: u64)
    ensures
        is_drawn(number) <==> call_ensures(random_id, (), number),
{
}

/// One life of a node: its identity, and how often it has been started.
#[derive(Clone, Copy, Debug, PartialEq, Eq, Structural)]
pub struct GenerationalNodeId {
    pub id: u32,
    pub generation: u32,
}

/// A version of the protocol between nodes, negotiated per connection.
#[derive(Clone, Copy, Debug, PartialEq, Eq, Structural)]
pub struct ProtocolVersion {
    pub number: i32,
}

/// A single streaming connection with a channel to the peer. A connection can be
/// opened by either end and has no direction. Any connection can be used to send
/// to a peer or to receive from it.
///
/// `N` gives access to the nodes configuration as it is at the time.
#[derive(Debug)]
pub struct Connection<N> {
    /// The connection's identifier, drawn at random on this end of it.
    pub cid: u64,
    pub peer: GenerationalNodeId,
    pub protocol_version: ProtocolVersion,
    pub sender: mpsc::Sender<Message>,
    pub created: Instant,
    pub updateable_nodes_config: N,
}

/// The frame that carries a signal about the connection: it has no header.
pub open spec fn control_frame(control: ConnectionControl) -> Message {
    Message { header: None, body: Some(Body::ConnectionControl(control)) }
}

impl<N> Connection<N> {
    /// A new connection to a peer. Its identifier is random, and its time of
    /// creation is now.
    pub fn new(
        peer: GenerationalNodeId,
        protocol_version: ProtocolVersion,
        sender: mpsc::Sender<Message>,
        updateable_nodes_config: N,
    ) -> (connection: Connection<N>)
        ensures
            connection == (Connection {
                cid: connection.cid,
                peer,
                protocol_version,
                sender,
                created: connection.created,
                updateable_nodes_config,
            }),
            is_drawn(connection.cid),
            call_ensures(Instant::now, (), connection.created),
    {
        Connection::identified(
            random_id(),
            Instant::now(),
            peer,
            protocol_version,
            sender,
            updateable_nodes_config,
        )
    }

    /// The connection with the given identifier and time of creation.
    pub fn identified(
        cid: u64,
        created: Instant,
        peer: GenerationalNodeId,
        protocol_version: ProtocolVersion,
        sender: mpsc::Sender<Message>,
        updateable_nodes_config: N,
    ) -> (connection: Connection<N>)
        ensures
            connection == (Connection {
                cid,
                peer,
                protocol_version,
                sender,
                created,
                updateable_nodes_config,
            }),
    {
        Connection { cid, peer, protocol_version, sender, created, updateable_nodes_config }
    }

    /// The negotiated protocol version of this connection.
    pub fn protocol_version(&self) -> (version: ProtocolVersion)
        ensures
            version == self.protocol_version,
    {
        self.protocol_version
    }

    /// Best-effort delivery of a signal on this connection: one attempt, which does
    /// not wait for room in the send buffer. Callers need not look at how it ended.
    pub fn send_control_frame(&self, control: ConnectionControl) -> (attempt: Attempt)
        ensures
            attempt.channel() == self.sender,
            attempt.message() == control_frame(control),
            attempt.message().header is None,
            attempt.message().body matches Some(Body::ConnectionControl(sent)) && sent.signal
                == control.signal && sent.message == control.message,
            match attempt.result() {
                Outcome::Sent => true,
                Outcome::Full(returned) => returned == control_frame(control),
                Outcome::Closed(returned) => returned == control_frame(control),
            },
    {
        let message = Message { header: None, body: Some(Body::from(control)) };
        try_send(&self.sender, message)
    }

    /// A handle that sends messages through this connection, without keeping it
    /// open. It hides the wire protocol from its user and guarantees the order of
    /// messages: the send buffer takes them in the order in which they are sent.
    pub fn sender(self: &Arc<Self>) -> (sender: ConnectionSender<N>) where N: Clone
        ensures
            sender.is_sender_of(**self),
            sender.peer == self.peer,
            sender.connection.target() == **self,
            sender.protocol_version == self.protocol_version,
            cloned(self.updateable_nodes_config, sender.nodes_config),
    {
        ConnectionSender {
            peer: self.peer,
            connection: Link::downgrade(self),
            protocol_version: self.protocol_version,
            nodes_config: self.updateable_nodes_config.clone(),
        }
    }
}

/// Two connections are the same where identifier and peer are.
impl<N> PartialEq for Connection<N> {
    fn eq(&self, other: &Connection<N>) -> (same: bool) {
        self.cid == other.cid && self.peer == other.peer
    }
}

impl<N> vstd::std_specs::cmp::PartialEqSpecImpl for Connection<N> {
    open spec fn obeys_eq_spec() -> bool {
        true
    }

    open spec fn eq_spec(&self, other: &Connection<N>) -> bool {
        self.cid == other.cid && self.peer == other.peer
    }
}

/// A handle to send messages through a connection. It is cheap to hold and to
/// clone, also where the connection is gone.
///
/// `N` gives access to the nodes configuration as it is at the time.
#[verifier::reject_recursive_types(N)]
pub struct ConnectionSender<N> {
    pub peer: GenerationalNodeId,
    pub connection: Link<N>,
    pub protocol_version: ProtocolVersion,
    pub nodes_config: N,
}

impl<N: Clone> ConnectionSender<N> {
    /// Whether this handle leads back to a connection, sends to its peer in its
    /// protocol version, and has access to the same nodes configuration.
    pub open spec fn is_sender_of(self, connection: Connection<N>) -> bool {
        &&& self.peer == connection.peer
        &&& self.connection.target() == connection
        &&& self.protocol_version == connection.protocol_version
        &&& cloned(connection.updateable_nodes_config, self.nodes_config)
    }

    /// Whether this handle is a clone of another.
    pub open spec fn is_clone_of(self, other: ConnectionSender<N>) -> bool {
        &&& self.peer == other.peer
        &&& self.connection.target() == other.connection.target()
        &&& self.protocol_version == other.protocol_version
        &&& cloned(other.nodes_config, self.nodes_config)
    }
}

impl<N: Clone> Clone for ConnectionSender<N> {
    fn clone(&self) -> (copy: ConnectionSender<N>)
        ensures
            copy.is_clone_of(*self),
            copy.peer == self.peer,
            copy.connection.target() == self.connection.target(),
            copy.protocol_version == self.protocol_version,
            cloned(self.nodes_config, copy.nodes_config),
    {
        ConnectionSender {
            peer: self.peer,
            connection: self.connection.clone(),
            protocol_version: self.protocol_version,
            nodes_config: self.nodes_config.clone(),
        }
    }
}

/// Why a message could not be brought into its wire format.
#[derive(Debug, PartialEq, Eq)]
pub struct CodecError {
    pub description: String,
}

/// A failure to follow the wire protocol.
#[derive(Debug, PartialEq, Eq)]
pub enum ProtocolError {
    Codec(CodecError),
}

/// A failure to send.
#[derive(Debug, PartialEq, Eq)]
pub enum NetworkError {
    ConnectionClosed,
    ProtocolError(ProtocolError),
}

impl From<ProtocolError> for NetworkError {
    fn from(error: ProtocolError) -> (result: NetworkError) {
        NetworkError::ProtocolError(error)
    }
}

impl vstd::std_specs::convert::FromSpecImpl<ProtocolError> for NetworkError {
    open spec fn obeys_from_spec() -> bool {
        true
    }

    open spec fn from_spec(error: ProtocolError) -> NetworkError {
        NetworkError::ProtocolError(error)
    }
}

/// The sending of one message: how far it has come.
#[derive(Debug)]
pub enum Sending {
    /// The message is being brought into its wire format.
    Serializing { header: Header },
    /// The connection is being looked up.
    Upgrading { message: Message },
    /// The message waits for room in the send buffer.
    Enqueueing,
    /// The sending has ended.
    Finished,
}

/// How the last action of a sending ended.
#[derive(Debug)]
pub enum SendEvent<N> {
    /// The message in its wire format.
    Serialized(Result<Body, CodecError>),
    /// The connection, where it is still open.
    Upgraded(Option<Arc<Connection<N>>>),
    /// Whether the send buffer has taken the message.
    Enqueued(bool),
}

/// What to do next in a sending.
#[derive(Debug)]
pub enum SendAction<N> {
    /// Bring the message into the wire format of a protocol version.
    Serialize(ProtocolVersion),
    /// Look up the connection, by [`ConnectionSender::upgrade`].
    Upgrade,
    /// Put a message into the send buffer of a connection, its `sender`, once there
    /// is room.
    Enqueue { connection: Arc<Connection<N>>, message: Message },
    /// Nothing: this is how the sending ended. Where it is `measured`, it is
    /// counted as a message sent, and its duration is recorded.
    Return { result: Result<(), NetworkError>, measured: bool },
}

impl Sending {
    /// Whether the sending waits for such an event.
    pub open spec fn awaits<N>(self, event: SendEvent<N>) -> bool {
        match self {
            Sending::Serializing { .. } => event is Serialized,
            Sending::Upgrading { .. } => event is Upgraded,
            Sending::Enqueueing => event is Enqueued,
            Sending::Finished => false,
        }
    }

    /// Where a sending stands after an event that it waits for, and what it does
    /// next.
    pub open spec fn after<N>(self, event: SendEvent<N>) -> (Sending, SendAction<N>)
        recommends
            self.awaits(event),
    {
        match (self, event) {
            (Sending::Serializing { header }, SendEvent::Serialized(Ok(body))) => (
                Sending::Upgrading {
                    message: Message { header: Some(header), body: Some(body) },
                },
                SendAction::Upgrade,
            ),
            (_, SendEvent::Serialized(Err(error))) => (
                Sending::Finished,
                SendAction::Return {
                    result: Err(NetworkError::ProtocolError(ProtocolError::Codec(error))),
                    measured: false,
                },
            ),
            (Sending::Upgrading { message }, SendEvent::Upgraded(Some(connection))) => (
                Sending::Enqueueing,
                SendAction::Enqueue { connection, message },
            ),
            (_, SendEvent::Upgraded(None)) => (
                Sending::Finished,
                SendAction::Return {
                    result: Err(NetworkError::ConnectionClosed),
                    measured: false,
                },
            ),
            (_, SendEvent::Enqueued(accepted)) => (
                Sending::Finished,
                SendAction::Return {
                    result: if accepted {
                        Ok(())
                    } else {
                        Err(NetworkError::ConnectionClosed)
                    },
                    measured: true,
                },
            ),
            _ => arbitrary(),
        }
    }

    /// Whether this sending waits for such an event.
    pub fn accepts<N>(&self, event: &SendEvent<N>) -> (accepted: bool)
        ensures
            accepted == self.awaits(*event),
            accepted <==> {
                ||| self is Serializing && event is Serialized
                ||| self is Upgrading && event is Upgraded
                ||| self is Enqueueing && event is Enqueued
            },
    {
        match (self, event) {
            (Sending::Serializing { .. }, SendEvent::Serialized(_)) => true,
            (Sending::Upgrading { .. }, SendEvent::Upgraded(_)) => true,
            (Sending::Enqueueing, SendEvent::Enqueued(_)) => true,
            _ => false,
        }
    }

    /// Goes on with the sending once its last action has ended.
    pub fn step<N>(self, event: SendEvent<N>) -> (next: (Sending, SendAction<N>))
        requires
            self.awaits(event),
        ensures
            next == self.after(event),
            match event {
                SendEvent::Serialized(Ok(body)) => {
                    &&& next.0 matches Sending::Upgrading { message } && message.header == Some(
                        self->header,
                    ) && message.body == Some(body)
                    &&& next.1 is Upgrade
                },
                SendEvent::Serialized(Err(error)) => {
                    &&& next.0 is Finished
                    &&& next.1 matches SendAction::Return { result, measured } && result == Err::<
                        (),
                        NetworkError,
                    >(NetworkError::ProtocolError(ProtocolError::Codec(error))) && !measured
                },
                SendEvent::Upgraded(Some(found)) => {
                    &&& next.0 is Enqueueing
                    &&& next.1 matches SendAction::Enqueue { connection, message } && connection
                        == found && message == self->message
                },
                SendEvent::Upgraded(None) => {
                    &&& next.0 is Finished
                    &&& next.1 matches SendAction::Return { result, measured } && result == Err::<
                        (),
                        NetworkError,
                    >(NetworkError::ConnectionClosed) && !measured
                },
                SendEvent::Enqueued(taken) => {
                    &&& next.0 is Finished
                    &&& next.1 matches SendAction::Return { result, measured } && measured && (
                    taken ==> result is Ok) && (!taken ==> result == Err::<(), NetworkError>(
                        NetworkError::ConnectionClosed,
                    ))
                },
            },
    {
        match (self, event) {
            (Sending::Serializing { header }, SendEvent::Serialized(serialized)) => {
                match serialized {
                    Ok(body) => (
                        Sending::Upgrading { message: Message::new(header, body) },
                        SendAction::Upgrade,
                    ),
                    Err(error) => (
                        Sending::Finished,
                        SendAction::Return {
                            result: Err(NetworkError::from(ProtocolError::Codec(error))),
                            measured: false,
                        },
                    ),
                }
            },
            (Sending::Upgrading { message }, SendEvent::Upgraded(found)) => {
                match found {
                    Some(connection) => (
                        Sending::Enqueueing,
                        SendAction::Enqueue { connection, message },
                    ),
                    None => (
                        Sending::Finished,
                        SendAction::Return {
                            result: Err(NetworkError::ConnectionClosed),
                            measured: false,
                        },
                    ),
                }
            },
            (Sending::Enqueueing, SendEvent::Enqueued(accepted)) => {
                let result = if accepted {
                    Ok(())
                } else {
                    Err(NetworkError::ConnectionClosed)
                };
                (Sending::Finished, SendAction::Return { result, measured: true })
            },
            _ => vstd::pervasive::unreached(),
        }
    }
}

impl<N> ConnectionSender<N> {
    /// How the sending of a message begins.
    pub open spec fn begins(self, nodes_config_version: Version) -> (Sending, SendAction<N>) {
        (
            Sending::Serializing {
                header: Header { my_nodes_config_version: nodes_config_version },
            },
            SendAction::Serialize(self.protocol_version),
        )
    }

    /// Begins to send a message on the connection. `nodes_config_version` is the
    /// version of the nodes configuration at this time.
    ///
    /// The sending succeeds when the message
    /// - has been brought into the wire format of the negotiated protocol, and
    /// - has been put into the send buffer of the socket.
    ///
    /// That is no guarantee that the message has gone over the network or that the
    /// peer has received it. Callers who need that must design the wire protocol as
    /// a state machine of requests and responses, and retry on other nodes or
    /// connections. Nothing is retried here.
    pub fn send(&self, nodes_config_version: Version) -> (begun: (Sending, SendAction<N>))
        ensures
            begun == self.begins(nodes_config_version),
            begun.0 matches Sending::Serializing { header } && header.my_nodes_config_version
                == nodes_config_version,
            begun.1 matches SendAction::Serialize(version) && version == self.protocol_version,
    {
        (
            Sending::Serializing { header: Header::new(nodes_config_version) },
            SendAction::Serialize(self.protocol_version),
        )
    }

    /// Looks up the connection of this handle, as [`SendAction::Upgrade`] asks for.
    /// [`ConnectionSender::serialized`] does so by itself.
    pub fn upgrade(&self) -> (event: SendEvent<N>)
        ensures
            event matches SendEvent::Upgraded(found) && (found matches Some(connection)
                ==> *connection == self.connection.target()),
            event matches SendEvent::Upgraded(found) && self.connection.answered(found),
    {
        let found = self.connection.upgrade();
        proof {
            law_answer_is_that_of_the_lookup(&self.connection, found);
        }
        SendEvent::Upgraded(found)
    }

    /// Whether a sending through this handle may go on so, once its message has been
    /// brought into the wire format or that has failed. What is enqueued goes to the
    /// connection of this handle; where that is gone, the sending ends.
    pub open spec fn may_go_on(
        self,
        header: Header,
        serialized: Result<Body, CodecError>,
        next: (Sending, SendAction<N>),
    ) -> bool {
        match serialized {
            Ok(body) => match next.1 {
                SendAction::Enqueue { connection, message } => {
                    &&& next.0 is Enqueueing
                    &&& *connection == self.connection.target()
                    &&& message == (Message { header: Some(header), body: Some(body) })
                },
                SendAction::Return { result, measured } => {
                    &&& next.0 is Finished
                    &&& result == Err::<(), NetworkError>(NetworkError::ConnectionClosed)
                    &&& !measured
                },
                _ => false,
            },
            Err(error) => {
                &&& next.0 is Finished
                &&& next.1 == SendAction::<N>::Return {
                    result: Err(NetworkError::ProtocolError(ProtocolError::Codec(error))),
                    measured: false,
                }
            },
        }
    }

    /// Goes on with a sending that began with `header`, once its message has been
    /// brought into the wire format or that has failed: looks up the connection of
    /// this handle, and has the message put into its send buffer.
    pub fn serialized(&self, header: Header, serialized: Result<Body, CodecError>) -> (next: (
        Sending,
        SendAction<N>,
    ))
        ensures
            self.may_go_on(header, serialized, next),
            serialized matches Err(error) ==> next.0 is Finished && (next.1 matches
                SendAction::Return { result, measured } && result == Err::<(), NetworkError>(
                NetworkError::ProtocolError(ProtocolError::Codec(error)),
            ) && !measured),
            serialized matches Ok(body) ==> exists|found: Option<Arc<Connection<N>>>| #[trigger]
                self.connection.answered(found) && match found {
                    Some(connection) => {
                        &&& next.0 is Enqueueing
                        &&& next.1 matches SendAction::Enqueue { connection: to, message } && to
                            == connection && message.header == Some(header) && message.body
                            == Some(body)
                    },
                    None => {
                        &&& next.0 is Finished
                        &&& next.1 matches SendAction::Return { result, measured } && result
                            == Err::<(), NetworkError>(NetworkError::ConnectionClosed) && !measured
                    },
                },
    {
        let sending = Sending::Serializing { header };
        let (sending, action) = sending.step::<N>(SendEvent::Serialized(serialized));
        match action {
            SendAction::Upgrade => sending.step(self.upgrade()),
            _ => (sending, action),
        }
    }
}

} // verus!
