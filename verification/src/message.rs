//! The messages that go over a connection.

use vstd::prelude::*;

verus! {

/// A version of the cluster's configuration.
pub type Version = u32;

/// What accompanies each message of a service.
#[derive(Debug, PartialEq, Eq)]
pub struct Header {
    /// The version of the nodes configuration that the sending node knows.
    pub my_nodes_config_version: Version,
}

impl Header {
    /// The header for a version of the nodes configuration.
    pub fn new(nodes_config_version: Version) -> (header: Header)
        ensures
            header == (Header { my_nodes_config_version: nodes_config_version }),
    {
        Header { my_nodes_config_version: nodes_config_version }
    }
}

/// A signal about the connection itself.
#[derive(Debug, PartialEq, Eq)]
pub struct ConnectionControl {
    /// The number of the signal in the wire protocol.
    pub signal: i32,
    /// A text for the peer's log.
    pub message: String,
}

/// What a message says.
#[derive(Debug, PartialEq, Eq)]
pub enum Body {
    /// A signal about the connection itself.
    ConnectionControl(ConnectionControl),
    /// A message of a service, in its wire format.
    Encoded(Vec<u8>),
}

impl From<ConnectionControl> for Body {
    fn from(control: ConnectionControl) -> (body: Body) {
        Body::ConnectionControl(control)
    }
}

impl vstd::std_specs::convert::FromSpecImpl<ConnectionControl> for Body {
    open spec fn obeys_from_spec() -> bool {
        true
    }

    open spec fn from_spec(control: ConnectionControl) -> Body {
        Body::ConnectionControl(control)
    }
}

/// A message on a connection.
#[derive(Debug, PartialEq, Eq)]
pub struct Message {
    pub header: Option<Header>,
    pub body: Option<Body>,
}

impl Message {
    /// The message with a header and a body.
    pub fn new(header: Header, body: Body) -> (message: Message)
        ensures
            message == (Message { header: Some(header), body: Some(body) }),
    {
        Message { header: Some(header), body: Some(body) }
    }
}

} // verus!
