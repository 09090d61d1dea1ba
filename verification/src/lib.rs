//! Storage access and peer connections of a node that runs durable
//! invocations.
//!
//! - [`promise_table`]: the table of durable promises of a partition store.
//! - [`invoker_storage_reader`]: how the invoker reads journals and state.
//! - [`connection`]: the streaming connections to other nodes.
//!
//! The modules decide; they do no I/O. Each operation that talks to the
//! partition store or to the network is a state machine: it names the next
//! action, and is told how that action ended.

pub mod buffers;
pub mod channel;
pub mod connection;
pub mod connection_laws;
pub mod invoker_laws;
pub mod invoker_storage_reader;
pub mod link;
pub mod message;
pub mod promise_laws;
pub mod promise_table;
pub mod storage;
