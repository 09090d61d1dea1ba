# restate_node

Storage access and peer connections of a node that runs durable invocations,
verified with Verus.

The library in `src/` decides and does no I/O. An operation that talks to the
partition store or to the network is a state machine: it names the next action,
and is told how that action ended.

| module | what it holds |
| --- | --- |
| `promise_table` | keys, rows and operations of the table of durable promises |
| `promise_laws` | what the operations come to on the rows of a table |
| `invoker_storage_reader` | how the invoker reads a journal and a service's state |
| `invoker_laws` | what those reads return from their first action to their last |
| `connection` | connections, their handles and the sending of messages |
| `connection_laws` | what holds of connections and of sendings |
| `message`, `channel`, `link` | the messages of a connection, its send buffer, and the way back to it |
| `storage`, `buffers` | service ids, storage errors, shared text |

`app/` performs the actions: it awaits the store's streams and the send buffer, and
gives the errors the traits that callers expect.

What is believed of `bytes`, `bytestring`, `tokio`, `rand`, weak references and the
clock stands in `buffers`, `channel`, `link` and `connection`, each claim with its
function.
