//! What holds of connections and of the messages sent through them.

use crate::channel::{Attempt, Outcome};
use crate::connection::{
    control_frame, is_drawn, law_drawn_number_is_that_of_the_random_source, random_id, CodecError,
    Connection, ConnectionSender, GenerationalNodeId, NetworkError, ProtocolError, ProtocolVersion,
    SendAction, SendEvent, Sending,
};
use crate::link::{law_answer_is_that_of_the_lookup, law_answer_names_the_target};
use crate::message::{Body, ConnectionControl, Header, Message, Version};
use std::sync::Arc;
use std::time::Instant;
use tokio::sync::mpsc;
use vstd::prelude::*;
use vstd::std_specs::cmp::PartialEqSpec;

verus! {

/// Being the same connection is an equivalence.
pub proof fn law_same_connection_is_an_equivalence<N>(
    a: Connection<N>,
    b: Connection<N>,
    c: Connection<N>,
)
    ensures
        a.eq_spec(&a),
        a.eq_spec(&b) ==> b.eq_spec(&a),
        a.eq_spec(&b) && b.eq_spec(&c) ==> a.eq_spec(&c),
{
}

/// Connections with different identifiers or to different peers, be it only to
/// another generation of a node, are different ones; nothing else tells two apart.
pub proof fn law_identifier_and_peer_tell_connections_apart<N>(
    a: Connection<N>,
    b: Connection<N>,
)
    ensures
        a.eq_spec(&b) <==> a.cid == b.cid && a.peer.id == b.peer.id && a.peer.generation
            == b.peer.generation,
{
}

/// Messages are brought into the wire format that the connection has negotiated,
/// under the version of the nodes configuration at the time of sending, be it
/// through a handle of the connection or through a clone of the handle. Both lead
/// back to that connection.
pub proof fn law_senders_speak_the_negotiated_protocol<N: Clone>(
    connection: Connection<N>,
    sender: ConnectionSender<N>,
    copy: ConnectionSender<N>,
    version: Version,
)
    requires
        sender.is_sender_of(connection),
        copy.is_clone_of(sender),
    ensures
        sender.begins(version) == (
            Sending::Serializing { header: Header { my_nodes_config_version: version } },
            SendAction::<N>::Serialize(connection.protocol_version),
        ),
        copy.begins(version) == sender.begins(version),
        copy.peer == connection.peer,
        copy.connection.target() == connection,
{
}

/// Whether a sending waits for each of these events in turn.
pub open spec fn sending_awaits<N>(sending: Sending, events: Seq<SendEvent<N>>) -> bool
    decreases events.len(),
{
    events.len() > 0 ==> sending.awaits(events[0]) && sending_awaits(
        sending.after(events[0]).0,
        events.drop_first(),
    )
}

/// What a sending does after each of these events.
pub open spec fn sending_actions<N>(sending: Sending, events: Seq<SendEvent<N>>) -> Seq<SendAction<N>>
    decreases events.len(),
{
    if events.len() == 0 {
        Seq::empty()
    } else {
        let (next, action) = sending.after(events[0]);
        seq![action] + sending_actions(next, events.drop_first())
    }
}

/// Whether every lookup among these events found the given connection, or none.
/// So it is with every sending through a handle of the connection.
pub open spec fn linked<N>(events: Seq<SendEvent<N>>, connection: Connection<N>) -> bool {
    forall|i: int|
        0 <= i < events.len() ==> (#[trigger] events[i] matches SendEvent::Upgraded(Some(found))
            ==> *found == connection)
}

/// The events of a sending whose message has been brought into the wire format, or
/// not, and whose connection, in the former case, has been looked up.
pub open spec fn events_up_to_lookup<N>(
    serialized: Result<Body, CodecError>,
    found: Option<Arc<Connection<N>>>,
) -> Seq<SendEvent<N>> {
    match serialized {
        Ok(_) => seq![SendEvent::Serialized(serialized), SendEvent::Upgraded(found)],
        Err(_) => seq![SendEvent::Serialized(serialized)],
    }
}

/// Where a sending stands after these events.
pub open spec fn sending_after<N>(sending: Sending, events: Seq<SendEvent<N>>) -> Sending
    decreases events.len(),
{
    if events.len() == 0 {
        sending
    } else {
        sending_after(sending.after(events[0]).0, events.drop_first())
    }
}

/// A sending through a handle of a connection, or through a clone of the handle, is
/// linked to that connection: however it goes on once its message is in the wire
/// format, it goes on as after a lookup that found the connection or none.
pub proof fn law_sending_is_linked_to_its_connection<N: Clone>(
    connection: Connection<N>,
    sender: ConnectionSender<N>,
    handle: ConnectionSender<N>,
    header: Header,
    serialized: Result<Body, CodecError>,
    next: (Sending, SendAction<N>),
)
    requires
        sender.is_sender_of(connection),
        handle == sender || handle.is_clone_of(sender),
        handle.may_go_on(header, serialized, next),
    ensures
        exists|found: Option<Arc<Connection<N>>>|
            {
                let events = #[trigger] events_up_to_lookup(serialized, found);
                let start = Sending::Serializing { header };
                &&& sending_awaits(start, events)
                &&& linked(events, connection)
                &&& next.0 == sending_after(start, events)
                &&& next.1 == sending_actions(start, events).last()
            },
{
    reveal_with_fuel(sending_awaits, 3);
    reveal_with_fuel(sending_actions, 3);
    reveal_with_fuel(sending_after, 3);
    let found: Option<Arc<Connection<N>>> = match next.1 {
        SendAction::Enqueue { connection: c, .. } => Some(c),
        _ => None,
    };
    let events = events_up_to_lookup(serialized, found);
    let start = Sending::Serializing { header };
    assert(events[0] == SendEvent::<N>::Serialized(serialized));
    if serialized is Ok {
        assert(events.drop_first() =~= seq![SendEvent::Upgraded(found)]);
        assert(events.drop_first().drop_first() =~= Seq::empty());
    } else {
        assert(events.drop_first() =~= Seq::empty());
    }
    assert(sending_awaits(start, events));
    assert(linked(events, connection));
    assert(next.0 == sending_after(start, events));
    assert(next.1 == sending_actions(start, events).last());
}

/// What a message becomes that is brought into the wire format at the first of
/// these events.
pub open spec fn sent_message<N>(header: Header, events: Seq<SendEvent<N>>) -> Message {
    Message { header: Some(header), body: Some(events[0]->Serialized_0->Ok_0) }
}

/// A sending enqueues one message at most, and only what its message was brought
/// into, under the header that it began with, on the connection of its handle.
/// Nothing is retried.
pub proof fn law_sending_enqueues_once<N>(
    connection: Connection<N>,
    header: Header,
    events: Seq<SendEvent<N>>,
)
    requires
        sending_awaits(Sending::Serializing { header }, events),
        linked(events, connection),
    ensures
        forall|i: int|
            0 <= i < events.len() ==> (#[trigger] sending_actions(
                Sending::Serializing { header },
                events,
            )[i] matches SendAction::Enqueue { connection: to, message } ==> {
                &&& i == 1
                &&& events[0] matches SendEvent::Serialized(Ok(_))
                &&& *to == connection
                &&& message == sent_message(header, events)
            }),
{
    lemma_unfold(header, events);
    if events.len() > 1 {
        assert(events[1] matches SendEvent::Upgraded(Some(found)) ==> *found == connection);
    }
}

/// A sending reports success exactly where its message was brought into the wire
/// format, the connection was open, and the send buffer took the message.
pub proof fn law_sending_succeeds_once_enqueued<N>(header: Header, events: Seq<SendEvent<N>>, i: int)
    requires
        sending_awaits(Sending::Serializing { header }, events),
        0 <= i < events.len(),
        sending_actions(Sending::Serializing { header }, events)[i] is Return,
    ensures
        i == events.len() - 1,
        sending_actions(Sending::Serializing { header }, events)[i]->result is Ok <==> {
            &&& events.len() == 3
            &&& events[0] matches SendEvent::Serialized(Ok(_))
            &&& (events[1] matches SendEvent::Upgraded(Some(_)))
            &&& events[2] == SendEvent::<N>::Enqueued(true)
        },
{
    lemma_unfold(header, events);
}

/// A sending is measured exactly where it has asked for its message to be enqueued,
/// also where that failed.
pub proof fn law_sending_is_measured_once_enqueueing<N>(header: Header, events: Seq<SendEvent<N>>, i: int)
    requires
        sending_awaits(Sending::Serializing { header }, events),
        0 <= i < events.len(),
        sending_actions(Sending::Serializing { header }, events)[i] is Return,
    ensures
        sending_actions(Sending::Serializing { header }, events)[i]->measured <==> (i == 2
            && sending_actions(Sending::Serializing { header }, events)[1] is Enqueue),
{
    lemma_unfold(header, events);
}

/// A sending fails with a closed connection where the connection is gone or its send
/// buffer is closed, and with nothing else once its message is in the wire format.
pub proof fn law_sending_reports_a_closed_connection<N>(header: Header, events: Seq<SendEvent<N>>, i: int)
    requires
        sending_awaits(Sending::Serializing { header }, events),
        0 < i < events.len(),
        sending_actions(Sending::Serializing { header }, events)[i] is Return,
        sending_actions(Sending::Serializing { header }, events)[i]->result is Err,
    ensures
        sending_actions(Sending::Serializing { header }, events)[i]->result->Err_0
            is ConnectionClosed,
        events[i] == SendEvent::<N>::Upgraded(None) || events[i] == SendEvent::<N>::Enqueued(false),
{
    lemma_unfold(header, events);
}

/// What the send buffers take in a sending, first to last: each message that is to
/// be enqueued and is accepted, with the send buffer that it goes to.
pub open spec fn accepted<N>(sending: Sending, events: Seq<SendEvent<N>>) -> Seq<
    (mpsc::Sender<Message>, Message),
>
    decreases events.len(),
{
    if events.len() == 0 {
        Seq::empty()
    } else {
        let (next, action) = sending.after(events[0]);
        let later = accepted(next, events.drop_first());
        match action {
            SendAction::Enqueue { connection, message } if events.len() > 1 && events[1]
                == SendEvent::<N>::Enqueued(true) => seq![(connection.sender, message)] + later,
            _ => later,
        }
    }
}

/// Whether a sending has ended well.
pub open spec fn succeeded<N>(header: Header, events: Seq<SendEvent<N>>) -> bool {
    let actions = sending_actions(Sending::Serializing { header }, events);
    &&& events.len() > 0
    &&& actions.last() matches SendAction::Return { result: Ok(()), .. }
}

/// The send buffer of the connection takes the message of a sending that succeeds,
/// once; of a sending that does not succeed, no send buffer takes anything.
pub proof fn law_send_buffer_takes_what_succeeds<N>(
    connection: Connection<N>,
    header: Header,
    events: Seq<SendEvent<N>>,
)
    requires
        sending_awaits(Sending::Serializing { header }, events),
        linked(events, connection),
    ensures
        accepted(Sending::Serializing { header }, events) == if succeeded(header, events) {
            seq![(connection.sender, sent_message(header, events))]
        } else {
            Seq::empty()
        },
{
    lemma_unfold(header, events);
    reveal_with_fuel(accepted, 4);
    if events.len() > 0 {
        let rest = events.drop_first();
        if rest.len() > 0 {
            assert(rest[0] == events[1]);
            assert(events[1] matches SendEvent::Upgraded(Some(found)) ==> *found == connection);
            let last = rest.drop_first();
            if last.len() > 0 {
                assert(last[0] == events[2] && rest[1] == events[2]);
            }
        }
    }
}

/// One sending from beginning to end: the header that it began with, and its events.
pub struct SendRun<N> {
    pub header: Header,
    pub events: Seq<SendEvent<N>>,
}

impl<N> SendRun<N> {
    /// Whether this is a sending through a handle of a connection.
    pub open spec fn is_on(self, connection: Connection<N>) -> bool {
        &&& sending_awaits(Sending::Serializing { header: self.header }, self.events)
        &&& linked(self.events, connection)
    }

    /// Whether this sending has ended well.
    pub open spec fn succeeds(self) -> bool {
        succeeded(self.header, self.events)
    }

    /// What the message of this sending becomes.
    pub open spec fn message(self) -> Message {
        sent_message(self.header, self.events)
    }
}

/// What the send buffers take in sendings one after the other, first to last.
pub open spec fn accepted_in_turn<N>(runs: Seq<SendRun<N>>) -> Seq<(mpsc::Sender<Message>, Message)>
    decreases runs.len(),
{
    if runs.len() == 0 {
        Seq::empty()
    } else {
        let run = runs.last();
        accepted_in_turn(runs.drop_last()) + accepted(
            Sending::Serializing { header: run.header },
            run.events,
        )
    }
}

/// The messages of those sendings that succeed, in the order of the sendings.
pub open spec fn successes<N>(runs: Seq<SendRun<N>>) -> Seq<Message>
    decreases runs.len(),
{
    if runs.len() == 0 {
        Seq::empty()
    } else if runs.last().succeeds() {
        successes(runs.drop_last()).push(runs.last().message())
    } else {
        successes(runs.drop_last())
    }
}

/// The order of messages is kept: of sendings one after the other through handles of
/// a connection, its send buffer takes the messages of those that succeed, in the
/// order of the sendings and each once, and takes nothing else.
pub proof fn law_order_of_messages_is_kept<N>(connection: Connection<N>, runs: Seq<SendRun<N>>)
    requires
        forall|i: int| 0 <= i < runs.len() ==> (#[trigger] runs[i]).is_on(connection),
    ensures
        accepted_in_turn(runs) == successes(runs).map_values(
            |message: Message| (connection.sender, message),
        ),
    decreases runs.len(),
{
    let on = |message: Message| (connection.sender, message);
    if runs.len() == 0 {
        assert(accepted_in_turn(runs) =~= successes(runs).map_values(on));
    } else {
        let run = runs.last();
        assert(runs[runs.len() - 1].is_on(connection));
        law_order_of_messages_is_kept(connection, runs.drop_last());
        law_send_buffer_takes_what_succeeds(connection, run.header, run.events);
        assert(accepted_in_turn(runs) =~= successes(runs).map_values(on));
    }
}

/// Of two sendings that succeed one after the other, whatever is sent before, between
/// and after them, the send buffer takes the message of the first before that of the
/// second.
pub proof fn law_earlier_message_is_taken_first<N>(
    connection: Connection<N>,
    runs: Seq<SendRun<N>>,
    i: int,
    j: int,
)
    requires
        forall|k: int| 0 <= k < runs.len() ==> (#[trigger] runs[k]).is_on(connection),
        0 <= i < j < runs.len(),
        runs[i].succeeds(),
        runs[j].succeeds(),
    ensures
        exists|a: int, b: int|
            0 <= a < b < accepted_in_turn(runs).len() && #[trigger] accepted_in_turn(runs)[a] == (
                connection.sender,
                runs[i].message(),
            ) && #[trigger] accepted_in_turn(runs)[b] == (connection.sender, runs[j].message()),
    decreases runs.len(),
{
    let before = runs.drop_last();
    let run = runs.last();
    assert(runs[runs.len() - 1].is_on(connection));
    law_send_buffer_takes_what_succeeds(connection, run.header, run.events);
    if j < runs.len() - 1 {
        law_earlier_message_is_taken_first(connection, before, i, j);
        let (a, b) = choose|a: int, b: int|
            0 <= a < b < accepted_in_turn(before).len() && #[trigger] accepted_in_turn(before)[a]
                == (connection.sender, before[i].message()) && #[trigger] accepted_in_turn(before)[b]
                == (connection.sender, before[j].message());
        assert(accepted_in_turn(runs)[a] == accepted_in_turn(before)[a]);
        assert(accepted_in_turn(runs)[b] == accepted_in_turn(before)[b]);
    } else {
        lemma_success_is_taken(connection, before, i);
        let a = choose|a: int|
            0 <= a < accepted_in_turn(before).len() && #[trigger] accepted_in_turn(before)[a] == (
                connection.sender,
                before[i].message(),
            );
        let b = accepted_in_turn(before).len() as int;
        assert(accepted_in_turn(runs)[a] == accepted_in_turn(before)[a]);
        assert(accepted_in_turn(runs)[b] == (connection.sender, runs[j].message()));
    }
}

proof fn lemma_success_is_taken<N>(connection: Connection<N>, runs: Seq<SendRun<N>>, i: int)
    requires
        forall|k: int| 0 <= k < runs.len() ==> (#[trigger] runs[k]).is_on(connection),
        0 <= i < runs.len(),
        runs[i].succeeds(),
    ensures
        exists|a: int|
            0 <= a < accepted_in_turn(runs).len() && #[trigger] accepted_in_turn(runs)[a] == (
                connection.sender,
                runs[i].message(),
            ),
    decreases runs.len(),
{
    let before = runs.drop_last();
    let run = runs.last();
    assert(runs[runs.len() - 1].is_on(connection));
    law_send_buffer_takes_what_succeeds(connection, run.header, run.events);
    if i < runs.len() - 1 {
        lemma_success_is_taken(connection, before, i);
        let a = choose|a: int|
            0 <= a < accepted_in_turn(before).len() && #[trigger] accepted_in_turn(before)[a] == (
                connection.sender,
                before[i].message(),
            );
        assert(accepted_in_turn(runs)[a] == accepted_in_turn(before)[a]);
    } else {
        let a = accepted_in_turn(before).len() as int;
        assert(accepted_in_turn(runs)[a] == (connection.sender, runs[i].message()));
    }
}

/// All that a sending can do, event by event.
proof fn lemma_unfold<N>(header: Header, events: Seq<SendEvent<N>>)
    requires
        sending_awaits(Sending::Serializing { header }, events),
    ensures
        ({
            let start = Sending::Serializing { header };
            let actions = sending_actions(start, events);
            let second = start.after(events[0]).0;
            let third = second.after(events[1]).0;
            &&& events.len() <= 3
            &&& actions.len() == events.len()
            &&& events.len() > 0 ==> start.awaits(events[0]) && actions[0] == start.after(events[0]).1
            &&& events.len() > 1 ==> second.awaits(events[1]) && actions[1] == second.after(
                events[1],
            ).1
            &&& events.len() > 2 ==> third.awaits(events[2]) && actions[2] == third.after(
                events[2],
            ).1
        }),
{
    reveal_with_fuel(sending_awaits, 5);
    reveal_with_fuel(sending_actions, 5);
    if events.len() > 0 {
        let rest = events.drop_first();
        if rest.len() > 0 {
            assert(rest[0] == events[1]);
            let last = rest.drop_first();
            if last.len() > 0 {
                assert(last[0] == events[2]);
                let more = last.drop_first();
                if more.len() > 0 {
                    assert(more[0] == events[3]);
                }
            }
        }
    }
}

/// A new connection has the identifier that the random source drew for it and the
/// time that the clock gave, and else what it was made of.
pub proof fn law_new_connection_has_a_drawn_identifier<N>(
    peer: GenerationalNodeId,
    protocol_version: ProtocolVersion,
    sender: mpsc::Sender<Message>,
    nodes_config: N,
    connection: Connection<N>,
)
    requires
        call_ensures(
            Connection::<N>::new,
            (peer, protocol_version, sender, nodes_config),
            connection,
        ),
    ensures
        is_drawn(connection.cid),
        call_ensures(Instant::now, (), connection.created),
        connection.peer == peer,
        connection.protocol_version == protocol_version,
        connection.sender == sender,
        connection.updateable_nodes_config == nodes_config,
{
}

/// Two new connections to a peer are the same only where the random source drew one
/// number for both.
pub(crate) proof fn law_new_connections_differ_as_their_draws_do<N>(
    peer: GenerationalNodeId,
    version1: ProtocolVersion,
    version2: ProtocolVersion,
    sender1: mpsc::Sender<Message>,
    sender2: mpsc::Sender<Message>,
    nodes_config1: N,
    nodes_config2: N,
    a: Connection<N>,
    b: Connection<N>,
)
    requires
        call_ensures(Connection::<N>::new, (peer, version1, sender1, nodes_config1), a),
        call_ensures(Connection::<N>::new, (peer, version2, sender2, nodes_config2), b),
    ensures
        call_ensures(random_id, (), a.cid),
        call_ensures(random_id, (), b.cid),
        a.eq_spec(&b) <==> a.cid == b.cid,
{
    law_drawn_number_is_that_of_the_random_source(a.cid);
    law_drawn_number_is_that_of_the_random_source(b.cid);
}

/// A signal goes to the channel of the connection as it was given, in a message
/// without a header; a channel that does not take it gives that message back.
pub proof fn law_control_is_sent_as_given<N>(
    connection: Connection<N>,
    control: ConnectionControl,
    attempt: Attempt,
)
    requires
        call_ensures(Connection::<N>::send_control_frame, (&connection, control), attempt),
    ensures
        attempt.channel() == connection.sender,
        attempt.message().header is None,
        attempt.message().body matches Some(Body::ConnectionControl(sent)) && sent.signal
            == control.signal && sent.message@ == control.message@,
        attempt.result() matches Outcome::Full(returned) ==> returned == attempt.message(),
        attempt.result() matches Outcome::Closed(returned) ==> returned == attempt.message(),
{
}

/// The signal can be read back from its frame, so different signals have different
/// frames.
pub proof fn law_control_can_be_read_back(a: ConnectionControl, b: ConnectionControl)
    ensures
        control_frame(a).header is None,
        control_frame(a).body matches Some(Body::ConnectionControl(sent)) && sent.signal == a.signal
            && sent.message == a.message,
        control_frame(a) == control_frame(b) ==> a.signal == b.signal && a.message == b.message,
{
}

/// A handle of a connection is to its peer, in its protocol version, and leads back
/// to it; so does a clone of the handle.
pub proof fn law_handle_is_of_its_connection<N: Clone>(
    connection: Arc<Connection<N>>,
    sender: ConnectionSender<N>,
    copy: ConnectionSender<N>,
)
    requires
        call_ensures(Connection::<N>::sender, (&connection,), sender),
        call_ensures(ConnectionSender::<N>::clone, (&sender,), copy),
    ensures
        sender.peer == connection.peer && copy.peer == connection.peer,
        sender.protocol_version == connection.protocol_version && copy.protocol_version
            == connection.protocol_version,
        sender.connection.target() == *connection && copy.connection.target() == *connection,
{
}

/// A message in the wire format goes to the connection that the lookup found,
/// whatever the message; the sending ends with a closed connection only where the
/// lookup was made and found none.
pub proof fn law_sending_goes_on_as_the_lookup_answered<N>(
    handle: ConnectionSender<N>,
    header: Header,
    body: Body,
    next: (Sending, SendAction<N>),
)
    requires
        call_ensures(
            ConnectionSender::<N>::serialized,
            (&handle, header, Ok::<Body, CodecError>(body)),
            next,
        ),
    ensures
        next.1 matches SendAction::Enqueue { connection, message } ==> {
            &&& next.0 is Enqueueing
            &&& handle.connection.answered(Some(connection))
            &&& *connection == handle.connection.target()
            &&& message.header == Some(header)
            &&& message.body == Some(body)
        },
        next.1 !is Enqueue ==> {
            &&& next.0 is Finished
            &&& handle.connection.answered(None)
            &&& next.1 matches SendAction::Return { result, measured } && result == Err::<
                (),
                NetworkError,
            >(NetworkError::ConnectionClosed) && !measured
        },
        !handle.connection.answered(None) ==> next.1 is Enqueue,
{
    let found = choose|found: Option<Arc<Connection<N>>>| #[trigger]
        handle.connection.answered(found) && match found {
            Some(connection) => next.1 matches SendAction::Enqueue { connection: to, .. } && to
                == connection,
            None => next.1 is Return,
        };
    law_answer_names_the_target(&handle.connection, found);
}

/// What a handle reports of its connection is what the lookup answered.
pub(crate) proof fn law_handle_reports_the_lookup<N>(
    handle: ConnectionSender<N>,
    event: SendEvent<N>,
)
    requires
        call_ensures(ConnectionSender::<N>::upgrade, (&handle,), event),
    ensures
        event matches SendEvent::Upgraded(found) && call_ensures(
            crate::link::Link::<N>::upgrade,
            (&handle.connection,),
            found,
        ),
{
    law_answer_is_that_of_the_lookup(&handle.connection, event->Upgraded_0);
}

/// A message that cannot be brought into the wire format is not enqueued: the sending
/// ends with that very failure.
pub proof fn law_codec_failure_ends_the_sending<N>(
    handle: ConnectionSender<N>,
    header: Header,
    error: CodecError,
    next: (Sending, SendAction<N>),
)
    requires
        call_ensures(
            ConnectionSender::<N>::serialized,
            (&handle, header, Err::<Body, CodecError>(error)),
            next,
        ),
    ensures
        next.0 is Finished,
        next.1 matches SendAction::Return {
            result: Err(NetworkError::ProtocolError(ProtocolError::Codec(reported))),
            measured,
        } && reported.description@ == error.description@ && !measured,
{
}

/// A sending takes every answer to what it asked for last, and no other event.
pub proof fn law_sending_takes_every_answer<N>(sending: Sending, event: SendEvent<N>)
    ensures
        sending.awaits(event) <==> {
            ||| sending is Serializing && event is Serialized
            ||| sending is Upgrading && event is Upgraded
            ||| sending is Enqueueing && event is Enqueued
        },
{
}

/// A signal is a body as it is, and a failure to follow the wire protocol a failure to
/// send: neither conversion loses anything.
pub proof fn law_conversions_keep_what_they_convert(
    control: ConnectionControl,
    body: Body,
    flaw: ProtocolError,
    error: NetworkError,
)
    requires
        call_ensures(<Body as From<ConnectionControl>>::from, (control,), body),
        call_ensures(<NetworkError as From<ProtocolError>>::from, (flaw,), error),
    ensures
        body matches Body::ConnectionControl(kept) && kept.signal == control.signal
            && kept.message@ == control.message@,
        error matches NetworkError::ProtocolError(kept) && kept == flaw,
{
}

/// A sending begins with the version of the nodes configuration in its header, and has
/// the message brought into the wire format of the negotiated protocol.
pub proof fn law_sending_begins_in_the_negotiated_protocol<N>(
    handle: ConnectionSender<N>,
    nodes_config_version: Version,
    begun: (Sending, SendAction<N>),
)
    requires
        call_ensures(ConnectionSender::<N>::send, (&handle, nodes_config_version), begun),
    ensures
        begun.0 matches Sending::Serializing { header } && header.my_nodes_config_version
            == nodes_config_version,
        begun.1 matches SendAction::Serialize(version) && version.number
            == handle.protocol_version.number,
{
}

/// A sending ends as the send buffer answered: it succeeds exactly where the buffer has
/// taken the message, and is measured either way.
pub proof fn law_sending_ends_as_the_buffer_answered<N>(
    taken: bool,
    next: (Sending, SendAction<N>),
)
    requires
        call_ensures(
            Sending::step::<N>,
            (Sending::Enqueueing, SendEvent::<N>::Enqueued(taken)),
            next,
        ),
    ensures
        next.0 is Finished,
        next.1 matches SendAction::Return { result, measured } && {
            &&& measured
            &&& result is Ok <==> taken
            &&& result matches Err(error) ==> error is ConnectionClosed
        },
{
}

} // verus!
