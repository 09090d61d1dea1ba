//! What holds of the invoker's reads from their first action to their last.

use crate::invoker_storage_reader::{
    is_entry_of, journal_table, metadata_of, read_entry, select_table, EagerState, EntryIndex,
    InvocationId, InvocationStatus, InvokedStatus, InvokerStorageReader,
    InvokerStorageReaderError, JournalAction, JournalActionView,
    JournalEntry, JournalEvent, JournalMetadata, JournalTable, PinnedDeployment, ReadJournal,
    ReadJournalView, ReadState, ReadStateView, StateAction, StateActionView, StateEvent,
    StoredEntry, UserState, V4,
};
use crate::storage::{ServiceId, StorageError};
use vstd::prelude::*;

verus! {

/// Whether a read waits for each of these events in turn.
pub open spec fn journal_accepts<S, D, R, M, E>(
    read: ReadJournalView<S, D, R, E>,
    events: Seq<JournalEvent<S, D, R, M, E>>,
) -> bool
    decreases events.len(),
{
    events.len() > 0 ==> read.accepts(events[0]) && journal_accepts(
        read.step(events[0]).0,
        events.drop_first(),
    )
}

/// What a read does after each of these events.
pub open spec fn journal_actions<S, D, R, M, E>(
    read: ReadJournalView<S, D, R, E>,
    events: Seq<JournalEvent<S, D, R, M, E>>,
) -> Seq<JournalActionView<S, D, R, E>>
    decreases events.len(),
{
    if events.len() == 0 {
        Seq::empty()
    } else {
        let (next, action) = read.step(events[0]);
        seq![action] + journal_actions(next, events.drop_first())
    }
}

/// The events of a journal that yields these entries.
pub open spec fn entry_events<S, D, R, M, E>(
    stored: Seq<(EntryIndex, StoredEntry<R, M, E>)>,
) -> Seq<JournalEvent<S, D, R, M, E>> {
    Seq::new(stored.len(), |i: int| JournalEvent::Entry(Some(Ok(stored[i]))))
}

/// The invoker's form of these entries.
pub open spec fn read_entries<R, M, E>(stored: Seq<(EntryIndex, StoredEntry<R, M, E>)>) -> Seq<
    JournalEntry<R, E>,
> {
    Seq::new(stored.len(), |i: int| read_entry(stored[i].1))
}

/// Reading `stored` after `entries`: each entry is taken in turn, and then the read
/// stands where all of them have been read.
proof fn lemma_read_entries<S, D, R, M, E>(
    metadata: JournalMetadata<S, D>,
    table: JournalTable,
    entries: Seq<JournalEntry<R, E>>,
    stored: Seq<(EntryIndex, StoredEntry<R, M, E>)>,
    last: JournalEvent<S, D, R, M, E>,
)
    requires
        forall|i: int| 0 <= i < stored.len() ==> is_entry_of((#[trigger] stored[i]).1, table),
        (ReadJournalView::Reading { metadata, table, entries: entries + read_entries(stored) }).accepts(
            last,
        ),
    ensures
        journal_accepts(
            ReadJournalView::Reading { metadata, table, entries },
            entry_events(stored).push(last),
        ),
        journal_actions(
            ReadJournalView::Reading { metadata, table, entries },
            entry_events(stored).push(last),
        ) == Seq::new(stored.len(), |i: int| JournalActionView::<S, D, R, E>::NextEntry).push(
            (ReadJournalView::Reading {
                metadata,
                table,
                entries: entries + read_entries(stored),
            }).step(last).1,
        ),
    decreases stored.len(),
{
    let read = ReadJournalView::Reading { metadata, table, entries };
    let events = entry_events::<S, D, R, M, E>(stored).push(last);
    reveal_with_fuel(journal_accepts, 2);
    reveal_with_fuel(journal_actions, 2);
    if stored.len() == 0 {
        assert(entries + read_entries(stored) =~= entries);
        assert(events[0] == last);
        assert(events.drop_first() =~= Seq::empty());
        assert(journal_actions(read, events) =~= seq![read.step(last).1]);
        assert(Seq::new(0, |i: int| JournalActionView::<S, D, R, E>::NextEntry).push(
            read.step(last).1,
        ) =~= seq![read.step(last).1]);
    } else {
        let rest = stored.drop_first();
        let taken = entries.push(read_entry(stored[0].1));
        assert(taken + read_entries(rest) =~= entries + read_entries(stored));
        assert forall|i: int| 0 <= i < rest.len() implies is_entry_of(
            (#[trigger] rest[i]).1,
            table,
        ) by {
            assert(rest[i] == stored[i + 1]);
        }
        lemma_read_entries(metadata, table, taken, rest, last);
        assert(events.drop_first() =~= entry_events::<S, D, R, M, E>(rest).push(last));
        assert(events[0] == JournalEvent::<S, D, R, M, E>::Entry(Some(Ok(stored[0]))));
        assert(is_entry_of(stored[0].1, table));
        assert(journal_actions(read, events) =~= Seq::new(
            stored.len(),
            |i: int| JournalActionView::<S, D, R, E>::NextEntry,
        ).push(
            (ReadJournalView::Reading {
                metadata,
                table,
                entries: entries + read_entries(stored),
            }).step(last).1,
        ));
    }
}

/// The events up to `last` of a read that finds an invoked invocation and can open
/// its journal.
pub open spec fn read_events<S, D, R, M, E>(
    status: InvokedStatus<S, D>,
    stored: Seq<(EntryIndex, StoredEntry<R, M, E>)>,
    last: JournalEvent<S, D, R, M, E>,
) -> Seq<JournalEvent<S, D, R, M, E>> {
    seq![
        JournalEvent::Status(Ok(InvocationStatus::Invoked(status))),
        JournalEvent::Journal(Ok(())),
    ] + entry_events(stored).push(last)
}

/// What a read does after [`read_events`], up to the action after the last of them.
pub open spec fn read_actions<S, D, R, E>(
    invocation_id: InvocationId,
    status: InvokedStatus<S, D>,
    entries: nat,
    last: JournalActionView<S, D, R, E>,
) -> Seq<JournalActionView<S, D, R, E>> {
    seq![
        JournalActionView::GetJournal {
            table: journal_table(status.pinned_deployment),
            invocation_id,
            length: status.length,
        },
    ] + Seq::new(entries + 1, |i: int| JournalActionView::<S, D, R, E>::NextEntry).push(last)
}

proof fn lemma_read_journal<S, D, R, M, E>(
    invocation_id: InvocationId,
    status: InvokedStatus<S, D>,
    stored: Seq<(EntryIndex, StoredEntry<R, M, E>)>,
    last: JournalEvent<S, D, R, M, E>,
)
    requires
        forall|i: int|
            0 <= i < stored.len() ==> is_entry_of(
                (#[trigger] stored[i]).1,
                journal_table(status.pinned_deployment),
            ),
        (ReadJournalView::Reading {
            metadata: metadata_of(status),
            table: journal_table(status.pinned_deployment),
            entries: read_entries(stored),
        }).accepts(last),
    ensures
        journal_accepts(
            ReadJournalView::AwaitingStatus { invocation_id },
            read_events(status, stored, last),
        ),
        journal_actions(
            ReadJournalView::AwaitingStatus { invocation_id },
            read_events(status, stored, last),
        ) == read_actions(
            invocation_id,
            status,
            stored.len(),
            (ReadJournalView::Reading {
                metadata: metadata_of(status),
                table: journal_table(status.pinned_deployment),
                entries: read_entries(stored),
            }).step(last).1,
        ),
{
    reveal_with_fuel(journal_accepts, 3);
    reveal_with_fuel(journal_actions, 3);
    let metadata = metadata_of(status);
    let table = journal_table(status.pinned_deployment);
    let events = read_events(status, stored, last);
    let read = ReadJournalView::<S, D, R, E>::AwaitingStatus { invocation_id };
    let none = Seq::<JournalEntry<R, E>>::empty();
    assert(none + read_entries(stored) =~= read_entries(stored));
    lemma_read_entries(metadata, table, none, stored, last);
    assert(events.drop_first().drop_first() =~= entry_events::<S, D, R, M, E>(stored).push(last));
    let end = (ReadJournalView::Reading {
        metadata,
        table,
        entries: read_entries(stored),
    }).step(last).1;
    assert(journal_actions(read, events) =~= read_actions(
        invocation_id,
        status,
        stored.len(),
        end,
    ));
}

/// The journal of an invoked invocation is read from the table that its pinned
/// deployment calls for, up to the stored length; the invoker gets all its entries
/// in order, without what the runtime added to them, and the metadata as stored.
pub proof fn law_read_journal_returns_all_entries<S, D, R, M, E>(
    invocation_id: InvocationId,
    status: InvokedStatus<S, D>,
    stored: Seq<(EntryIndex, StoredEntry<R, M, E>)>,
)
    requires
        forall|i: int|
            0 <= i < stored.len() ==> is_entry_of(
                (#[trigger] stored[i]).1,
                journal_table(status.pinned_deployment),
            ),
    ensures
        journal_accepts(
            ReadJournalView::AwaitingStatus { invocation_id },
            read_events(status, stored, JournalEvent::Entry(None)),
        ),
        journal_actions(
            ReadJournalView::AwaitingStatus { invocation_id },
            read_events(status, stored, JournalEvent::Entry(None)),
        ) == read_actions(
            invocation_id,
            status,
            stored.len(),
            JournalActionView::Return(Ok((metadata_of(status), read_entries(stored)))),
        ),
{
    lemma_read_journal(invocation_id, status, stored, JournalEvent::Entry(None));
}

/// Where the storage fails after some entries of a journal, the read ends with that
/// failure: no entry is returned, and none is asked for any more.
pub proof fn law_read_journal_ends_at_failed_entry<S, D, R, M, E>(
    invocation_id: InvocationId,
    status: InvokedStatus<S, D>,
    stored: Seq<(EntryIndex, StoredEntry<R, M, E>)>,
    error: StorageError,
)
    requires
        forall|i: int|
            0 <= i < stored.len() ==> is_entry_of(
                (#[trigger] stored[i]).1,
                journal_table(status.pinned_deployment),
            ),
    ensures
        journal_accepts(
            ReadJournalView::AwaitingStatus { invocation_id },
            read_events(status, stored, JournalEvent::Entry(Some(Err(error)))),
        ),
        journal_actions(
            ReadJournalView::AwaitingStatus { invocation_id },
            read_events(status, stored, JournalEvent::Entry(Some(Err(error)))),
        ) == read_actions(
            invocation_id,
            status,
            stored.len(),
            JournalActionView::<S, D, R, E>::Return(
                Err(InvokerStorageReaderError::Storage(error)),
            ),
        ),
{
    lemma_read_journal(invocation_id, status, stored, JournalEvent::Entry(Some(Err(error))));
}

/// The journal of an invocation that is not invoked is not opened.
pub proof fn law_not_invoked_has_no_journal<S, D, R, M, E>(invocation_id: InvocationId)
    ensures
        (ReadJournalView::<S, D, R, E>::AwaitingStatus { invocation_id }).step(
            JournalEvent::<S, D, R, M, E>::Status(Ok(InvocationStatus::Other)),
        ) == (
            ReadJournalView::<S, D, R, E>::Finished,
            JournalActionView::<S, D, R, E>::Return(Err(InvokerStorageReaderError::NotInvoked)),
        ),
{
}

/// Where the storage fails on the status of an invocation or on opening its
/// journal, the read ends with that failure.
pub proof fn law_read_journal_ends_at_failed_request<S, D, R, M, E>(
    read: ReadJournalView<S, D, R, E>,
    event: JournalEvent<S, D, R, M, E>,
    error: StorageError,
)
    requires
        read.accepts(event),
        event == JournalEvent::<S, D, R, M, E>::Status(Err(error)) || event == JournalEvent::<
            S,
            D,
            R,
            M,
            E,
        >::Journal(Err(error)),
    ensures
        read.step(event) == (
            ReadJournalView::<S, D, R, E>::Finished,
            JournalActionView::<S, D, R, E>::Return(
                Err(InvokerStorageReaderError::Storage(error)),
            ),
        ),
{
}

/// Journals are in the second table from the fourth version of the service protocol
/// on, and in the first where the version is older or no deployment is pinned.
pub proof fn law_protocol_version_selects_the_table<D>(pinned: Option<PinnedDeployment<D>>)
    ensures
        V4 == 4,
        pinned is None ==> journal_table(pinned) == JournalTable::V1,
        pinned matches Some(deployment) ==> (journal_table(pinned) == JournalTable::V2
            <==> deployment.service_protocol_version.number >= V4),
{
}

/// Whether all entries that a read has so far are of the journal that it reads.
pub open spec fn entries_are_of_one_journal<S, D, R, E>(
    read: ReadJournalView<S, D, R, E>,
) -> bool {
    read matches ReadJournalView::Reading { table, entries, .. } ==> forall|i: int|
        0 <= i < entries.len() ==> ((#[trigger] entries[i]) is JournalV2 <==> table
            == JournalTable::V2)
}

/// A read never mixes entries of the two journals: every step keeps it so.
pub proof fn law_read_never_mixes_journals<S, D, R, M, E>(
    read: ReadJournalView<S, D, R, E>,
    event: JournalEvent<S, D, R, M, E>,
)
    requires
        read.accepts(event),
        entries_are_of_one_journal(read),
    ensures
        entries_are_of_one_journal(read.step(event).0),
{
}

/// Whether a read of state waits for each of these events in turn.
pub open spec fn state_accepts(read: ReadStateView, events: Seq<StateEvent>) -> bool
    decreases events.len(),
{
    events.len() > 0 ==> read.accepts(events[0]) && state_accepts(
        read.step(events[0]).0,
        events.drop_first(),
    )
}

/// What a read of state does after each of these events.
pub open spec fn state_actions(read: ReadStateView, events: Seq<StateEvent>) -> Seq<StateActionView>
    decreases events.len(),
{
    if events.len() == 0 {
        Seq::empty()
    } else {
        let (next, action) = read.step(events[0]);
        seq![action] + state_actions(next, events.drop_first())
    }
}

/// The events of a service's state that consists of these pairs, up to `last`.
pub open spec fn state_events(pairs: Seq<UserState>, last: StateEvent) -> Seq<StateEvent> {
    Seq::new(pairs.len(), |i: int| StateEvent::State(Some(Ok(pairs[i])))).push(last)
}

proof fn lemma_read_states(states: Seq<UserState>, pairs: Seq<UserState>, last: StateEvent)
    requires
        last is State,
    ensures
        state_accepts(ReadStateView::Reading { states }, state_events(pairs, last)),
        state_actions(ReadStateView::Reading { states }, state_events(pairs, last)) == Seq::new(
            pairs.len(),
            |i: int| StateActionView::NextState,
        ).push((ReadStateView::Reading { states: states + pairs }).step(last).1),
    decreases pairs.len(),
{
    let read = ReadStateView::Reading { states };
    let events = state_events(pairs, last);
    reveal_with_fuel(state_accepts, 2);
    reveal_with_fuel(state_actions, 2);
    let end = (ReadStateView::Reading { states: states + pairs }).step(last).1;
    if pairs.len() == 0 {
        assert(states + pairs =~= states);
        assert(events[0] == last);
        assert(events.drop_first() =~= Seq::empty());
    } else {
        let rest = pairs.drop_first();
        let taken = states.push(pairs[0]);
        assert(taken + rest =~= states + pairs);
        lemma_read_states(taken, rest, last);
        assert(events.drop_first() =~= state_events(rest, last));
        assert(events[0] == StateEvent::State(Some(Ok(pairs[0]))));
    }
    assert(state_actions(read, events) =~= Seq::new(
        pairs.len(),
        |i: int| StateActionView::NextState,
    ).push(end));
}

proof fn lemma_read_state(pairs: Seq<UserState>, last: StateEvent)
    requires
        last is State,
    ensures
        state_accepts(
            ReadStateView::Opening,
            seq![StateEvent::Opened(Ok(()))] + state_events(pairs, last),
        ),
        state_actions(
            ReadStateView::Opening,
            seq![StateEvent::Opened(Ok(()))] + state_events(pairs, last),
        ) == Seq::new(pairs.len() + 1, |i: int| StateActionView::NextState).push(
            (ReadStateView::Reading { states: pairs }).step(last).1,
        ),
{
    let events = seq![StateEvent::Opened(Ok(()))] + state_events(pairs, last);
    assert(Seq::<UserState>::empty() + pairs =~= pairs);
    lemma_read_states(Seq::empty(), pairs, last);
    assert(events.drop_first() =~= state_events(pairs, last));
    assert(state_actions(ReadStateView::Opening, events) =~= Seq::new(
        pairs.len() + 1,
        |i: int| StateActionView::NextState,
    ).push((ReadStateView::Reading { states: pairs }).step(last).1));
}

/// The invoker gets all of a service's state, in the order of the storage and
/// marked as complete.
pub proof fn law_read_state_returns_all_pairs(pairs: Seq<UserState>)
    ensures
        state_accepts(
            ReadStateView::Opening,
            seq![StateEvent::Opened(Ok(()))] + state_events(pairs, StateEvent::State(None)),
        ),
        state_actions(
            ReadStateView::Opening,
            seq![StateEvent::Opened(Ok(()))] + state_events(pairs, StateEvent::State(None)),
        ) == Seq::new(pairs.len() + 1, |i: int| StateActionView::NextState).push(
            StateActionView::Return(Ok(EagerState { is_partial: false, state: pairs })),
        ),
{
    lemma_read_state(pairs, StateEvent::State(None));
}

/// Where the storage fails after some pairs of a service's state, the read ends with
/// that failure: no pair is returned, and none is asked for any more.
pub proof fn law_read_state_ends_at_failed_pair(pairs: Seq<UserState>, error: StorageError)
    ensures
        state_accepts(
            ReadStateView::Opening,
            seq![StateEvent::Opened(Ok(()))] + state_events(
                pairs,
                StateEvent::State(Some(Err(error))),
            ),
        ),
        state_actions(
            ReadStateView::Opening,
            seq![StateEvent::Opened(Ok(()))] + state_events(
                pairs,
                StateEvent::State(Some(Err(error))),
            ),
        ) == Seq::new(pairs.len() + 1, |i: int| StateActionView::NextState).push(
            StateActionView::Return(Err(InvokerStorageReaderError::Storage(error))),
        ),
{
    lemma_read_state(pairs, StateEvent::State(Some(Err(error))));
}

/// Where the state of a service cannot be opened, the read ends with that failure.
pub proof fn law_read_state_ends_at_failed_request(error: StorageError)
    ensures
        ReadStateView::Opening.step(StateEvent::Opened(Err(error))) == (
            ReadStateView::Finished,
            StateActionView::Return(Err(InvokerStorageReaderError::Storage(error))),
        ),
{
}

/// Whether a stored entry is of the journal of an invocation with this status.
pub open spec fn is_of_the_journal<S, D, R, M, E>(
    status: InvokedStatus<S, D>,
    stored: StoredEntry<R, M, E>,
) -> bool {
    if status.pinned_deployment is Some
        && status.pinned_deployment->0.service_protocol_version.number >= 4 {
        stored is EntryV2
    } else {
        stored is Entry
    }
}

/// A journal that is read to its end comes with the values of the invocation's status,
/// field by field, and has, position by position, what the stored entries hold. It was
/// opened at the length and in the table that the status calls for.
pub proof fn law_journal_is_returned_as_stored<S, D, R, M, E>(
    invocation_id: InvocationId,
    status: InvokedStatus<S, D>,
    stored: Seq<(EntryIndex, StoredEntry<R, M, E>)>,
)
    requires
        forall|i: int| 0 <= i < stored.len() ==> is_of_the_journal(status, (#[trigger] stored[i]).1),
    ensures
        ({
            let actions = journal_actions(
                ReadJournalView::AwaitingStatus { invocation_id },
                read_events(status, stored, JournalEvent::Entry(None)),
            );
            &&& actions[0] matches JournalActionView::GetJournal { table, invocation_id: of, length }
                && {
                &&& of == invocation_id
                &&& length == status.length
                &&& table is V2 <==> (status.pinned_deployment matches Some(deployment)
                    && deployment.service_protocol_version.number >= 4)
            }
            &&& actions.last() matches JournalActionView::Return(Ok((metadata, entries))) && {
                &&& metadata.length == status.length
                &&& metadata.span_context == status.span_context
                &&& metadata.pinned_deployment == status.pinned_deployment
                &&& metadata.last_modification_date == status.modification_time
                &&& entries.len() == stored.len()
                &&& forall|i: int|
                    0 <= i < stored.len() ==> match (#[trigger] stored[i]).1 {
                        StoredEntry::Entry(entry) => entries[i] == JournalEntry::<R, E>::JournalV1(
                            entry.raw,
                        ),
                        StoredEntry::EntryV2(entry) => entries[i] == JournalEntry::<
                            R,
                            E,
                        >::JournalV2(entry),
                        StoredEntry::Completion => false,
                    }
            }
        }),
{
    assert forall|i: int| 0 <= i < stored.len() implies is_entry_of(
        (#[trigger] stored[i]).1,
        journal_table(status.pinned_deployment),
    ) by {
        assert(is_of_the_journal(status, stored[i].1));
    }
    law_read_journal_returns_all_entries(invocation_id, status, stored);
}

/// The step that learns that an invocation is invoked takes the metadata from its
/// status, field by field and whatever the protocol version.
pub proof fn law_metadata_is_that_of_the_status<S, D, R, M, E>(
    invocation_id: InvocationId,
    status: InvokedStatus<S, D>,
    next: (ReadJournal<S, D, R, E>, JournalAction<S, D, R, E>),
)
    requires
        call_ensures(
            ReadJournal::<S, D, R, E>::step::<M>,
            (
                ReadJournal::AwaitingStatus { invocation_id },
                JournalEvent::<S, D, R, M, E>::Status(Ok(InvocationStatus::Invoked(status))),
            ),
            next,
        ),
    ensures
        next.0 matches ReadJournal::Opening { metadata, .. } && {
            &&& metadata.length == status.length
            &&& metadata.span_context == status.span_context
            &&& metadata.pinned_deployment == status.pinned_deployment
            &&& metadata.last_modification_date == status.modification_time
        },
        next.1 matches JournalAction::GetJournal { invocation_id: of, length, .. } && of
            == invocation_id && length == status.length,
{
}

/// The metadata of a read, or what it returns at its end.
pub open spec fn carried_metadata<S, D, R, E>(
    next: (ReadJournal<S, D, R, E>, JournalAction<S, D, R, E>),
) -> Option<JournalMetadata<S, D>> {
    match next {
        (ReadJournal::Opening { metadata, .. }, _) => Some(metadata),
        (ReadJournal::Reading { metadata, .. }, _) => Some(metadata),
        (_, JournalAction::Return(Ok((metadata, _)))) => Some(metadata),
        _ => None,
    }
}

/// Every step after that keeps the metadata until the read returns it; only a failure
/// of the storage keeps it from being returned.
pub proof fn law_metadata_is_kept_to_the_end<S, D, R, M, E>(
    read: ReadJournal<S, D, R, E>,
    event: JournalEvent<S, D, R, M, E>,
    next: (ReadJournal<S, D, R, E>, JournalAction<S, D, R, E>),
    metadata: JournalMetadata<S, D>,
)
    requires
        read@.accepts(event),
        call_ensures(ReadJournal::<S, D, R, E>::step::<M>, (read, event), next),
        read matches ReadJournal::Opening { metadata: m, .. } ==> m == metadata,
        read matches ReadJournal::Reading { metadata: m, .. } ==> m == metadata,
        read is Opening || read is Reading,
    ensures
        carried_metadata(next) == Some(metadata) || next.1 matches JournalAction::Return(
            Err(InvokerStorageReaderError::Storage(_)),
        ),
        !(event matches JournalEvent::Journal(Err(_)))
            && !(event matches JournalEvent::Entry(Some(Err(_)))) ==> carried_metadata(next) == Some(
            metadata,
        ),
{
}

/// The entries of a read once it has gone on, or those that it returns at its end.
pub open spec fn carried_entries<S, D, R, E>(
    next: (ReadJournal<S, D, R, E>, JournalAction<S, D, R, E>),
) -> Seq<JournalEntry<R, E>> {
    match next {
        (ReadJournal::Reading { entries, .. }, _) => entries@,
        (_, JournalAction::Return(Ok((_, entries)))) => entries@,
        _ => Seq::empty(),
    }
}

/// Every step keeps the entries that were read before, in their places, and adds the
/// one that it reads behind them; the end of the journal adds none.
pub proof fn law_entries_are_kept_to_the_end<S, D, R, M, E>(
    metadata: JournalMetadata<S, D>,
    table: JournalTable,
    entries: Vec<JournalEntry<R, E>>,
    next_entry: Option<(EntryIndex, StoredEntry<R, M, E>)>,
    next: (ReadJournal<S, D, R, E>, JournalAction<S, D, R, E>),
)
    requires
        next_entry matches Some((_, stored)) ==> (table is V1 && stored is Entry) || (table is V2
            && stored is EntryV2),
        call_ensures(
            ReadJournal::<S, D, R, E>::step::<M>,
            (
                ReadJournal::Reading { metadata, table, entries },
                match next_entry {
                    Some(stored) => JournalEvent::<S, D, R, M, E>::Entry(Some(Ok(stored))),
                    None => JournalEvent::<S, D, R, M, E>::Entry(None),
                },
            ),
            next,
        ),
    ensures
        forall|i: int|
            0 <= i < entries@.len() ==> #[trigger] carried_entries(next)[i] == entries@[i],
        next_entry is None ==> carried_entries(next).len() == entries@.len(),
        next_entry is Some ==> carried_entries(next).len() == entries@.len() + 1,
        next_entry matches Some((_, StoredEntry::Entry(entry))) ==> carried_entries(next)[
            entries@.len() as int] == JournalEntry::<R, E>::JournalV1(entry.raw),
        next_entry matches Some((_, StoredEntry::EntryV2(entry))) ==> carried_entries(next)[
            entries@.len() as int] == JournalEntry::<R, E>::JournalV2(entry),
{
}

/// The content of a read and of its actions is what they hold.
pub proof fn law_content_of_reads_is_what_they_hold<S, D, R, E>(
    read: ReadJournal<S, D, R, E>,
    action: JournalAction<S, D, R, E>,
)
    ensures
        read matches ReadJournal::Reading { metadata, table, entries } ==> read@ == (
        ReadJournalView::<S, D, R, E>::Reading { metadata, table, entries: entries@ }),
        action matches JournalAction::Return(Ok((metadata, entries))) ==> action@
            == JournalActionView::<S, D, R, E>::Return(Ok((metadata, entries@))),
        action matches JournalAction::Return(Err(error)) ==> action@ == JournalActionView::<
            S,
            D,
            R,
            E,
        >::Return(Err(error)),
{
}

/// Every step of a read of state keeps the pairs that were read before, in their
/// places, and adds the one that it reads behind them; the end returns all of them as
/// the complete state.
pub proof fn law_pairs_are_kept_to_the_end(
    states: Vec<UserState>,
    next_pair: Option<UserState>,
    next: (ReadState, StateAction<'static>),
)
    requires
        call_ensures(
            ReadState::step,
            (
                ReadState::Reading { states },
                match next_pair {
                    Some(pair) => StateEvent::State(Some(Ok(pair))),
                    None => StateEvent::State(None),
                },
            ),
            next,
        ),
    ensures
        match next_pair {
            Some(pair) => next.0 matches ReadState::Reading { states: more } && {
                &&& more@.len() == states@.len() + 1
                &&& forall|i: int| 0 <= i < states@.len() ==> #[trigger] more@[i] == states@[i]
                &&& more@[states@.len() as int] == pair
            },
            None => next.1 matches StateAction::Return(Ok(eager)) && !eager.is_partial
                && eager.state@ == states@,
        },
{
}

/// A failure of the storage is reported as it came.
pub proof fn law_storage_failure_is_kept(cause: StorageError, error: InvokerStorageReaderError)
    requires
        call_ensures(
            <InvokerStorageReaderError as From<StorageError>>::from,
            (cause,),
            error,
        ),
    ensures
        error matches InvokerStorageReaderError::Storage(kept) && kept == cause,
{
}

/// A read begins with the status of the very invocation that it is of, or with the
/// state of the very service.
pub proof fn law_read_begins_with_what_was_asked_for<Storage, S, D, R, E>(
    reader: InvokerStorageReader<Storage>,
    invocation_id: InvocationId,
    service_id: ServiceId,
    journal: (ReadJournal<S, D, R, E>, JournalAction<S, D, R, E>),
    state: (ReadState, StateAction<'_>),
)
    requires
        call_ensures(
            InvokerStorageReader::<Storage>::read_journal::<S, D, R, E>,
            (&reader, &invocation_id),
            journal,
        ),
        call_ensures(InvokerStorageReader::<Storage>::read_state, (&reader, &service_id), state),
    ensures
        journal.0 matches ReadJournal::AwaitingStatus { invocation_id: of } && of == invocation_id,
        journal.1 matches JournalAction::GetInvocationStatus(of) && of == invocation_id,
        state.0 is Opening,
        state.1 matches StateAction::GetAllUserStatesForService(of) && *of == service_id,
{
}

/// The first failure ends a read of a journal, with the storage's own failure as it
/// came, or with the reader's where the invocation is not invoked.
pub proof fn law_first_failure_ends_the_journal<S, D, R, M, E>(
    read: ReadJournal<S, D, R, E>,
    event: JournalEvent<S, D, R, M, E>,
    next: (ReadJournal<S, D, R, E>, JournalAction<S, D, R, E>),
)
    requires
        read@.accepts(event),
        call_ensures(ReadJournal::<S, D, R, E>::step::<M>, (read, event), next),
    ensures
        next.0 is Finished <==> next.1 is Return,
        next.1 matches JournalAction::Return(Err(error)) ==> match error {
            InvokerStorageReaderError::NotInvoked => event matches JournalEvent::Status(
                Ok(InvocationStatus::Other),
            ),
            InvokerStorageReaderError::Storage(cause) => {
                ||| event == JournalEvent::<S, D, R, M, E>::Status(Err(cause))
                ||| event == JournalEvent::<S, D, R, M, E>::Journal(Err(cause))
                ||| event == JournalEvent::<S, D, R, M, E>::Entry(Some(Err(cause)))
            },
        },
        match event {
            JournalEvent::Status(Ok(InvocationStatus::Other)) => next.1 is Return,
            JournalEvent::Status(Err(_)) => next.1 is Return,
            JournalEvent::Journal(Err(_)) => next.1 is Return,
            JournalEvent::Entry(Some(Err(_))) => next.1 is Return,
            JournalEvent::Entry(None) => next.1 matches JournalAction::Return(Ok(_)),
            _ => next.1 !is Return,
        },
{
}

/// The first failure ends a read of state, with the storage's own failure as it came.
pub proof fn law_first_failure_ends_the_state(
    read: ReadState,
    event: StateEvent,
    next: (ReadState, StateAction<'static>),
)
    requires
        read@.accepts(event),
        call_ensures(ReadState::step, (read, event), next),
    ensures
        next.0 is Finished <==> next.1 is Return,
        next.1 matches StateAction::Return(Err(error)) ==> {
            &&& error matches InvokerStorageReaderError::Storage(cause) && {
                ||| event == StateEvent::Opened(Err(cause))
                ||| event == StateEvent::State(Some(Err(cause)))
            }
        },
        match event {
            StateEvent::Opened(Err(_)) => next.1 is Return,
            StateEvent::State(Some(Err(_))) => next.1 is Return,
            StateEvent::State(None) => next.1 matches StateAction::Return(Ok(_)),
            _ => next.1 !is Return,
        },
{
}

/// The journal of an invocation is in the second table exactly where a deployment of
/// protocol version 4 or later is pinned.
pub proof fn law_later_protocols_use_the_second_table<D>(
    pinned: Option<PinnedDeployment<D>>,
    table: JournalTable,
)
    requires
        call_ensures(select_table::<D>, (&pinned,), table),
    ensures
        table is V2 <==> (pinned matches Some(deployment)
            && deployment.service_protocol_version.number >= 4),
{
}

} // verus!
