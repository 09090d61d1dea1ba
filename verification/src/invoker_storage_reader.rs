//! How the invoker reads the journal of an invocation and the state of a service.
//!
//! Both reads alternate between the storage and a decision. They are state
//! machines: each step takes how the last action ended, and names the next one.

use crate::storage::{PartitionKey, ServiceId, StorageError};
use bytes::Bytes;
use vstd::prelude::*;

verus! {

/// Why a read failed.
#[derive(Debug)]
pub enum InvokerStorageReaderError {
    /// The invocation is not in the state in which it has a journal to read.
    NotInvoked,
    /// The storage failed.
    Storage(StorageError),
}

impl From<StorageError> for InvokerStorageReaderError {
    fn from(error: StorageError) -> (result: InvokerStorageReaderError) {
        InvokerStorageReaderError::Storage(error)
    }
}

impl vstd::std_specs::convert::FromSpecImpl<StorageError> for InvokerStorageReaderError {
    open spec fn obeys_from_spec() -> bool {
        true
    }

    open spec fn from_spec(error: StorageError) -> InvokerStorageReaderError {
        InvokerStorageReaderError::Storage(error)
    }
}

impl InvokerStorageReaderError {
    /// A description of the failure: that of the storage's own where it failed.
    pub fn description(&self) -> (text: String)
        ensures
            match self {
                InvokerStorageReaderError::NotInvoked => text@ == "not invoked"@,
                InvokerStorageReaderError::Storage(error) => text@ == error.text(),
            },
            self matches InvokerStorageReaderError::Storage(StorageError::Generic(description))
                ==> text@ == description@,
            self matches InvokerStorageReaderError::Storage(StorageError::DataIntegrityError)
                ==> text@ == "a stored key lacks a component"@,
    {
        match self {
            InvokerStorageReaderError::NotInvoked => "not invoked".to_owned(),
            InvokerStorageReaderError::Storage(error) => error.description(),
        }
    }
}

/// The position of an entry in a journal, and the length of one.
pub type EntryIndex = u32;

/// Milliseconds since the epoch.
pub type MillisSinceEpoch = u64;

/// The identity of an invocation.
#[derive(Clone, Copy, Debug, PartialEq, Eq, Structural)]
pub struct InvocationId {
    pub partition_key: PartitionKey,
    pub uuid: u128,
}

/// A version of the protocol between the runtime and a service.
#[derive(Clone, Copy, Debug, PartialEq, Eq, Structural)]
pub struct ServiceProtocolVersion {
    pub number: u32,
}

/// The first version of the service protocol whose journals are in the second
/// journal table.
pub const V4: u32 = 4;

/// The deployment that an invocation must go on with.
#[derive(Debug)]
pub struct PinnedDeployment<D> {
    pub deployment_id: D,
    pub service_protocol_version: ServiceProtocolVersion,
}

/// What is stored of an invocation that is invoked, as far as reading its journal
/// depends on it.
#[derive(Debug)]
pub struct InvokedStatus<S, D> {
    pub length: EntryIndex,
    pub span_context: S,
    pub pinned_deployment: Option<PinnedDeployment<D>>,
    pub modification_time: MillisSinceEpoch,
}

/// The status of an invocation.
#[derive(Debug)]
pub enum InvocationStatus<S, D> {
    Invoked(InvokedStatus<S, D>),
    /// Any status but invoked.
    Other,
}

/// What the invoker is told of a journal besides its entries.
#[derive(Debug)]
pub struct JournalMetadata<S, D> {
    pub length: EntryIndex,
    pub span_context: S,
    pub pinned_deployment: Option<PinnedDeployment<D>>,
    pub last_modification_date: MillisSinceEpoch,
}

impl<S, D> JournalMetadata<S, D> {
    /// The metadata with the given components.
    pub fn new(
        length: EntryIndex,
        span_context: S,
        pinned_deployment: Option<PinnedDeployment<D>>,
        last_modification_date: MillisSinceEpoch,
    ) -> (metadata: JournalMetadata<S, D>)
        ensures
            metadata == (JournalMetadata {
                length,
                span_context,
                pinned_deployment,
                last_modification_date,
            }),
    {
        JournalMetadata { length, span_context, pinned_deployment, last_modification_date }
    }
}

/// The two tables in which journals are stored.
#[derive(Clone, Copy, Debug, PartialEq, Eq, Structural)]
pub enum JournalTable {
    V1,
    V2,
}

/// An entry of the first journal table: the entry proper, and what the runtime
/// added to it.
#[derive(Debug)]
pub struct EnrichedRawEntry<R, M> {
    pub raw: R,
    pub enrichment: M,
}

impl<R, M> EnrichedRawEntry<R, M> {
    /// The entry proper.
    pub fn erase_enrichment(self) -> (raw: R)
        ensures
            raw == self.raw,
    {
        self.raw
    }
}

/// What a journal table holds at one position.
#[derive(Debug)]
pub enum StoredEntry<R, M, E> {
    /// An entry, in the first table.
    Entry(EnrichedRawEntry<R, M>),
    /// The completion of an entry that is not there yet, in the first table.
    Completion,
    /// An entry, in the second table.
    EntryV2(E),
}

/// An entry of a journal, as the invoker reads it.
#[derive(Debug)]
pub enum JournalEntry<R, E> {
    JournalV1(R),
    JournalV2(E),
}

/// The table that holds the journal of an invocation with this pinned deployment.
/// With no deployment pinned, it is the first.
pub open spec fn journal_table<D>(pinned: Option<PinnedDeployment<D>>) -> JournalTable {
    if pinned is Some && pinned->0.service_protocol_version.number >= V4 {
        JournalTable::V2
    } else {
        JournalTable::V1
    }
}

/// What the invoker is told of the journal of an invocation.
pub open spec fn metadata_of<S, D>(status: InvokedStatus<S, D>) -> JournalMetadata<S, D> {
    JournalMetadata {
        length: status.length,
        span_context: status.span_context,
        pinned_deployment: status.pinned_deployment,
        last_modification_date: status.modification_time,
    }
}

/// Whether a table holds such an entry where it holds no completion.
pub open spec fn is_entry_of<R, M, E>(stored: StoredEntry<R, M, E>, table: JournalTable) -> bool {
    match table {
        JournalTable::V1 => stored is Entry,
        JournalTable::V2 => stored is EntryV2,
    }
}

/// The invoker's form of a stored entry.
pub open spec fn read_entry<R, M, E>(stored: StoredEntry<R, M, E>) -> JournalEntry<R, E>
    recommends
        stored !is Completion,
{
    match stored {
        StoredEntry::Entry(entry) => JournalEntry::JournalV1(entry.raw),
        StoredEntry::EntryV2(entry) => JournalEntry::JournalV2(entry),
        StoredEntry::Completion => arbitrary(),
    }
}

/// A read of a journal: how far it has come.
#[derive(Debug)]
pub enum ReadJournal<S, D, R, E> {
    /// The status of the invocation is being read.
    AwaitingStatus { invocation_id: InvocationId },
    /// The journal is being opened.
    Opening { metadata: JournalMetadata<S, D>, table: JournalTable },
    /// The entries are being read.
    Reading {
        metadata: JournalMetadata<S, D>,
        table: JournalTable,
        entries: Vec<JournalEntry<R, E>>,
    },
    /// The read has ended.
    Finished,
}

/// The mathematical content of a [`ReadJournal`].
#[verifier::ext_equal]
pub enum ReadJournalView<S, D, R, E> {
    AwaitingStatus { invocation_id: InvocationId },
    Opening { metadata: JournalMetadata<S, D>, table: JournalTable },
    Reading {
        metadata: JournalMetadata<S, D>,
        table: JournalTable,
        entries: Seq<JournalEntry<R, E>>,
    },
    Finished,
}

/// How the last action of a read ended.
#[derive(Debug)]
pub enum JournalEvent<S, D, R, M, E> {
    /// The status of the invocation.
    Status(Result<InvocationStatus<S, D>, StorageError>),
    /// Whether the journal could be opened.
    Journal(Result<(), StorageError>),
    /// The next entry of the journal and its position, where there is one.
    Entry(Option<Result<(EntryIndex, StoredEntry<R, M, E>), StorageError>>),
}

/// What to do next in a read.
#[derive(Debug)]
pub enum JournalAction<S, D, R, E> {
    /// Read the status of an invocation.
    GetInvocationStatus(InvocationId),
    /// Open the first `length` entries of the journal of an invocation.
    GetJournal { table: JournalTable, invocation_id: InvocationId, length: EntryIndex },
    /// Read the next entry of the journal.
    NextEntry,
    /// Nothing: this is how the read ended.
    Return(
        Result<(JournalMetadata<S, D>, Vec<JournalEntry<R, E>>), InvokerStorageReaderError>,
    ),
}

/// The mathematical content of a [`JournalAction`].
#[verifier::ext_equal]
pub enum JournalActionView<S, D, R, E> {
    GetInvocationStatus(InvocationId),
    GetJournal { table: JournalTable, invocation_id: InvocationId, length: EntryIndex },
    NextEntry,
    Return(
        Result<(JournalMetadata<S, D>, Seq<JournalEntry<R, E>>), InvokerStorageReaderError>,
    ),
}

impl<S, D, R, E> View for ReadJournal<S, D, R, E> {
    type V = ReadJournalView<S, D, R, E>;

    open spec fn view(&self) -> ReadJournalView<S, D, R, E> {
        match *self {
            ReadJournal::AwaitingStatus { invocation_id } => ReadJournalView::AwaitingStatus {
                invocation_id,
            },
            ReadJournal::Opening { metadata, table } => ReadJournalView::Opening {
                metadata,
                table,
            },
            ReadJournal::Reading { metadata, table, entries } => ReadJournalView::Reading {
                metadata,
                table,
                entries: entries@,
            },
            ReadJournal::Finished => ReadJournalView::Finished,
        }
    }
}

impl<S, D, R, E> View for JournalAction<S, D, R, E> {
    type V = JournalActionView<S, D, R, E>;

    open spec fn view(&self) -> JournalActionView<S, D, R, E> {
        match *self {
            JournalAction::GetInvocationStatus(id) => JournalActionView::GetInvocationStatus(id),
            JournalAction::GetJournal { table, invocation_id, length } =>
                JournalActionView::GetJournal { table, invocation_id, length },
            JournalAction::NextEntry => JournalActionView::NextEntry,
            JournalAction::Return(Ok((metadata, entries))) => JournalActionView::Return(
                Ok((metadata, entries@)),
            ),
            JournalAction::Return(Err(error)) => JournalActionView::Return(Err(error)),
        }
    }
}

impl<S, D, R, E> ReadJournalView<S, D, R, E> {
    /// Whether the read waits for such an event. A completion in place of an entry
    /// is none that it can take.
    pub open spec fn accepts<M>(self, event: JournalEvent<S, D, R, M, E>) -> bool {
        match self {
            ReadJournalView::AwaitingStatus { .. } => event is Status,
            ReadJournalView::Opening { .. } => event is Journal,
            ReadJournalView::Reading { table, .. } => {
                &&& event is Entry
                &&& event->Entry_0 matches Some(Ok((_, stored))) ==> is_entry_of(stored, table)
            },
            ReadJournalView::Finished => false,
        }
    }

    /// Where a read stands after an event that it waits for, and what it does next.
    ///
    /// - Only an invoked invocation has a journal. Its metadata is fixed by its
    ///   status, and so is the table that the journal is read from.
    /// - The entries are kept in the order in which they are read.
    /// - The first failure of the storage ends the read.
    pub open spec fn step<M>(self, event: JournalEvent<S, D, R, M, E>) -> (
        ReadJournalView<S, D, R, E>,
        JournalActionView<S, D, R, E>,
    )
        recommends
            self.accepts(event),
    {
        match (self, event) {
            (
                ReadJournalView::AwaitingStatus { invocation_id },
                JournalEvent::Status(Ok(InvocationStatus::Invoked(status))),
            ) => {
                let table = journal_table(status.pinned_deployment);
                (
                    ReadJournalView::Opening { metadata: metadata_of(status), table },
                    JournalActionView::GetJournal { table, invocation_id, length: status.length },
                )
            },
            (_, JournalEvent::Status(Ok(InvocationStatus::Other))) => Self::failed(
                InvokerStorageReaderError::NotInvoked,
            ),
            (
                ReadJournalView::Opening { metadata, table },
                JournalEvent::Journal(Ok(())),
            ) => (
                ReadJournalView::Reading { metadata, table, entries: Seq::empty() },
                JournalActionView::NextEntry,
            ),
            (
                ReadJournalView::Reading { metadata, table, entries },
                JournalEvent::Entry(Some(Ok((_, stored)))),
            ) => (
                ReadJournalView::Reading {
                    metadata,
                    table,
                    entries: entries.push(read_entry(stored)),
                },
                JournalActionView::NextEntry,
            ),
            (
                ReadJournalView::Reading { metadata, table, entries },
                JournalEvent::Entry(None),
            ) => (
                ReadJournalView::Finished,
                JournalActionView::Return(Ok((metadata, entries))),
            ),
            (_, JournalEvent::Status(Err(error))) => Self::failed(
                InvokerStorageReaderError::Storage(error),
            ),
            (_, JournalEvent::Journal(Err(error))) => Self::failed(
                InvokerStorageReaderError::Storage(error),
            ),
            (_, JournalEvent::Entry(Some(Err(error)))) => Self::failed(
                InvokerStorageReaderError::Storage(error),
            ),
            _ => arbitrary(),
        }
    }

    /// A read that has ended with an error.
    pub open spec fn failed(error: InvokerStorageReaderError) -> (
        ReadJournalView<S, D, R, E>,
        JournalActionView<S, D, R, E>,
    ) {
        (ReadJournalView::Finished, JournalActionView::Return(Err(error)))
    }
}

impl<S, D, R, E> ReadJournal<S, D, R, E> {
    /// Whether this read waits for such an event. A completion in place of an entry
    /// is none that it can take.
    pub fn accepts<M>(&self, event: &JournalEvent<S, D, R, M, E>) -> (accepted: bool)
        ensures
            accepted == self@.accepts(*event),
            accepted <==> match (*self, *event) {
                (ReadJournal::AwaitingStatus { .. }, JournalEvent::Status(_)) => true,
                (ReadJournal::Opening { .. }, JournalEvent::Journal(_)) => true,
                (ReadJournal::Reading { table, .. }, JournalEvent::Entry(next)) => match next {
                    Some(Ok((_, stored))) => {
                        ||| table is V1 && stored is Entry
                        ||| table is V2 && stored is EntryV2
                    },
                    _ => true,
                },
                _ => false,
            },
    {
        match (self, event) {
            (ReadJournal::AwaitingStatus { .. }, JournalEvent::Status(_)) => true,
            (ReadJournal::Opening { .. }, JournalEvent::Journal(_)) => true,
            (ReadJournal::Reading { table, .. }, JournalEvent::Entry(next)) => match (table, next) {
                (JournalTable::V1, Some(Ok((_, StoredEntry::Entry(_))))) => true,
                (JournalTable::V2, Some(Ok((_, StoredEntry::EntryV2(_))))) => true,
                (_, Some(Ok(_))) => false,
                (_, _) => true,
            },
            _ => false,
        }
    }

    /// Goes on with the read once its last action has ended.
    pub fn step<M>(self, event: JournalEvent<S, D, R, M, E>) -> (next: (
        ReadJournal<S, D, R, E>,
        JournalAction<S, D, R, E>,
    ))
        requires
            self@.accepts(event),
        ensures
            (next.0@, next.1@) == self@.step(event),
            match (self, event) {
                (
                    ReadJournal::AwaitingStatus { invocation_id },
                    JournalEvent::Status(Ok(InvocationStatus::Invoked(status))),
                ) => {
                    &&& next.0 matches ReadJournal::Opening { metadata, table } && {
                        &&& metadata.length == status.length
                        &&& metadata.span_context == status.span_context
                        &&& metadata.pinned_deployment == status.pinned_deployment
                        &&& metadata.last_modification_date == status.modification_time
                        &&& table is V2 <==> (status.pinned_deployment matches Some(deployment)
                            && deployment.service_protocol_version.number >= 4)
                        &&& next.1 matches JournalAction::GetJournal {
                            table: from,
                            invocation_id: of,
                            length,
                        } && from == table && of == invocation_id && length == status.length
                    }
                },
                (_, JournalEvent::Status(Ok(InvocationStatus::Other))) => {
                    &&& next.0 is Finished
                    &&& next.1 matches JournalAction::Return(Err(error)) && error is NotInvoked
                },
                (_, JournalEvent::Status(Err(cause))) => {
                    &&& next.0 is Finished
                    &&& next.1 matches JournalAction::Return(
                        Err(InvokerStorageReaderError::Storage(error)),
                    ) && error == cause
                },
                (_, JournalEvent::Journal(Err(cause))) => {
                    &&& next.0 is Finished
                    &&& next.1 matches JournalAction::Return(
                        Err(InvokerStorageReaderError::Storage(error)),
                    ) && error == cause
                },
                (_, JournalEvent::Entry(Some(Err(cause)))) => {
                    &&& next.0 is Finished
                    &&& next.1 matches JournalAction::Return(
                        Err(InvokerStorageReaderError::Storage(error)),
                    ) && error == cause
                },
                (
                    ReadJournal::Opening { metadata, table },
                    JournalEvent::Journal(Ok(())),
                ) => {
                    &&& next.0 matches ReadJournal::Reading {
                        metadata: kept,
                        table: from,
                        entries,
                    } && kept == metadata && from == table && entries@.len() == 0
                    &&& next.1 is NextEntry
                },
                (
                    ReadJournal::Reading { metadata, table, entries },
                    JournalEvent::Entry(Some(Ok((_, stored)))),
                ) => {
                    &&& next.0 matches ReadJournal::Reading {
                        metadata: kept,
                        table: from,
                        entries: more,
                    } && {
                        &&& kept == metadata
                        &&& from == table
                        &&& more@.len() == entries@.len() + 1
                        &&& forall|i: int|
                            0 <= i < entries@.len() ==> #[trigger] more@[i] == entries@[i]
                        &&& stored matches StoredEntry::Entry(entry) ==> more@[entries@.len() as int]
                            == JournalEntry::<R, E>::JournalV1(entry.raw)
                        &&& stored matches StoredEntry::EntryV2(entry) ==> more@[
                            entries@.len() as int] == JournalEntry::<R, E>::JournalV2(entry)
                    }
                    &&& next.1 is NextEntry
                },
                (
                    ReadJournal::Reading { metadata, table, entries },
                    JournalEvent::Entry(None),
                ) => {
                    &&& next.0 is Finished
                    &&& next.1 matches JournalAction::Return(Ok((returned, all))) && returned
                        == metadata && all@ == entries@
                },
                _ => false,
            },
    {
        match (self, event) {
            (ReadJournal::AwaitingStatus { invocation_id }, JournalEvent::Status(status)) => {
                match status {
                    Ok(InvocationStatus::Invoked(status)) => {
                        let table = select_table(&status.pinned_deployment);
                        let metadata = JournalMetadata::new(
                            status.length,
                            status.span_context,
                            status.pinned_deployment,
                            status.modification_time,
                        );
                        let length: EntryIndex = metadata.length;
                        (
                            ReadJournal::Opening { metadata, table },
                            JournalAction::GetJournal { table, invocation_id, length },
                        )
                    },
                    Ok(InvocationStatus::Other) => (
                        ReadJournal::Finished,
                        JournalAction::Return(Err(InvokerStorageReaderError::NotInvoked)),
                    ),
                    Err(error) => Self::fail(error),
                }
            },
            (ReadJournal::Opening { metadata, table }, JournalEvent::Journal(opened)) => {
                match opened {
                    Ok(()) => (
                        ReadJournal::Reading { metadata, table, entries: Vec::new() },
                        JournalAction::NextEntry,
                    ),
                    Err(error) => Self::fail(error),
                }
            },
            (ReadJournal::Reading { metadata, table, entries }, JournalEvent::Entry(next)) => {
                match next {
                    Some(Ok((_, stored))) => {
                        let entry = match stored {
                            StoredEntry::Entry(entry) => JournalEntry::JournalV1(
                                entry.erase_enrichment(),
                            ),
                            StoredEntry::EntryV2(entry) => JournalEntry::JournalV2(entry),
                            StoredEntry::Completion => vstd::pervasive::unreached(),
                        };
                        let mut entries = entries;
                        entries.push(entry);
                        (
                            ReadJournal::Reading { metadata, table, entries },
                            JournalAction::NextEntry,
                        )
                    },
                    Some(Err(error)) => Self::fail(error),
                    None => (
                        ReadJournal::Finished,
                        JournalAction::Return(Ok((metadata, entries))),
                    ),
                }
            },
            _ => vstd::pervasive::unreached(),
        }
    }

    /// Ends a read on which the storage failed.
    fn fail(error: StorageError) -> (next: (ReadJournal<S, D, R, E>, JournalAction<S, D, R, E>))
        ensures
            (next.0@, next.1@) == ReadJournalView::<S, D, R, E>::failed(
                InvokerStorageReaderError::Storage(error),
            ),
    {
        (
            ReadJournal::Finished,
            JournalAction::Return(Err(InvokerStorageReaderError::from(error))),
        )
    }
}

/// The table that holds the journal of an invocation with this pinned deployment.
pub fn select_table<D>(pinned: &Option<PinnedDeployment<D>>) -> (table: JournalTable)
    ensures
        table == journal_table(*pinned),
        table is V2 <==> (*pinned matches Some(deployment)
            && deployment.service_protocol_version.number >= 4),
{
    match pinned {
        Some(deployment) => {
            if deployment.service_protocol_version.number >= V4 {
                JournalTable::V2
            } else {
                JournalTable::V1
            }
        },
        None => JournalTable::V1,
    }
}

/// The state of a service that goes to it along with an invocation.
#[derive(Debug)]
pub struct EagerState<I> {
    /// Whether the service may hold more state than this.
    pub is_partial: bool,
    pub state: I,
}

impl<I> EagerState<I> {
    /// All of a service's state.
    pub fn new_complete(state: I) -> (eager: EagerState<I>)
        ensures
            eager == (EagerState { is_partial: false, state }),
    {
        EagerState { is_partial: false, state }
    }
}

/// A key of a service's state, and its value.
pub type UserState = (Bytes, Bytes);

/// A read of the state of a service: how far it has come.
#[derive(Debug)]
pub enum ReadState {
    /// The state is being opened.
    Opening,
    /// The pairs of keys and values are being read.
    Reading { states: Vec<UserState> },
    /// The read has ended.
    Finished,
}

/// The mathematical content of a [`ReadState`].
#[verifier::ext_equal]
pub enum ReadStateView {
    Opening,
    Reading { states: Seq<UserState> },
    Finished,
}

/// How the last action of a read of state ended.
#[derive(Debug)]
pub enum StateEvent {
    /// Whether the state could be opened.
    Opened(Result<(), StorageError>),
    /// The next key with its value, where there is one.
    State(Option<Result<UserState, StorageError>>),
}

/// What to do next in a read of state.
#[derive(Debug)]
pub enum StateAction<'a> {
    /// Open the state of a service.
    GetAllUserStatesForService(&'a ServiceId),
    /// Read the next key with its value.
    NextState,
    /// Nothing: this is how the read ended.
    Return(Result<EagerState<Vec<UserState>>, InvokerStorageReaderError>),
}

/// The mathematical content of a [`StateAction`].
#[verifier::ext_equal]
pub enum StateActionView {
    GetAllUserStatesForService(ServiceId),
    NextState,
    Return(Result<EagerState<Seq<UserState>>, InvokerStorageReaderError>),
}

impl View for ReadState {
    type V = ReadStateView;

    open spec fn view(&self) -> ReadStateView {
        match *self {
            ReadState::Opening => ReadStateView::Opening,
            ReadState::Reading { states } => ReadStateView::Reading { states: states@ },
            ReadState::Finished => ReadStateView::Finished,
        }
    }
}

impl<'a> View for StateAction<'a> {
    type V = StateActionView;

    open spec fn view(&self) -> StateActionView {
        match *self {
            StateAction::GetAllUserStatesForService(service_id) =>
                StateActionView::GetAllUserStatesForService(*service_id),
            StateAction::NextState => StateActionView::NextState,
            StateAction::Return(Ok(eager)) => StateActionView::Return(
                Ok(EagerState { is_partial: eager.is_partial, state: eager.state@ }),
            ),
            StateAction::Return(Err(error)) => StateActionView::Return(Err(error)),
        }
    }
}

impl ReadStateView {
    /// Whether the read waits for such an event.
    pub open spec fn accepts(self, event: StateEvent) -> bool {
        match self {
            ReadStateView::Opening => event is Opened,
            ReadStateView::Reading { .. } => event is State,
            ReadStateView::Finished => false,
        }
    }

    /// Where a read stands after an event that it waits for, and what it does next.
    /// The pairs are kept in the order in which they are read, and all of them are
    /// returned; the first failure of the storage ends the read.
    pub open spec fn step(self, event: StateEvent) -> (ReadStateView, StateActionView)
        recommends
            self.accepts(event),
    {
        match (self, event) {
            (ReadStateView::Opening, StateEvent::Opened(Ok(()))) => (
                ReadStateView::Reading { states: Seq::empty() },
                StateActionView::NextState,
            ),
            (ReadStateView::Reading { states }, StateEvent::State(Some(Ok(pair)))) => (
                ReadStateView::Reading { states: states.push(pair) },
                StateActionView::NextState,
            ),
            (ReadStateView::Reading { states }, StateEvent::State(None)) => (
                ReadStateView::Finished,
                StateActionView::Return(Ok(EagerState { is_partial: false, state: states })),
            ),
            (_, StateEvent::Opened(Err(error))) => Self::failed(error),
            (_, StateEvent::State(Some(Err(error)))) => Self::failed(error),
            _ => arbitrary(),
        }
    }

    /// A read that has ended because the storage failed.
    pub open spec fn failed(error: StorageError) -> (ReadStateView, StateActionView) {
        (
            ReadStateView::Finished,
            StateActionView::Return(Err(InvokerStorageReaderError::Storage(error))),
        )
    }
}

impl ReadState {
    /// Whether this read waits for such an event.
    pub fn accepts(&self, event: &StateEvent) -> (accepted: bool)
        ensures
            accepted == self@.accepts(*event),
            accepted <==> {
                ||| self is Opening && event is Opened
                ||| self is Reading && event is State
            },
    {
        match (self, event) {
            (ReadState::Opening, StateEvent::Opened(_)) => true,
            (ReadState::Reading { .. }, StateEvent::State(_)) => true,
            _ => false,
        }
    }

    /// Goes on with the read once its last action has ended.
    pub fn step(self, event: StateEvent) -> (next: (ReadState, StateAction<'static>))
        requires
            self@.accepts(event),
        ensures
            (next.0@, next.1@) == self@.step(event),
            match (self, event) {
                (_, StateEvent::Opened(Ok(()))) => {
                    &&& next.0 matches ReadState::Reading { states } && states@.len() == 0
                    &&& next.1 is NextState
                },
                (_, StateEvent::Opened(Err(cause))) => {
                    &&& next.0 is Finished
                    &&& next.1 matches StateAction::Return(
                        Err(InvokerStorageReaderError::Storage(error)),
                    ) && error == cause
                },
                (_, StateEvent::State(Some(Err(cause)))) => {
                    &&& next.0 is Finished
                    &&& next.1 matches StateAction::Return(
                        Err(InvokerStorageReaderError::Storage(error)),
                    ) && error == cause
                },
                (ReadState::Reading { states }, StateEvent::State(Some(Ok(pair)))) => {
                    &&& next.0 matches ReadState::Reading { states: more } && {
                        &&& more@.len() == states@.len() + 1
                        &&& forall|i: int|
                            0 <= i < states@.len() ==> #[trigger] more@[i] == states@[i]
                        &&& more@[states@.len() as int] == pair
                    }
                    &&& next.1 is NextState
                },
                (ReadState::Reading { states }, StateEvent::State(None)) => {
                    &&& next.0 is Finished
                    &&& next.1 matches StateAction::Return(Ok(eager)) && !eager.is_partial
                        && eager.state@ == states@
                },
                _ => false,
            },
    {
        match (self, event) {
            (ReadState::Opening, StateEvent::Opened(opened)) => match opened {
                Ok(()) => (ReadState::Reading { states: Vec::new() }, StateAction::NextState),
                Err(error) => Self::fail(error),
            },
            (ReadState::Reading { states }, StateEvent::State(next)) => match next {
                Some(Ok(pair)) => {
                    let mut states = states;
                    states.push(pair);
                    (ReadState::Reading { states }, StateAction::NextState)
                },
                Some(Err(error)) => Self::fail(error),
                None => (
                    ReadState::Finished,
                    StateAction::Return(Ok(EagerState::new_complete(states))),
                ),
            },
            _ => vstd::pervasive::unreached(),
        }
    }

    /// Ends a read on which the storage failed.
    fn fail(error: StorageError) -> (next: (ReadState, StateAction<'static>))
        ensures
            (next.0@, next.1@) == ReadStateView::failed(error),
    {
        (ReadState::Finished, StateAction::Return(Err(InvokerStorageReaderError::from(error))))
    }
}

/// Reads journals and state for the invoker out of a storage.
#[derive(Debug)]
pub struct InvokerStorageReader<Storage>(pub Storage);

impl<Storage> InvokerStorageReader<Storage> {
    /// The reader of a storage.
    pub fn new(storage: Storage) -> (reader: InvokerStorageReader<Storage>)
        ensures
            reader.0 == storage,
    {
        InvokerStorageReader(storage)
    }

    /// Begins to read the journal of an invocation.
    pub fn read_journal<S, D, R, E>(&self, invocation_id: &InvocationId) -> (begun: (
        ReadJournal<S, D, R, E>,
        JournalAction<S, D, R, E>,
    ))
        ensures
            begun.0@ == (ReadJournalView::<S, D, R, E>::AwaitingStatus {
                invocation_id: *invocation_id,
            }),
            begun.1@ == JournalActionView::<S, D, R, E>::GetInvocationStatus(*invocation_id),
            begun.0 matches ReadJournal::AwaitingStatus { invocation_id: of } && of
                == *invocation_id,
            begun.1 matches JournalAction::GetInvocationStatus(of) && of == *invocation_id,
    {
        (
            ReadJournal::AwaitingStatus { invocation_id: *invocation_id },
            JournalAction::GetInvocationStatus(*invocation_id),
        )
    }

    /// Begins to read the state of a service.
    pub fn read_state<'a>(&self, service_id: &'a ServiceId) -> (begun: (
        ReadState,
        StateAction<'a>,
    ))
        ensures
            begun.0@ == ReadStateView::Opening,
            begun.1@ == StateActionView::GetAllUserStatesForService(*service_id),
            begun.0 is Opening,
            begun.1 matches StateAction::GetAllUserStatesForService(of) && *of == *service_id,
    {
        (ReadState::Opening, StateAction::GetAllUserStatesForService(service_id))
    }
}

impl<Storage: Clone> Clone for InvokerStorageReader<Storage> {
    fn clone(&self) -> (copy: InvokerStorageReader<Storage>)
        ensures
            cloned(self.0, copy.0),
    {
        InvokerStorageReader(self.0.clone())
    }
}

} // verus!
