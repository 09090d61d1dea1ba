use bytes::Bytes;
use restate_node::buffers::Text;
use restate_node::invoker_storage_reader::{
    select_table, EnrichedRawEntry, InvocationId, InvocationStatus, InvokedStatus,
    InvokerStorageReader, InvokerStorageReaderError, JournalAction, JournalEntry, JournalEvent,
    JournalTable, PinnedDeployment, ReadJournal, ServiceProtocolVersion, StateAction, StateEvent,
    StoredEntry,
};
use restate_node::storage::{ServiceId, StorageError};

type Read = ReadJournal<&'static str, u16, &'static str, &'static str>;
type Event = JournalEvent<&'static str, u16, &'static str, u8, &'static str>;
type Action = JournalAction<&'static str, u16, &'static str, &'static str>;

const ID: InvocationId = InvocationId {
    partition_key: 11,
    uuid: 22,
};

fn failure() -> StorageError {
    StorageError::Generic("disk".to_string())
}

fn pinned(version: u32) -> Option<PinnedDeployment<u16>> {
    Some(PinnedDeployment {
        deployment_id: 3,
        service_protocol_version: ServiceProtocolVersion { number: version },
    })
}

fn invoked(pinned_deployment: Option<PinnedDeployment<u16>>) -> Event {
    JournalEvent::Status(Ok(InvocationStatus::Invoked(InvokedStatus {
        length: 2,
        span_context: "span",
        pinned_deployment,
        modification_time: 99,
    })))
}

fn begin() -> Read {
    let (read, action): (Read, Action) = InvokerStorageReader::new(()).read_journal(&ID);
    assert!(matches!(action, JournalAction::GetInvocationStatus(id) if id == ID));
    read
}

fn step(read: Read, event: Event) -> (Read, Action) {
    assert!(read.accepts(&event));
    read.step(event)
}

fn open(version: Option<PinnedDeployment<u16>>, table: JournalTable) -> Read {
    let (read, action) = step(begin(), invoked(version));
    assert!(matches!(
        action,
        JournalAction::GetJournal { table: t, invocation_id, length: 2 } if t == table && invocation_id == ID
    ));
    let (read, action) = step(read, JournalEvent::Journal(Ok(())));
    assert!(matches!(action, JournalAction::NextEntry));
    read
}

fn entry_v1(raw: &'static str) -> Event {
    JournalEvent::Entry(Some(Ok((
        0,
        StoredEntry::Entry(EnrichedRawEntry { raw, enrichment: 1 }),
    ))))
}

fn entry_v2(entry: &'static str) -> Event {
    JournalEvent::Entry(Some(Ok((0, StoredEntry::EntryV2(entry)))))
}

#[test]
fn reader_holds_its_storage() {
    assert_eq!(InvokerStorageReader::new(5u8).0, 5);
    assert_eq!(InvokerStorageReader::new(5u8).clone().0, 5);
}

#[test]
fn fourth_version_selects_the_second_table() {
    assert_eq!(select_table::<u16>(&None), JournalTable::V1);
    assert_eq!(select_table(&pinned(3)), JournalTable::V1);
    assert_eq!(select_table(&pinned(4)), JournalTable::V2);
    assert_eq!(select_table(&pinned(5)), JournalTable::V2);
}

#[test]
fn journal_of_the_first_table_is_read_without_enrichment() {
    let read = open(None, JournalTable::V1);
    let (read, action) = step(read, entry_v1("one"));
    assert!(matches!(action, JournalAction::NextEntry));
    let (read, action) = step(read, entry_v1("two"));
    assert!(matches!(action, JournalAction::NextEntry));
    let (read, action) = step(read, JournalEvent::Entry(None));
    assert!(matches!(read, ReadJournal::Finished));
    match action {
        JournalAction::Return(Ok((metadata, entries))) => {
            assert_eq!(metadata.length, 2);
            assert_eq!(metadata.span_context, "span");
            assert!(metadata.pinned_deployment.is_none());
            assert_eq!(metadata.last_modification_date, 99);
            assert!(matches!(
                entries[..],
                [JournalEntry::JournalV1("one"), JournalEntry::JournalV1("two")]
            ));
        }
        other => panic!("{other:?}"),
    }
}

#[test]
fn journal_of_the_second_table_is_read_as_it_is() {
    let read = open(pinned(4), JournalTable::V2);
    let (read, _) = step(read, entry_v2("one"));
    let (_, action) = step(read, JournalEvent::Entry(None));
    match action {
        JournalAction::Return(Ok((metadata, entries))) => {
            let deployment = metadata.pinned_deployment.unwrap();
            assert_eq!(deployment.deployment_id, 3);
            assert_eq!(deployment.service_protocol_version.number, 4);
            assert!(matches!(entries[..], [JournalEntry::JournalV2("one")]));
        }
        other => panic!("{other:?}"),
    }
}

#[test]
fn empty_journal_is_read_as_such() {
    let (_, action) = step(open(pinned(1), JournalTable::V1), JournalEvent::Entry(None));
    assert!(matches!(action, JournalAction::Return(Ok((_, entries))) if entries.is_empty()));
}

fn is_disk_failure(action: Action) -> bool {
    matches!(
        action,
        JournalAction::Return(Err(InvokerStorageReaderError::Storage(StorageError::Generic(d)))) if d == "disk"
    )
}

#[test]
fn invocation_that_is_not_invoked_has_no_journal() {
    let (read, action) = step(begin(), JournalEvent::Status(Ok(InvocationStatus::Other)));
    assert!(matches!(read, ReadJournal::Finished));
    assert!(matches!(
        action,
        JournalAction::Return(Err(InvokerStorageReaderError::NotInvoked))
    ));
}

#[test]
fn journal_read_ends_at_the_first_failure() {
    let (_, action) = step(begin(), JournalEvent::Status(Err(failure())));
    assert!(is_disk_failure(action));

    let (read, _) = step(begin(), invoked(None));
    let (_, action) = step(read, JournalEvent::Journal(Err(failure())));
    assert!(is_disk_failure(action));

    let (read, _) = step(open(None, JournalTable::V1), entry_v1("one"));
    let (read, action) = step(read, JournalEvent::Entry(Some(Err(failure()))));
    assert!(is_disk_failure(action));
    assert!(!read.accepts(&entry_v1("two")));
}

#[test]
fn journal_read_takes_no_completion() {
    let read = open(None, JournalTable::V1);
    let completion: Event = JournalEvent::Entry(Some(Ok((0, StoredEntry::Completion))));
    let failed: Event = JournalEvent::Entry(Some(Err(failure())));
    assert!(!read.accepts(&completion));
    assert!(read.accepts(&failed));
}

#[test]
fn journal_read_takes_entries_of_its_table_only() {
    assert!(!open(None, JournalTable::V1).accepts(&entry_v2("one")));
    assert!(!open(pinned(4), JournalTable::V2).accepts(&entry_v1("one")));
    assert!(!begin().accepts(&entry_v1("one")));
}

#[test]
fn errors_describe_themselves() {
    assert_eq!(
        InvokerStorageReaderError::NotInvoked.description(),
        "not invoked"
    );
    assert_eq!(
        InvokerStorageReaderError::from(failure()).description(),
        "disk"
    );
}

fn pair(key: &'static str, value: &'static str) -> StateEvent {
    StateEvent::State(Some(Ok((
        Bytes::from_static(key.as_bytes()),
        Bytes::from_static(value.as_bytes()),
    ))))
}

#[test]
fn state_is_read_completely() {
    let text = |s: &'static str| Text::from_bytes(Bytes::from_static(s.as_bytes())).unwrap();
    let service_id = ServiceId::with_partition_key(1, text("Greeter"), text("joe"));
    let (read, action) = InvokerStorageReader::new(()).read_state(&service_id);
    assert!(
        matches!(action, StateAction::GetAllUserStatesForService(id) if id.key.as_bytes() == "joe".as_bytes())
    );
    let (read, action) = read.step(StateEvent::Opened(Ok(())));
    assert!(matches!(action, StateAction::NextState));
    let (read, _) = read.step(pair("b", "1"));
    let (read, action) = read.step(pair("a", "2"));
    assert!(matches!(action, StateAction::NextState));
    let (read, action) = read.step(StateEvent::State(None));
    assert!(!read.accepts(&StateEvent::State(None)));
    match action {
        StateAction::Return(Ok(eager)) => {
            assert!(!eager.is_partial);
            assert_eq!(
                eager.state,
                vec![
                    (Bytes::from_static(b"b"), Bytes::from_static(b"1")),
                    (Bytes::from_static(b"a"), Bytes::from_static(b"2")),
                ]
            );
        }
        other => panic!("{other:?}"),
    }
}

#[test]
fn state_read_ends_at_the_first_failure() {
    let text = |s: &'static str| Text::from_bytes(Bytes::from_static(s.as_bytes())).unwrap();
    let service_id = ServiceId::with_partition_key(1, text("Greeter"), text("joe"));
    let reader = InvokerStorageReader::new(());

    let (read, _) = reader.read_state(&service_id);
    let (_, action) = read.step(StateEvent::Opened(Err(failure())));
    assert!(matches!(
        action,
        StateAction::Return(Err(InvokerStorageReaderError::Storage(_)))
    ));

    let (read, _) = reader.read_state(&service_id);
    let (read, _) = read.step(StateEvent::Opened(Ok(())));
    let (read, _) = read.step(pair("a", "1"));
    let (read, action) = read.step(StateEvent::State(Some(Err(failure()))));
    assert!(matches!(
        action,
        StateAction::Return(Err(InvokerStorageReaderError::Storage(StorageError::Generic(d)))) if d == "disk"
    ));
    assert!(!read.accepts(&pair("b", "2")));
}
