use bytes::Bytes;
use restate_node::buffers::Text;
use restate_node::promise_table::{
    all_promises, create_key, delete_all_promises, emit_key, get_promise, promise_row, put_promise,
    DeleteAllPromises, DeleteStep, PromiseKey, StorageRequest, TableKind, TableScan,
};
use restate_node::storage::{ServiceId, StorageError};
use std::collections::BTreeMap;

fn text(s: &'static str) -> Text {
    Text::from_bytes(Bytes::from_static(s.as_bytes())).unwrap()
}

fn service(partition_key: u64, name: &'static str, key: &'static str) -> ServiceId {
    ServiceId::with_partition_key(partition_key, text(name), text(key))
}

fn is_key(
    key: &PromiseKey,
    partition_key: u64,
    name: &str,
    service_key: &str,
    promise: Option<&str>,
) -> bool {
    key.partition_key == Some(partition_key)
        && key.service_name.as_ref().unwrap().as_bytes() == name.as_bytes()
        && key.service_key.as_ref().unwrap() == service_key.as_bytes()
        && key.key.as_ref().map(|k| k.as_bytes().to_vec())
            == promise.map(|p| p.as_bytes().to_vec())
}

fn generic(description: &str) -> StorageError {
    StorageError::Generic(description.to_string())
}

#[test]
fn text_keeps_its_encoding() {
    assert_eq!(text("né").as_bytes(), &Bytes::from_static(b"n\xc3\xa9"));
    assert_eq!(text("né").clone().as_bytes(), &Bytes::from_static(b"n\xc3\xa9"));
}

#[test]
fn text_is_not_made_of_other_bytes() {
    let flaw = Text::from_bytes(Bytes::from_static(b"ab\xff")).unwrap_err();
    assert_eq!(flaw, "invalid utf-8 sequence of 1 bytes from index 2");
    let flaw = Text::from_bytes(Bytes::from_static(b"a\xc3")).unwrap_err();
    assert_eq!(flaw, "incomplete utf-8 byte sequence from index 1");
}

#[test]
fn created_key_has_all_components() {
    let key = create_key(&service(7, "Greeter", "né"), &text("done"));
    assert!(is_key(&key, 7, "Greeter", "né", Some("done")));
}

#[test]
fn get_reads_the_created_key() {
    match get_promise::<u8>(Ok(()), &service(7, "Greeter", "joe"), &text("done")) {
        Ok(StorageRequest::GetValue(key)) => {
            assert!(is_key(&key, 7, "Greeter", "joe", Some("done")))
        }
        other => panic!("{other:?}"),
    }
}

#[test]
fn put_writes_the_created_key() {
    match put_promise(Ok(()), &service(7, "Greeter", "joe"), &text("done"), "promise") {
        Ok(StorageRequest::PutKv(key, value)) => {
            assert!(is_key(&key, 7, "Greeter", "joe", Some("done")));
            assert_eq!(value, "promise");
        }
        other => panic!("{other:?}"),
    }
}

#[test]
fn refused_partition_key_reaches_no_row() {
    let id = service(7, "Greeter", "joe");
    let refused = || Err(generic("not here"));
    assert!(
        matches!(get_promise::<u8>(refused(), &id, &text("a")), Err(StorageError::Generic(d)) if d == "not here")
    );
    assert!(
        matches!(put_promise(refused(), &id, &text("a"), 1u8), Err(StorageError::Generic(d)) if d == "not here")
    );
    assert!(
        matches!(delete_all_promises(refused(), &id), Err(StorageError::Generic(d)) if d == "not here")
    );
}

#[test]
fn all_promises_scans_the_range() {
    assert!(matches!(
        all_promises(3..=9),
        TableScan::FullScanPartitionKeyRange(range) if range == (3..=9)
    ));
}

#[test]
fn row_of_a_created_key_names_its_promise() {
    let key = create_key(&service(7, "Greeter", "né"), &text("done"));
    let row = promise_row(Ok(key), Ok(5u8)).unwrap();
    assert_eq!(row.service_id.partition_key(), 7);
    assert_eq!(row.service_id.service_name.as_bytes(), "Greeter".as_bytes());
    assert_eq!(row.service_id.key.as_bytes(), "né".as_bytes());
    assert_eq!(row.key.as_bytes(), "done".as_bytes());
    assert_eq!(row.metadata, 5);
}

#[test]
fn row_reports_a_flawed_key_first() {
    let row = promise_row::<u8>(Err(generic("key")), Err(generic("value")));
    assert!(matches!(row, Err(StorageError::Generic(d)) if d == "key"));
}

#[test]
fn row_reports_a_flawed_value_before_a_missing_component() {
    let row = promise_row::<u8>(Ok(PromiseKey::default()), Err(generic("value")));
    assert!(matches!(row, Err(StorageError::Generic(d)) if d == "value"));
}

#[test]
fn row_needs_every_component() {
    let complete = || create_key(&service(7, "Greeter", "joe"), &text("done"));
    let mut keys = vec![complete(), complete(), complete(), complete()];
    keys[0].partition_key = None;
    keys[1].service_name = None;
    keys[2].service_key = None;
    keys[3].key = None;
    for key in keys {
        assert!(matches!(
            promise_row(Ok(key), Ok(1u8)),
            Err(StorageError::DataIntegrityError)
        ));
    }
    assert!(promise_row(Ok(complete()), Ok(1u8)).is_ok());
}

#[test]
fn row_needs_a_service_key_of_text() {
    let key = create_key(&service(7, "Greeter", "joe"), &text("done"))
        .service_key(Bytes::from_static(b"jo\xff"));
    match promise_row(Ok(key), Ok(1u8)) {
        Err(StorageError::Generic(description)) => assert_eq!(
            description,
            "Cannot convert to string invalid utf-8 sequence of 1 bytes from index 2"
        ),
        other => panic!("{other:?}"),
    }
}

#[test]
fn deletion_scans_the_prefix_of_the_service() {
    match delete_all_promises(Ok(()), &service(7, "Greeter", "joe")) {
        Ok(TableScan::SinglePartitionKeyPrefix(partition_key, prefix)) => {
            assert_eq!(partition_key, 7);
            assert!(is_key(&prefix, 7, "Greeter", "joe", None));
        }
        other => panic!("{other:?}"),
    }
}

#[test]
fn deletion_scan_keeps_keys() {
    assert_eq!(
        emit_key(b"key", b"value").unwrap(),
        Bytes::from_static(b"key")
    );
}

fn deleted_key(step: DeleteStep) -> Bytes {
    match step {
        DeleteStep::DeleteCf(TableKind::Promise, key) => key,
        other => panic!("{other:?}"),
    }
}

#[test]
fn deletion_goes_through_all_keys_in_order() {
    let keys = vec![
        emit_key(b"a", b"1"),
        emit_key(b"b", b"2"),
        emit_key(b"c", b"3"),
    ];
    let (mut deletion, step) = DeleteAllPromises::scanned(Ok(keys));
    assert_eq!(deleted_key(step), "a");
    assert_eq!(deleted_key(deletion.deleted(Ok(()))), "b");
    assert_eq!(deleted_key(deletion.deleted(Ok(()))), "c");
    assert!(matches!(
        deletion.deleted(Ok(())),
        DeleteStep::Return(Ok(()))
    ));
}

#[test]
fn deletion_of_no_promises_ends_at_once() {
    let (_, step) = DeleteAllPromises::scanned(Ok(vec![]));
    assert!(matches!(step, DeleteStep::Return(Ok(()))));
}

#[test]
fn deletion_ends_where_the_scan_cannot_begin() {
    let (_, step) = DeleteAllPromises::scanned(Err(generic("scan")));
    assert!(matches!(step, DeleteStep::Return(Err(StorageError::Generic(d))) if d == "scan"));
}

#[test]
fn deletion_ends_at_a_key_that_the_scan_failed_on() {
    let keys = vec![emit_key(b"a", b"1"), Err(generic("key")), emit_key(b"c", b"3")];
    let (mut deletion, step) = DeleteAllPromises::scanned(Ok(keys));
    assert_eq!(deleted_key(step), "a");
    let step = deletion.deleted(Ok(()));
    assert!(matches!(step, DeleteStep::Return(Err(StorageError::Generic(d))) if d == "key"));
}

#[test]
fn deletion_ends_at_a_key_that_is_not_deleted() {
    let keys = vec![emit_key(b"a", b"1"), emit_key(b"b", b"2")];
    let (mut deletion, step) = DeleteAllPromises::scanned(Ok(keys));
    assert_eq!(deleted_key(step), "a");
    let step = deletion.deleted(Err(generic("disk")));
    assert!(matches!(step, DeleteStep::Return(Err(StorageError::Generic(d))) if d == "disk"));
}

#[test]
fn storage_errors_describe_themselves() {
    assert_eq!(generic("disk").description(), "disk");
    assert_eq!(
        StorageError::DataIntegrityError.description(),
        "a stored key lacks a component"
    );
}

type Stored = (u64, Vec<u8>, Vec<u8>, Vec<u8>);

/// The rows of a store that serves every request.
#[derive(Default)]
struct Rows(BTreeMap<Stored, u8>);

fn stored(key: PromiseKey) -> Stored {
    let (partition_key, name, service_key, promise) = key.into_inner_ok_or().unwrap();
    (
        partition_key,
        name.as_bytes().to_vec(),
        service_key.to_vec(),
        promise.as_bytes().to_vec(),
    )
}

impl Rows {
    fn put(&mut self, id: &ServiceId, key: &'static str, promise: u8) {
        match put_promise(Ok(()), id, &text(key), promise) {
            Ok(StorageRequest::PutKv(key, value)) => self.0.insert(stored(key), value),
            other => panic!("{other:?}"),
        };
    }

    fn get(&self, id: &ServiceId, key: &'static str) -> Option<u8> {
        match get_promise::<u8>(Ok(()), id, &text(key)) {
            Ok(StorageRequest::GetValue(key)) => self.0.get(&stored(key)).copied(),
            other => panic!("{other:?}"),
        }
    }

    fn list(&self, range: std::ops::RangeInclusive<u64>) -> Vec<(Stored, u8)> {
        let range = match all_promises(range) {
            TableScan::FullScanPartitionKeyRange(range) => range,
            other => panic!("{other:?}"),
        };
        let bytes = |bytes: &Vec<u8>| Bytes::copy_from_slice(bytes);
        let text = |text: &Vec<u8>| Text::from_bytes(bytes(text)).unwrap();
        let visited = self.0.iter().filter(|(key, _)| range.contains(&key.0));
        visited
            .map(|(key, value)| {
                let key = PromiseKey::default()
                    .partition_key(key.0)
                    .service_name(text(&key.1))
                    .service_key(bytes(&key.2))
                    .key(text(&key.3));
                let row = promise_row(Ok(key), Ok(*value)).unwrap();
                (stored(create_key(&row.service_id, &row.key)), row.metadata)
            })
            .collect()
    }

    fn delete_all(&mut self, id: &ServiceId) -> Result<(), StorageError> {
        let prefix = match delete_all_promises(Ok(()), id) {
            Ok(TableScan::SinglePartitionKeyPrefix(_, prefix)) => stored(prefix.key(text(""))),
            other => panic!("{other:?}"),
        };
        let found: Vec<Stored> = self.0.keys().cloned().collect();
        let found: Vec<Stored> = found
            .into_iter()
            .filter(|row| (row.0, &row.1, &row.2) == (prefix.0, &prefix.1, &prefix.2))
            .collect();
        let keys = (0..found.len()).map(|i| emit_key(&[i as u8], &[])).collect();
        let (mut deletion, mut step) = DeleteAllPromises::scanned(Ok(keys));
        loop {
            match step {
                DeleteStep::DeleteCf(TableKind::Promise, key) => {
                    self.0.remove(&found[key[0] as usize]);
                    step = deletion.deleted(Ok(()));
                }
                DeleteStep::Return(result) => return result,
            }
        }
    }
}

#[test]
fn promise_is_read_back_as_stored() {
    let mut rows = Rows::default();
    let joe = service(7, "Greeter", "joe");
    assert_eq!(rows.get(&joe, "done"), None);
    rows.put(&joe, "done", 1);
    assert_eq!(rows.get(&joe, "done"), Some(1));
    rows.put(&joe, "done", 2);
    assert_eq!(rows.get(&joe, "done"), Some(2));
}

#[test]
fn promise_is_stored_apart_from_others() {
    let mut rows = Rows::default();
    let joe = service(7, "Greeter", "joe");
    let others = [
        service(8, "Greeter", "joe"),
        service(7, "Counter", "joe"),
        service(7, "Greeter", "jane"),
        service(7, "Greeterj", "oe"),
    ];
    for other in &others {
        rows.put(other, "done", 1);
    }
    rows.put(&joe, "other", 1);
    rows.put(&joe, "done", 2);
    for other in &others {
        assert_eq!(rows.get(other, "done"), Some(1));
    }
    assert_eq!(rows.get(&joe, "other"), Some(1));
}

#[test]
fn deletion_removes_one_service_and_no_other() {
    let mut rows = Rows::default();
    let joe = service(7, "Greeter", "joe");
    let jane = service(7, "Greeter", "jane");
    rows.put(&joe, "a", 1);
    rows.put(&joe, "b", 2);
    rows.put(&jane, "a", 3);
    assert!(rows.delete_all(&joe).is_ok());
    assert_eq!(rows.get(&joe, "a"), None);
    assert_eq!(rows.get(&joe, "b"), None);
    assert_eq!(rows.get(&jane, "a"), Some(3));
}

fn three_services() -> Rows {
    let mut rows = Rows::default();
    rows.put(&service(3, "Greeter", "joe"), "a", 1);
    rows.put(&service(5, "Greeter", "né"), "a", 2);
    rows.put(&service(5, "Greeter", "né"), "b", 3);
    rows.put(&service(9, "Greeter", "zoe"), "a", 4);
    rows
}

fn values(listed: &[(Stored, u8)]) -> Vec<u8> {
    listed.iter().map(|(_, value)| *value).collect()
}

#[test]
fn listing_holds_the_rows_of_its_range() {
    let rows = three_services();
    assert_eq!(values(&rows.list(0..=u64::MAX)), [1, 2, 3, 4]);
    assert_eq!(values(&rows.list(4..=8)), [2, 3]);
    assert_eq!(values(&rows.list(3..=5)), [1, 2, 3]);
    assert!(rows.list(6..=8).is_empty());
}

#[test]
fn listing_gives_back_a_stored_promise() {
    let mut rows = three_services();
    rows.put(&service(5, "Greeter", "né"), "a", 7);
    rows.put(&service(5, "Greeter", "né"), "c", 8);
    assert!(rows.delete_all(&service(3, "Greeter", "joe")).is_ok());
    let key = stored(create_key(&service(5, "Greeter", "né"), &text("a")));
    let listed = rows.list(5..=5);
    let found: Vec<_> = listed.iter().filter(|row| row.0 == key).collect();
    assert_eq!(found, [&(key, 7)]);
}

#[test]
fn adjoining_ranges_make_up_the_whole() {
    let rows = three_services();
    let mut parts = rows.list(3..=5);
    parts.extend(rows.list(6..=9));
    assert_eq!(parts, rows.list(3..=9));
}
