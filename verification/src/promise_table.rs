//! The table of durable promises: its keys, its rows and its operations.
//!
//! An operation on the promises of one service first has the store assert that
//! it owns the service's partition key. It takes the store's answer, and yields
//! the one request that the store is to serve next, or the store's refusal.

use crate::buffers::{bytes_of, utf8_flaw, Text};
use crate::storage::{PartitionKey, ServiceId, ServiceIdView, StorageError, StorageErrorView};
use bytes::Bytes;
use std::ops::RangeInclusive;
use vstd::prelude::*;
use vstd::string::StringExecFns;
use vstd::utf8::{decode_utf8, encode_utf8, valid_utf8};

verus! {

/// The tables of a partition store that this module writes to.
#[derive(Clone, Copy, Debug, PartialEq, Eq, Structural)]
pub enum TableKind {
    Promise,
}

/// A key of the promise table. A key with its first components only is a
/// prefix: it stands for all keys that begin with them.
#[derive(Debug)]
pub struct PromiseKey {
    pub partition_key: Option<PartitionKey>,
    pub service_name: Option<Text>,
    pub service_key: Option<Bytes>,
    pub key: Option<Text>,
}

/// The mathematical content of a [`PromiseKey`].
#[verifier::ext_equal]
pub struct PromiseKeyView {
    pub partition_key: Option<PartitionKey>,
    pub service_name: Option<Seq<char>>,
    pub service_key: Option<Seq<u8>>,
    pub key: Option<Seq<char>>,
}

/// The characters of a string that may be missing.
pub open spec fn optional_text(string: Option<Text>) -> Option<Seq<char>> {
    match string {
        Some(s) => Some(s@),
        None => None,
    }
}

/// The bytes of a buffer that may be missing.
pub open spec fn optional_bytes(buffer: Option<Bytes>) -> Option<Seq<u8>> {
    match buffer {
        Some(b) => Some(bytes_of(b)),
        None => None,
    }
}

impl View for PromiseKey {
    type V = PromiseKeyView;

    open spec fn view(&self) -> PromiseKeyView {
        PromiseKeyView {
            partition_key: self.partition_key,
            service_name: optional_text(self.service_name),
            service_key: optional_bytes(self.service_key),
            key: optional_text(self.key),
        }
    }
}

impl PromiseKeyView {
    /// Whether no component is missing.
    pub open spec fn is_complete(self) -> bool {
        &&& self.partition_key is Some
        &&& self.service_name is Some
        &&& self.service_key is Some
        &&& self.key is Some
    }

    /// Whether this key has every component that `prefix` has.
    pub open spec fn extends(self, prefix: PromiseKeyView) -> bool {
        &&& prefix.partition_key is Some ==> self.partition_key == prefix.partition_key
        &&& prefix.service_name is Some ==> self.service_name == prefix.service_name
        &&& prefix.service_key is Some ==> self.service_key == prefix.service_key
        &&& prefix.key is Some ==> self.key == prefix.key
    }
}

/// The prefix of the keys of all promises of a service.
pub open spec fn service_prefix(service: ServiceIdView) -> PromiseKeyView {
    PromiseKeyView {
        partition_key: Some(service.partition_key),
        service_name: Some(service.service_name),
        service_key: Some(encode_utf8(service.key)),
        key: None,
    }
}

/// The key of one promise of a service.
pub open spec fn promise_key(service: ServiceIdView, key: Seq<char>) -> PromiseKeyView {
    PromiseKeyView { key: Some(key), ..service_prefix(service) }
}

/// The service and the promise that a key stands for, or why it stands for none.
pub open spec fn key_owner(key: PromiseKeyView) -> Result<
    (ServiceIdView, Seq<char>),
    StorageErrorView,
> {
    if !key.is_complete() {
        Err(StorageErrorView::DataIntegrityError)
    } else if !valid_utf8(key.service_key->0) {
        Err(
            StorageErrorView::Generic(
                "Cannot convert to string "@ + utf8_flaw(key.service_key->0),
            ),
        )
    } else {
        Ok(
            (
                ServiceIdView {
                    partition_key: key.partition_key->0,
                    service_name: key.service_name->0,
                    key: decode_utf8(key.service_key->0),
                },
                key.key->0,
            ),
        )
    }
}

impl Default for PromiseKey {
    fn default() -> (key: PromiseKey)
        ensures
            key.partition_key is None,
            key.service_name is None,
            key.service_key is None,
            key.key is None,
    {
        PromiseKey { partition_key: None, service_name: None, service_key: None, key: None }
    }
}

impl PromiseKey {
    /// This key with the given partition key.
    pub fn partition_key(self, partition_key: PartitionKey) -> (key: PromiseKey)
        ensures
            key == (PromiseKey { partition_key: Some(partition_key), ..self }),
    {
        PromiseKey { partition_key: Some(partition_key), ..self }
    }

    /// This key with the given service name.
    pub fn service_name(self, service_name: Text) -> (key: PromiseKey)
        ensures
            key == (PromiseKey { service_name: Some(service_name), ..self }),
    {
        PromiseKey { service_name: Some(service_name), ..self }
    }

    /// This key with the given service key.
    pub fn service_key(self, service_key: Bytes) -> (key: PromiseKey)
        ensures
            key == (PromiseKey { service_key: Some(service_key), ..self }),
    {
        PromiseKey { service_key: Some(service_key), ..self }
    }

    /// This key with the given promise key.
    pub fn key(self, key: Text) -> (result: PromiseKey)
        ensures
            result == (PromiseKey { key: Some(key), ..self }),
    {
        PromiseKey { key: Some(key), ..self }
    }

    /// All components of this key, or an error where one is missing.
    pub fn into_inner_ok_or(self) -> (components: Result<
        (PartitionKey, Text, Bytes, Text),
        StorageError,
    >)
        ensures
            components is Ok <==> self@.is_complete(),
            components is Ok <==> self.partition_key is Some && self.service_name is Some
                && self.service_key is Some && self.key is Some,
            components matches Ok((partition_key, service_name, service_key, key)) ==> self == (
            PromiseKey {
                partition_key: Some(partition_key),
                service_name: Some(service_name),
                service_key: Some(service_key),
                key: Some(key),
            }),
            components matches Err(error) ==> error is DataIntegrityError,
    {
        match (self.partition_key, self.service_name, self.service_key, self.key) {
            (Some(partition_key), Some(service_name), Some(service_key), Some(key)) => Ok(
                (partition_key, service_name, service_key, key),
            ),
            _ => Err(StorageError::DataIntegrityError),
        }
    }
}

/// The prefix of the keys of all promises of a service.
fn create_prefix(service_id: &ServiceId) -> (prefix: PromiseKey)
    ensures
        prefix@ == service_prefix(service_id@),
        prefix.partition_key == Some(service_id.partition_key),
        prefix.service_name matches Some(name) && name@ == service_id.service_name@,
        prefix.service_key matches Some(bytes) && bytes_of(bytes) == encode_utf8(
            service_id.key@,
        ),
        prefix.key is None,
{
    PromiseKey::default()
        .partition_key(service_id.partition_key())
        .service_name(service_id.service_name.clone())
        .service_key(service_id.key.as_bytes().clone())
}

/// The key of one promise of a service.
pub fn create_key(service_id: &ServiceId, key: &Text) -> (promise: PromiseKey)
    ensures
        promise@ == promise_key(service_id@, key@),
        promise.partition_key == Some(service_id.partition_key),
        promise.service_name matches Some(name) && name@ == service_id.service_name@,
        promise.service_key matches Some(bytes) && bytes_of(bytes) == encode_utf8(
            service_id.key@,
        ),
        promise.key matches Some(name) && name@ == key@,
{
    create_prefix(service_id).key(key.clone())
}

/// The part of the promise table that a scan visits.
#[derive(Debug)]
pub enum TableScan {
    /// All keys whose partition key lies in a range.
    FullScanPartitionKeyRange(RangeInclusive<PartitionKey>),
    /// All keys with a partition key that begin with a prefix.
    SinglePartitionKeyPrefix(PartitionKey, PromiseKey),
}

/// The mathematical content of a [`TableScan`].
#[verifier::ext_equal]
pub enum TableScanView {
    FullScanPartitionKeyRange(RangeInclusive<PartitionKey>),
    SinglePartitionKeyPrefix(PartitionKey, PromiseKeyView),
}

impl View for TableScan {
    type V = TableScanView;

    open spec fn view(&self) -> TableScanView {
        match *self {
            TableScan::FullScanPartitionKeyRange(range) =>
                TableScanView::FullScanPartitionKeyRange(range),
            TableScan::SinglePartitionKeyPrefix(partition_key, prefix) =>
                TableScanView::SinglePartitionKeyPrefix(partition_key, prefix@),
        }
    }
}

/// A point request to the store.
#[derive(Debug)]
pub enum StorageRequest<P> {
    /// Read the value at a key.
    GetValue(PromiseKey),
    /// Store a value at a key, in place of the one that is there.
    PutKv(PromiseKey, P),
}

/// The mathematical content of a [`StorageRequest`].
#[verifier::ext_equal]
pub enum StorageRequestView<P> {
    GetValue(PromiseKeyView),
    PutKv(PromiseKeyView, P),
}

impl<P> View for StorageRequest<P> {
    type V = StorageRequestView<P>;

    open spec fn view(&self) -> StorageRequestView<P> {
        match *self {
            StorageRequest::GetValue(key) => StorageRequestView::GetValue(key@),
            StorageRequest::PutKv(key, value) => StorageRequestView::PutKv(key@, value),
        }
    }
}

/// Reads one promise of a service. `asserted` is the store's answer to whether
/// it owns the partition key of the service.
///
/// What the store reads is the operation's result.
pub fn get_promise<P>(
    asserted: Result<(), StorageError>,
    service_id: &ServiceId,
    key: &Text,
) -> (request: Result<StorageRequest<P>, StorageError>)
    ensures
        match asserted {
            Ok(()) => request matches Ok(r) && r@ == StorageRequestView::<P>::GetValue(
                promise_key(service_id@, key@),
            ),
            Err(refusal) => request == Err::<StorageRequest<P>, StorageError>(refusal),
        },
        asserted is Ok ==> (request matches Ok(StorageRequest::GetValue(at)) && {
                &&& at.partition_key == Some(service_id.partition_key)
                &&& at.service_name matches Some(name) && name@ == service_id.service_name@
                &&& at.service_key matches Some(bytes) && bytes_of(bytes) == encode_utf8(
                    service_id.key@,
                )
                &&& at.key matches Some(name) && name@ == key@
            }),
{
    match asserted {
        Ok(()) => Ok(StorageRequest::GetValue(create_key(service_id, key))),
        Err(refusal) => Err(refusal),
    }
}

/// Stores one promise of a service. `asserted` is the store's answer to whether
/// it owns the partition key of the service.
///
/// Whether the store could write is the operation's result.
pub fn put_promise<P>(
    asserted: Result<(), StorageError>,
    service_id: &ServiceId,
    key: &Text,
    promise: P,
) -> (request: Result<StorageRequest<P>, StorageError>)
    ensures
        match asserted {
            Ok(()) => request matches Ok(r) && r@ == StorageRequestView::PutKv(
                promise_key(service_id@, key@),
                promise,
            ),
            Err(refusal) => request == Err::<StorageRequest<P>, StorageError>(refusal),
        },
        asserted is Ok ==> (request matches Ok(StorageRequest::PutKv(at, value)) && {
                &&& at.partition_key == Some(service_id.partition_key)
                &&& at.service_name matches Some(name) && name@ == service_id.service_name@
                &&& at.service_key matches Some(bytes) && bytes_of(bytes) == encode_utf8(
                    service_id.key@,
                )
                &&& at.key matches Some(name) && name@ == key@
                &&& value == promise
            }),
{
    match asserted {
        Ok(()) => Ok(StorageRequest::PutKv(create_key(service_id, key), promise)),
        Err(refusal) => Err(refusal),
    }
}

/// A row of the promise table.
#[derive(Debug)]
pub struct OwnedPromiseRow<P> {
    pub service_id: ServiceId,
    pub key: Text,
    pub metadata: P,
}

/// The mathematical content of an [`OwnedPromiseRow`].
#[verifier::ext_equal]
pub struct OwnedPromiseRowView<P> {
    pub service_id: ServiceIdView,
    pub key: Seq<char>,
    pub metadata: P,
}

impl<P> View for OwnedPromiseRow<P> {
    type V = OwnedPromiseRowView<P>;

    open spec fn view(&self) -> OwnedPromiseRowView<P> {
        OwnedPromiseRowView {
            service_id: self.service_id@,
            key: self.key@,
            metadata: self.metadata,
        }
    }
}

/// The row of a promise that is stored at a key, or why the key stands for none.
pub open spec fn row_of<P>(key: PromiseKeyView, metadata: P) -> Result<
    OwnedPromiseRowView<P>,
    StorageErrorView,
> {
    match key_owner(key) {
        Ok((service_id, name)) => Ok(OwnedPromiseRowView { service_id, key: name, metadata }),
        Err(flaw) => Err(flaw),
    }
}

/// Reads all promises whose partition key lies in `range`: the scan to run.
/// Each item that it finds becomes one row, by [`promise_row`].
pub fn all_promises(range: RangeInclusive<PartitionKey>) -> (scan: TableScan)
    ensures
        scan@ == TableScanView::FullScanPartitionKeyRange(range),
        scan == TableScan::FullScanPartitionKeyRange(range),
{
    TableScan::FullScanPartitionKeyRange(range)
}

/// The row of one item of a scan over all promises. `key` and `metadata` are the
/// decoded key and value of the item. Of several flaws the first is reported: in
/// the key's encoding, in the value's encoding, in the key's components.
pub fn promise_row<P>(
    key: Result<PromiseKey, StorageError>,
    metadata: Result<P, StorageError>,
) -> (row: Result<OwnedPromiseRow<P>, StorageError>)
    ensures
        match (key, metadata) {
            (Err(flaw), _) => row == Err::<OwnedPromiseRow<P>, StorageError>(flaw),
            (Ok(_), Err(flaw)) => row == Err::<OwnedPromiseRow<P>, StorageError>(flaw),
            (Ok(k), Ok(value)) => match row_of(k@, value) {
                Ok(expected) => row matches Ok(r) && r@ == expected,
                Err(flaw) => row matches Err(error) && error@ == flaw,
            },
        },
        match (key, metadata) {
            (Ok(k), Ok(value)) => match (k.partition_key, k.service_name, k.service_key, k.key) {
                (Some(partition_key), Some(service_name), Some(service_key), Some(name)) =>
                    if valid_utf8(bytes_of(service_key)) {
                        row matches Ok(r) && {
                            &&& r.service_id.partition_key == partition_key
                            &&& r.service_id.service_name@ == service_name@
                            &&& r.service_id.key@ == decode_utf8(bytes_of(service_key))
                            &&& r.key@ == name@
                            &&& r.metadata == value
                        }
                    } else {
                        row matches Err(StorageError::Generic(description)) && description@
                            == "Cannot convert to string "@ + utf8_flaw(bytes_of(service_key))
                    },
                _ => row matches Err(error) && error is DataIntegrityError,
            },
            _ => true,
        },
{
    let key = match key {
        Ok(key) => key,
        Err(flaw) => return Err(flaw),
    };
    let metadata = match metadata {
        Ok(metadata) => metadata,
        Err(flaw) => return Err(flaw),
    };
    let (partition_key, service_name, service_key, promise_key) = match key.into_inner_ok_or() {
        Ok(components) => components,
        Err(flaw) => return Err(flaw),
    };
    match Text::from_bytes(service_key) {
        Ok(service_key) => Ok(
            OwnedPromiseRow {
                service_id: ServiceId::with_partition_key(partition_key, service_name, service_key),
                key: promise_key,
                metadata,
            },
        ),
        Err(flaw) => {
            let mut description: String = "Cannot convert to string ".to_owned();
            description.append(flaw.as_str());
            Err(StorageError::Generic(description))
        },
    }
}

/// Deletes all promises of a service: the scan that finds their keys, which go
/// through [`emit_key`] and then, all of them, to [`DeleteAllPromises::scanned`].
/// `asserted` is the store's answer to whether it owns the partition key of the
/// service.
pub fn delete_all_promises(asserted: Result<(), StorageError>, service_id: &ServiceId) -> (scan:
    Result<TableScan, StorageError>)
    ensures
        match asserted {
            Ok(()) => scan matches Ok(s) && s@ == TableScanView::SinglePartitionKeyPrefix(
                service_id@.partition_key,
                service_prefix(service_id@),
            ),
            Err(refusal) => scan == Err::<TableScan, StorageError>(refusal),
        },
        asserted is Ok ==> (scan matches Ok(TableScan::SinglePartitionKeyPrefix(of, prefix)) && {
            &&& of == service_id.partition_key
            &&& prefix.partition_key == Some(service_id.partition_key)
            &&& prefix.service_name matches Some(name) && name@ == service_id.service_name@
            &&& prefix.service_key matches Some(bytes) && bytes_of(bytes) == encode_utf8(
                service_id.key@,
            )
            &&& prefix.key is None
        }),
{
    match asserted {
        Ok(()) => Ok(
            TableScan::SinglePartitionKeyPrefix(
                service_id.partition_key(),
                create_prefix(service_id),
            ),
        ),
        Err(refusal) => Err(refusal),
    }
}

/// What a scan for deletion keeps of a stored item: a copy of its key.
pub fn emit_key(key: &[u8], _value: &[u8]) -> (emitted: Result<Bytes, StorageError>)
    ensures
        emitted matches Ok(copy) && bytes_of(copy) == key@,
{
    Ok(Bytes::copy_from_slice(key))
}

/// The deletion of all promises of a service, once the scan for their keys has
/// ended: the keys that are still to be deleted.
#[derive(Debug)]
pub struct DeleteAllPromises {
    /// The keys in the reverse of the order in which the scan found them.
    reversed: Vec<Result<Bytes, StorageError>>,
}

/// What the store is to do next in a deletion.
#[derive(Debug)]
pub enum DeleteStep {
    /// Delete the value at a key of a table, and report to
    /// [`DeleteAllPromises::deleted`].
    DeleteCf(TableKind, Bytes),
    /// Nothing: this is how the deletion ended.
    Return(Result<(), StorageError>),
}

/// What is left to delete, first to last.
pub type PendingKeys = Seq<Result<Bytes, StorageError>>;

/// What to do next where `pending` is left to delete, and what is left then. The
/// deletion ends where no key is left or where the scan failed on the next one.
pub open spec fn next_delete(pending: PendingKeys) -> (DeleteStep, PendingKeys) {
    if pending.len() == 0 {
        (DeleteStep::Return(Ok(())), pending)
    } else {
        match pending[0] {
            Ok(key) => (DeleteStep::DeleteCf(TableKind::Promise, key), pending.drop_first()),
            Err(error) => (DeleteStep::Return(Err(error)), Seq::empty()),
        }
    }
}

impl View for DeleteAllPromises {
    type V = PendingKeys;

    closed spec fn view(&self) -> PendingKeys {
        self.reversed@.reverse()
    }
}

impl DeleteAllPromises {
    /// Begins the deletion with what the scan found.
    pub fn scanned(keys: Result<Vec<Result<Bytes, StorageError>>, StorageError>) -> (begun: (
        DeleteAllPromises,
        DeleteStep,
    ))
        ensures
            match keys {
                Ok(found) => (begun.1, begun.0@) == next_delete(found@),
                Err(error) => begun.1 == DeleteStep::Return(Err(error)) && begun.0@.len() == 0,
            },
            keys matches Ok(found) ==> {
                &&& found@.len() == 0 ==> begun.1 == DeleteStep::Return(Ok(())) && begun.0@.len()
                    == 0
                &&& found@.len() > 0 ==> match found@[0] {
                    Ok(key) => begun.1 == DeleteStep::DeleteCf(TableKind::Promise, key) && begun.0@
                        == found@.drop_first(),
                    Err(error) => begun.1 == DeleteStep::Return(Err(error)) && begun.0@.len() == 0,
                }
            },
    {
        let mut keys = match keys {
            Ok(keys) => keys,
            Err(error) => return (
                DeleteAllPromises { reversed: Vec::new() },
                DeleteStep::Return(Err(error)),
            ),
        };
        let ghost found = keys@;
        let mut reversed: Vec<Result<Bytes, StorageError>> = Vec::new();
        while keys.len() > 0
            invariant
                keys@.len() + reversed@.len() == found.len(),
                keys@ == found.take(keys@.len() as int),
                reversed@ == found.skip(keys@.len() as int).reverse(),
            decreases keys@.len(),
        {
            if let Some(key) = keys.pop() {
                reversed.push(key);
            }
            assert(keys@ == found.take(keys@.len() as int));
            assert(reversed@ == found.skip(keys@.len() as int).reverse());
        }
        assert(reversed@.reverse() == found);
        let mut deletion = DeleteAllPromises { reversed };
        let step = deletion.next();
        (deletion, step)
    }

    /// Goes on once the store has deleted a key, or has failed to. A failure ends
    /// the deletion: the keys deleted so far stay deleted.
    pub fn deleted(&mut self, outcome: Result<(), StorageError>) -> (step: DeleteStep)
        ensures
            match outcome {
                Ok(()) => (step, final(self)@) == next_delete(old(self)@),
                Err(error) => step == DeleteStep::Return(Err(error)) && final(self)@.len() == 0,
            },
            outcome is Ok ==> {
                &&& old(self)@.len() == 0 ==> step == DeleteStep::Return(Ok(())) && final(self)@.len()
                    == 0
                &&& old(self)@.len() > 0 ==> match old(self)@[0] {
                    Ok(key) => step == DeleteStep::DeleteCf(TableKind::Promise, key)
                        && final(self)@ == old(self)@.drop_first(),
                    Err(error) => step == DeleteStep::Return(Err(error)) && final(self)@.len() == 0,
                }
            },
    {
        match outcome {
            Ok(()) => self.next(),
            Err(error) => {
                self.reversed.clear();
                DeleteStep::Return(Err(error))
            },
        }
    }

    fn next(&mut self) -> (step: DeleteStep)
        ensures
            (step, final(self)@) == next_delete(old(self)@),
    {
        match self.reversed.pop() {
            None => {
                assert(self@ == old(self)@);
                DeleteStep::Return(Ok(()))
            },
            Some(Ok(key)) => {
                assert(self@ == old(self)@.drop_first());
                DeleteStep::DeleteCf(TableKind::Promise, key)
            },
            Some(Err(error)) => {
                self.reversed.clear();
                assert(self@ == Seq::<Result<Bytes, StorageError>>::empty());
                DeleteStep::Return(Err(error))
            },
        }
    }
}

} // verus!
