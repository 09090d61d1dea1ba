//! What holds of the promise table as a whole.
//!
//! The rows of the table are modelled as a map from keys to promises. Requests,
//! scans and deletions are given their meaning on such a map; the laws say what
//! comes of the operations of [`crate::promise_table`] there.

use crate::buffers::{bytes_of, utf8_flaw, Text};
use crate::promise_table::{
    all_promises, create_key, delete_all_promises, emit_key, get_promise, key_owner, next_delete,
    promise_key, promise_row, put_promise, row_of, service_prefix, DeleteAllPromises, DeleteStep,
    OwnedPromiseRow, OwnedPromiseRowView, PendingKeys, PromiseKey, PromiseKeyView, StorageRequest,
    StorageRequestView, TableKind, TableScan, TableScanView,
};
use crate::storage::{PartitionKey, ServiceId, ServiceIdView, StorageError, StorageErrorView};
use bytes::Bytes;
use std::ops::RangeInclusive;
use vstd::prelude::*;
use vstd::utf8::{
    decode_utf8, decode_utf8_encode_utf8, encode_utf8, encode_utf8_decode_utf8,
    encode_utf8_valid_utf8, valid_utf8,
};

verus! {

/// The rows of a promise table.
pub type Rows<P> = Map<PromiseKeyView, P>;

/// The rows once a request has been served.
pub open spec fn rows_after<P>(rows: Rows<P>, request: StorageRequestView<P>) -> Rows<P> {
    match request {
        StorageRequestView::GetValue(_) => rows,
        StorageRequestView::PutKv(key, value) => rows.insert(key, value),
    }
}

/// What reading a key yields.
pub open spec fn value_at<P>(rows: Rows<P>, key: PromiseKeyView) -> Option<P> {
    if rows.contains_key(key) {
        Some(rows[key])
    } else {
        None
    }
}

/// What a request to read yields.
pub open spec fn answer<P>(rows: Rows<P>, request: StorageRequestView<P>) -> Option<P> {
    match request {
        StorageRequestView::GetValue(key) => value_at(rows, key),
        StorageRequestView::PutKv(_, _) => None,
    }
}

/// Whether a scan visits a complete key.
pub open spec fn visits(scan: TableScanView, key: PromiseKeyView) -> bool {
    match scan {
        TableScanView::FullScanPartitionKeyRange(range) => key.partition_key matches Some(k)
            && range@.start <= k <= range@.end,
        TableScanView::SinglePartitionKeyPrefix(partition_key, prefix) => {
            &&& key.partition_key == Some(partition_key)
            &&& key.extends(prefix)
        },
    }
}

/// The request with which one promise is read.
pub open spec fn get<P>(service: ServiceIdView, key: Seq<char>) -> StorageRequestView<P> {
    StorageRequestView::GetValue(promise_key(service, key))
}

/// The request with which one promise is stored.
pub open spec fn put<P>(service: ServiceIdView, key: Seq<char>, promise: P) -> StorageRequestView<
    P,
> {
    StorageRequestView::PutKv(promise_key(service, key), promise)
}

/// The scan that finds the promises of a service for deletion.
pub open spec fn deletion_scan(service: ServiceIdView) -> TableScanView {
    TableScanView::SinglePartitionKeyPrefix(service.partition_key, service_prefix(service))
}

/// The key of a promise stands for that very promise: listing the table gives back
/// the service and the name under which a promise was stored.
pub proof fn law_key_stands_for_its_promise(service: ServiceIdView, key: Seq<char>)
    ensures
        key_owner(promise_key(service, key)) == Ok::<
            (ServiceIdView, Seq<char>),
            StorageErrorView,
        >((service, key)),
{
    encode_utf8_valid_utf8(service.key);
    encode_utf8_decode_utf8(service.key);
}

/// Different promises have different keys.
pub proof fn law_keys_are_distinct(
    service1: ServiceIdView,
    key1: Seq<char>,
    service2: ServiceIdView,
    key2: Seq<char>,
)
    requires
        promise_key(service1, key1) == promise_key(service2, key2),
    ensures
        service1 == service2,
        key1 == key2,
{
    law_key_stands_for_its_promise(service1, key1);
    law_key_stands_for_its_promise(service2, key2);
}

/// A promise that was stored is read back as it was stored.
pub proof fn law_get_after_put<P>(
    rows: Rows<P>,
    service: ServiceIdView,
    key: Seq<char>,
    promise: P,
)
    ensures
        answer(rows_after(rows, put(service, key, promise)), get(service, key)) == Some(promise),
{
}

/// Storing a promise changes no other promise: not one of the same service, nor
/// one of another.
pub proof fn law_put_leaves_other_promises<P>(
    rows: Rows<P>,
    service: ServiceIdView,
    key: Seq<char>,
    promise: P,
    other_service: ServiceIdView,
    other_key: Seq<char>,
)
    requires
        (service, key) != (other_service, other_key),
    ensures
        answer(rows_after(rows, put(service, key, promise)), get(other_service, other_key))
            == answer(rows, get(other_service, other_key)),
{
    if promise_key(service, key) == promise_key(other_service, other_key) {
        law_keys_are_distinct(service, key, other_service, other_key);
    }
}

/// Reading a promise changes no row.
pub proof fn law_get_changes_nothing<P>(rows: Rows<P>, service: ServiceIdView, key: Seq<char>)
    ensures
        rows_after(rows, get(service, key)) == rows,
{
}

/// The scan over a range of partition keys visits the promises of the services
/// that are placed in it, and no others.
pub proof fn law_full_scan_visits_the_range(
    range: RangeInclusive<PartitionKey>,
    service: ServiceIdView,
    key: Seq<char>,
)
    ensures
        visits(TableScanView::FullScanPartitionKeyRange(range), promise_key(service, key)) <==> (
        range@.start <= service.partition_key <= range@.end),
{
}

/// The scan for the promises of a service visits all of them, and none of another
/// service.
pub proof fn law_deletion_scan_visits_the_service(
    service: ServiceIdView,
    owner: ServiceIdView,
    key: Seq<char>,
)
    ensures
        visits(deletion_scan(service), promise_key(owner, key)) <==> owner == service,
{
    encode_utf8_decode_utf8(service.key);
    encode_utf8_decode_utf8(owner.key);
}

/// The encoded keys that a deletion has asked the store to delete when its store
/// has answered with `outcomes`, and how the deletion has ended, if it has.
pub open spec fn run_deletion(
    pending: PendingKeys,
    outcomes: Seq<Result<(), StorageError>>,
) -> (Seq<Seq<u8>>, Option<Result<(), StorageError>>)
    decreases outcomes.len(),
{
    let (step, rest) = next_delete(pending);
    match step {
        DeleteStep::Return(result) => (Seq::empty(), Some(result)),
        DeleteStep::DeleteCf(_, key) => if outcomes.len() == 0 {
            (seq![bytes_of(key)], None)
        } else {
            match outcomes[0] {
                Err(error) => (seq![bytes_of(key)], Some(Err(error))),
                Ok(()) => {
                    let (asked, end) = run_deletion(rest, outcomes.drop_first());
                    (seq![bytes_of(key)] + asked, end)
                },
            }
        },
    }
}

/// The first `n` encoded keys of a scan that found them without a failure.
pub open spec fn found_keys(pending: PendingKeys, n: nat) -> Seq<Seq<u8>> {
    Seq::new(n, |i: int| bytes_of(pending[i]->Ok_0))
}

/// A deletion on which nothing fails asks for every key that the scan found, once
/// and in order, and then ends well.
pub proof fn law_deletion_completes(
    pending: PendingKeys,
    outcomes: Seq<Result<(), StorageError>>,
)
    requires
        outcomes.len() >= pending.len(),
        forall|i: int| 0 <= i < pending.len() ==> (#[trigger] pending[i]) is Ok,
        forall|i: int| 0 <= i < pending.len() ==> (#[trigger] outcomes[i]) is Ok,
    ensures
        run_deletion(pending, outcomes) == (
            found_keys(pending, pending.len()),
            Some(Ok::<(), StorageError>(())),
        ),
    decreases pending.len(),
{
    if pending.len() == 0 {
        assert(found_keys(pending, 0) =~= Seq::<Seq<u8>>::empty());
    } else {
        let rest = pending.drop_first();
        law_deletion_completes(rest, outcomes.drop_first());
        assert(found_keys(pending, pending.len()) =~= seq![bytes_of(pending[0]->Ok_0)]
            + found_keys(rest, rest.len()));
    }
}

/// Where the store fails to delete the key at position `n`, the deletion ends with
/// that failure: it has asked for the keys up to that one, and for none after it.
pub proof fn law_deletion_ends_at_failed_delete(
    pending: PendingKeys,
    outcomes: Seq<Result<(), StorageError>>,
    n: nat,
    error: StorageError,
)
    requires
        n < pending.len(),
        n < outcomes.len(),
        forall|i: int| 0 <= i <= n ==> (#[trigger] pending[i]) is Ok,
        forall|i: int| 0 <= i < n ==> (#[trigger] outcomes[i]) is Ok,
        outcomes[n as int] == Err::<(), StorageError>(error),
    ensures
        run_deletion(pending, outcomes) == (
            found_keys(pending, n + 1),
            Some(Err::<(), StorageError>(error)),
        ),
    decreases n,
{
    let rest = pending.drop_first();
    if n > 0 {
        law_deletion_ends_at_failed_delete(
            rest,
            outcomes.drop_first(),
            (n - 1) as nat,
            error,
        );
    }
    assert(pending[0] is Ok);
    assert(found_keys(pending, n + 1) =~= seq![bytes_of(pending[0]->Ok_0)] + found_keys(rest, n));
    if n == 0 {
        assert(found_keys(pending, 1) =~= seq![bytes_of(pending[0]->Ok_0)]);
    }
}

/// Where the scan failed on the key at position `n`, the deletion ends with that
/// failure once the keys before it are deleted.
pub proof fn law_deletion_ends_at_failed_scan(
    pending: PendingKeys,
    outcomes: Seq<Result<(), StorageError>>,
    n: nat,
    error: StorageError,
)
    requires
        n < pending.len(),
        n <= outcomes.len(),
        forall|i: int| 0 <= i < n ==> (#[trigger] pending[i]) is Ok,
        forall|i: int| 0 <= i < n ==> (#[trigger] outcomes[i]) is Ok,
        pending[n as int] == Err::<Bytes, StorageError>(error),
    ensures
        run_deletion(pending, outcomes) == (
            found_keys(pending, n),
            Some(Err::<(), StorageError>(error)),
        ),
    decreases n,
{
    if n == 0 {
        assert(found_keys(pending, 0) =~= Seq::<Seq<u8>>::empty());
    } else {
        let rest = pending.drop_first();
        law_deletion_ends_at_failed_scan(rest, outcomes.drop_first(), (n - 1) as nat, error);
        assert(found_keys(pending, n) =~= seq![bytes_of(pending[0]->Ok_0)] + found_keys(
            rest,
            (n - 1) as nat,
        ));
    }
}

/// However the store answers, a deletion asks only for keys that the scan found.
pub proof fn law_deletion_asks_for_found_keys(
    pending: PendingKeys,
    outcomes: Seq<Result<(), StorageError>>,
)
    ensures
        forall|raw: Seq<u8>| #[trigger]
            run_deletion(pending, outcomes).0.contains(raw) ==> exists|i: int|
                0 <= i < pending.len() && (#[trigger] pending[i] matches Ok(key) && bytes_of(key)
                    == raw),
    decreases outcomes.len(),
{
    let (step, rest) = next_delete(pending);
    if step is DeleteCf && outcomes.len() > 0 {
        law_deletion_asks_for_found_keys(rest, outcomes.drop_first());
    }
    assert forall|raw: Seq<u8>| #[trigger] run_deletion(pending, outcomes).0.contains(raw) implies (
    exists|i: int|
        0 <= i < pending.len() && (#[trigger] pending[i] matches Ok(key) && bytes_of(key) == raw)) by {
        let asked = run_deletion(pending, outcomes).0;
        let at = choose|at: int| 0 <= at < asked.len() && asked[at] == raw;
        assert(pending[0] is Ok);
        if at > 0 {
            let later = run_deletion(rest, outcomes.drop_first()).0;
            assert(later[at - 1] == raw);
            assert(later.contains(raw));
            let i = choose|i: int|
                0 <= i < rest.len() && (#[trigger] rest[i] matches Ok(key) && bytes_of(key) == raw);
            assert(pending[i + 1] == rest[i]);
        }
    }
}

/// The rows without those whose keys are encoded as one of `asked`.
pub open spec fn rows_without<P>(
    rows: Rows<P>,
    encode: spec_fn(PromiseKeyView) -> Seq<u8>,
    asked: Seq<Seq<u8>>,
) -> Rows<P> {
    Map::new(
        |key: PromiseKeyView| rows.contains_key(key) && !asked.contains(encode(key)),
        |key: PromiseKeyView| rows[key],
    )
}

/// Whether a scan for deletion has found the encoded keys of rows that it visits,
/// and no others.
pub open spec fn found_only<P>(
    rows: Rows<P>,
    encode: spec_fn(PromiseKeyView) -> Seq<u8>,
    scan: TableScanView,
    pending: PendingKeys,
) -> bool {
    forall|i: int|
        0 <= i < pending.len() && (#[trigger] pending[i]) is Ok ==> exists|key: PromiseKeyView|
         #[trigger]
            rows.contains_key(key) && visits(scan, key) && encode(key) == bytes_of(
                pending[i]->Ok_0,
            )
}

/// Whether a scan for deletion has found the encoded keys of exactly the rows that
/// it visits, in any order and without a failure.
pub open spec fn found_all<P>(
    rows: Rows<P>,
    encode: spec_fn(PromiseKeyView) -> Seq<u8>,
    scan: TableScanView,
    pending: PendingKeys,
) -> bool {
    &&& found_only(rows, encode, scan, pending)
    &&& forall|i: int| 0 <= i < pending.len() ==> (#[trigger] pending[i]) is Ok
    &&& forall|key: PromiseKeyView| #[trigger]
        rows.contains_key(key) && visits(scan, key) ==> exists|i: int|
            0 <= i < pending.len() && encode(key) == bytes_of((#[trigger] pending[i])->Ok_0)
}

/// Whether no two rows have keys with the same encoding.
pub open spec fn encoding_is_faithful<P>(
    rows: Rows<P>,
    encode: spec_fn(PromiseKeyView) -> Seq<u8>,
) -> bool {
    forall|key1: PromiseKeyView, key2: PromiseKeyView|
        #![trigger rows.contains_key(key1), rows.contains_key(key2)]
        rows.contains_key(key1) && rows.contains_key(key2) && encode(key1) == encode(key2) ==> key1
            == key2
}

/// Deleting all promises of a service removes every one of them and leaves the
/// promises of all other services as they are, where nothing fails.
pub proof fn law_delete_all_removes_the_service<P>(
    rows: Rows<P>,
    encode: spec_fn(PromiseKeyView) -> Seq<u8>,
    service: ServiceIdView,
    pending: PendingKeys,
    outcomes: Seq<Result<(), StorageError>>,
    owner: ServiceIdView,
    key: Seq<char>,
)
    requires
        encoding_is_faithful(rows, encode),
        found_all(rows, encode, deletion_scan(service), pending),
        outcomes.len() >= pending.len(),
        forall|i: int| 0 <= i < pending.len() ==> (#[trigger] outcomes[i]) is Ok,
    ensures
        run_deletion(pending, outcomes).1 == Some(Ok::<(), StorageError>(())),
        answer(rows_without(rows, encode, run_deletion(pending, outcomes).0), get(owner, key)) == (
        if owner == service {
            None
        } else {
            answer(rows, get(owner, key))
        }),
{
    law_deletion_completes(pending, outcomes);
    let asked = run_deletion(pending, outcomes).0;
    assert(asked == found_keys(pending, pending.len()));
    let at = promise_key(owner, key);
    law_deletion_scan_visits_the_service(service, owner, key);
    if owner == service && rows.contains_key(at) {
        let i = choose|i: int|
            0 <= i < pending.len() && encode(at) == bytes_of((#[trigger] pending[i])->Ok_0);
        assert(asked[i] == encode(at));
        assert(asked.contains(encode(at)));
    }
    if owner != service {
        law_deletion_spares_other_services(
            rows,
            encode,
            service,
            pending,
            outcomes,
            owner,
            key,
        );
    }
}

/// Deleting all promises of a service leaves the promises of all other services as
/// they are, also where the scan or the store fails on the way.
pub proof fn law_deletion_spares_other_services<P>(
    rows: Rows<P>,
    encode: spec_fn(PromiseKeyView) -> Seq<u8>,
    service: ServiceIdView,
    pending: PendingKeys,
    outcomes: Seq<Result<(), StorageError>>,
    owner: ServiceIdView,
    key: Seq<char>,
)
    requires
        encoding_is_faithful(rows, encode),
        found_only(rows, encode, deletion_scan(service), pending),
        owner != service,
    ensures
        answer(rows_without(rows, encode, run_deletion(pending, outcomes).0), get(owner, key))
            == answer(rows, get(owner, key)),
{
    let asked = run_deletion(pending, outcomes).0;
    let at = promise_key(owner, key);
    if rows.contains_key(at) && asked.contains(encode(at)) {
        law_deletion_asks_for_found_keys(pending, outcomes);
        let i = choose|i: int|
            0 <= i < pending.len() && (#[trigger] pending[i] matches Ok(k) && bytes_of(k) == encode(
                at,
            ));
        let visited = choose|k: PromiseKeyView| #[trigger]
            rows.contains_key(k) && visits(deletion_scan(service), k) && encode(k) == bytes_of(
                pending[i]->Ok_0,
            );
        assert(rows.contains_key(visited));
        assert(visited == at);
        law_deletion_scan_visits_the_service(service, owner, key);
    }
}

/// The rows without those of a service.
pub open spec fn rows_without_service<P>(rows: Rows<P>, service: ServiceIdView) -> Rows<P> {
    Map::new(
        |key: PromiseKeyView| rows.contains_key(key) && !visits(deletion_scan(service), key),
        |key: PromiseKeyView| rows[key],
    )
}

/// Where nothing fails, deleting all promises of a service leaves exactly the rows
/// that its scan does not visit.
pub proof fn law_delete_all_leaves_the_other_rows<P>(
    rows: Rows<P>,
    encode: spec_fn(PromiseKeyView) -> Seq<u8>,
    service: ServiceIdView,
    pending: PendingKeys,
    outcomes: Seq<Result<(), StorageError>>,
)
    requires
        encoding_is_faithful(rows, encode),
        found_all(rows, encode, deletion_scan(service), pending),
        outcomes.len() >= pending.len(),
        forall|i: int| 0 <= i < pending.len() ==> (#[trigger] outcomes[i]) is Ok,
    ensures
        rows_without(rows, encode, run_deletion(pending, outcomes).0) == rows_without_service(
            rows,
            service,
        ),
{
    law_deletion_completes(pending, outcomes);
    let asked = run_deletion(pending, outcomes).0;
    let scan = deletion_scan(service);
    assert forall|key: PromiseKeyView| #[trigger] rows.contains_key(key) implies (asked.contains(
        encode(key),
    ) <==> visits(scan, key)) by {
        if asked.contains(encode(key)) {
            let i = choose|i: int| 0 <= i < asked.len() && asked[i] == encode(key);
            assert(pending[i] is Ok);
            let found = choose|k: PromiseKeyView| #[trigger]
                rows.contains_key(k) && visits(scan, k) && encode(k) == bytes_of(
                    pending[i]->Ok_0,
                );
            assert(rows.contains_key(found));
            assert(found == key);
        }
        if visits(scan, key) {
            let i = choose|i: int|
                0 <= i < pending.len() && encode(key) == bytes_of((#[trigger] pending[i])->Ok_0);
            assert(asked[i] == encode(key));
        }
    }
    assert(rows_without(rows, encode, asked) =~= rows_without_service(rows, service));
}

/// A write to the table that has ended well.
pub enum TableWrite<P> {
    /// A promise was stored.
    Put { service: ServiceIdView, key: Seq<char>, promise: P },
    /// All promises of a service were deleted.
    DeleteAll { service: ServiceIdView },
}

impl<P> TableWrite<P> {
    /// The rows once this write has been made.
    pub open spec fn apply(self, rows: Rows<P>) -> Rows<P> {
        match self {
            TableWrite::Put { service, key, promise } => rows_after(
                rows,
                put(service, key, promise),
            ),
            TableWrite::DeleteAll { service } => rows_without_service(rows, service),
        }
    }

    /// Whether this write is to a promise.
    pub open spec fn touches(self, service: ServiceIdView, key: Seq<char>) -> bool {
        match self {
            TableWrite::Put { service: s, key: k, .. } => s == service && k == key,
            TableWrite::DeleteAll { service: s } => s == service,
        }
    }
}

/// The rows once writes have been made, one after the other.
pub open spec fn rows_after_writes<P>(rows: Rows<P>, writes: Seq<TableWrite<P>>) -> Rows<P>
    decreases writes.len(),
{
    if writes.len() == 0 {
        rows
    } else {
        writes.last().apply(rows_after_writes(rows, writes.drop_last()))
    }
}

/// Whether every key of these rows is the key of the promise that it stands for.
pub open spec fn holds_promises<P>(rows: Rows<P>) -> bool {
    forall|key: PromiseKeyView| #[trigger]
        rows.contains_key(key) ==> (key_owner(key) matches Ok((service, name)) && promise_key(
            service,
            name,
        ) == key)
}

/// A table that has been written to from empty holds promises, each at its key.
pub proof fn law_table_holds_promises<P>(writes: Seq<TableWrite<P>>)
    ensures
        holds_promises(rows_after_writes(Map::empty(), writes)),
    decreases writes.len(),
{
    if writes.len() > 0 {
        law_table_holds_promises(writes.drop_last());
        if let TableWrite::Put { service, key, .. } = writes.last() {
            law_key_stands_for_its_promise(service, key);
        }
    }
}

/// A stored promise stays as it was stored until it is stored anew or the promises
/// of its service are deleted.
pub proof fn law_promise_stays_as_stored<P>(
    rows: Rows<P>,
    writes: Seq<TableWrite<P>>,
    n: int,
    service: ServiceIdView,
    key: Seq<char>,
    promise: P,
)
    requires
        0 <= n < writes.len(),
        writes[n] == (TableWrite::Put { service, key, promise }),
        forall|m: int| n < m < writes.len() ==> !(#[trigger] writes[m]).touches(service, key),
    ensures
        answer(rows_after_writes(rows, writes), get(service, key)) == Some(promise),
    decreases writes.len(),
{
    if n < writes.len() - 1 {
        let before = writes.drop_last();
        law_promise_stays_as_stored(rows, before, n, service, key, promise);
        assert(!writes[writes.len() - 1].touches(service, key));
        match writes.last() {
            TableWrite::Put { service: s, key: k, promise: p } => {
                law_put_leaves_other_promises(
                    rows_after_writes(rows, before),
                    s,
                    k,
                    p,
                    service,
                    key,
                );
            },
            TableWrite::DeleteAll { service: s } => {
                law_deletion_scan_visits_the_service(s, service, key);
            },
        }
    }
}

/// Once the promises of a service are deleted, none of them is read any more until
/// it is stored anew.
pub proof fn law_promise_stays_deleted<P>(
    rows: Rows<P>,
    writes: Seq<TableWrite<P>>,
    n: int,
    service: ServiceIdView,
    key: Seq<char>,
)
    requires
        0 <= n < writes.len(),
        writes[n] == (TableWrite::<P>::DeleteAll { service }),
        forall|m: int|
            n < m < writes.len() ==> ((#[trigger] writes[m]) is DeleteAll || !writes[m].touches(
                service,
                key,
            )),
    ensures
        answer(rows_after_writes(rows, writes), get(service, key)) is None,
    decreases writes.len(),
{
    law_deletion_scan_visits_the_service(service, service, key);
    if n < writes.len() - 1 {
        let before = writes.drop_last();
        law_promise_stays_deleted(rows, before, n, service, key);
        assert(writes[writes.len() - 1] is DeleteAll || !writes[writes.len() - 1].touches(
            service,
            key,
        ));
        if let TableWrite::Put { service: s, key: k, promise: p } = writes.last() {
            law_put_leaves_other_promises(rows_after_writes(rows, before), s, k, p, service, key);
        }
    }
}

/// Whether a scan has found the rows that it visits, each once and in any order.
pub open spec fn finds_each_once<P>(
    rows: Rows<P>,
    scan: TableScanView,
    items: Seq<(PromiseKeyView, P)>,
) -> bool {
    &&& forall|i: int|
        #![trigger items[i]]
        0 <= i < items.len() ==> visits(scan, items[i].0) && value_at(rows, items[i].0) == Some(
            items[i].1,
        )
    &&& forall|key: PromiseKeyView| #[trigger]
        rows.contains_key(key) && visits(scan, key) ==> exists|i: int|
            0 <= i < items.len() && (#[trigger] items[i]).0 == key
    &&& forall|i: int, j: int|
        0 <= i < j < items.len() ==> (#[trigger] items[i]).0 != (#[trigger] items[j]).0
}

/// The rows of a listing, of the items that its scan has found.
pub open spec fn listing<P>(items: Seq<(PromiseKeyView, P)>) -> Seq<
    Result<OwnedPromiseRowView<P>, StorageErrorView>,
> {
    Seq::new(items.len(), |i: int| row_of(items[i].0, items[i].1))
}

/// A listing of a table of promises holds exactly the promises of the services that
/// are placed in its range, each once: every item becomes a row, a row is there where
/// its promise is stored and its partition key is in the range, and no two rows are
/// of one promise.
pub proof fn law_listing_holds_the_rows_of_its_range<P>(
    rows: Rows<P>,
    range: RangeInclusive<PartitionKey>,
    items: Seq<(PromiseKeyView, P)>,
)
    requires
        holds_promises(rows),
        finds_each_once(rows, TableScanView::FullScanPartitionKeyRange(range), items),
    ensures
        forall|i: int| 0 <= i < items.len() ==> (#[trigger] listing(items)[i]) is Ok,
        forall|row: OwnedPromiseRowView<P>| #[trigger]
            listing(items).contains(Ok(row)) <==> {
                &&& answer(rows, get(row.service_id, row.key)) == Some(row.metadata)
                &&& range@.start <= row.service_id.partition_key <= range@.end
            },
        forall|i: int, j: int|
            #![trigger listing(items)[i], listing(items)[j]]
            0 <= i < j < items.len() ==> {
                ||| listing(items)[i]->Ok_0.service_id != listing(items)[j]->Ok_0.service_id
                ||| listing(items)[i]->Ok_0.key != listing(items)[j]->Ok_0.key
            },
{
    let scan = TableScanView::FullScanPartitionKeyRange(range);
    let rows_listed = listing(items);
    assert forall|i: int| 0 <= i < items.len() implies (#[trigger] rows_listed[i]) is Ok
        && promise_key(rows_listed[i]->Ok_0.service_id, rows_listed[i]->Ok_0.key) == items[i].0
        && rows_listed[i]->Ok_0.metadata == items[i].1 by {
        assert(visits(scan, items[i].0));
        assert(rows.contains_key(items[i].0));
    }
    assert forall|row: OwnedPromiseRowView<P>| #[trigger]
        rows_listed.contains(Ok(row)) implies answer(rows, get(row.service_id, row.key)) == Some(
        row.metadata,
    ) && range@.start <= row.service_id.partition_key <= range@.end by {
        let i = choose|i: int| 0 <= i < rows_listed.len() && rows_listed[i] == Ok::<
            OwnedPromiseRowView<P>,
            StorageErrorView,
        >(row);
        assert(visits(scan, items[i].0) && value_at(rows, items[i].0) == Some(items[i].1));
    }
    assert forall|row: OwnedPromiseRowView<P>|
        answer(rows, get(row.service_id, row.key)) == Some(row.metadata) && range@.start
            <= row.service_id.partition_key <= range@.end implies #[trigger] rows_listed.contains(
        Ok(row),
    ) by {
        let key = promise_key(row.service_id, row.key);
        assert(rows.contains_key(key) && visits(scan, key));
        let i = choose|i: int| 0 <= i < items.len() && (#[trigger] items[i]).0 == key;
        law_key_stands_for_its_promise(row.service_id, row.key);
        assert(value_at(rows, items[i].0) == Some(items[i].1));
        assert(rows_listed[i] == Ok::<OwnedPromiseRowView<P>, StorageErrorView>(row));
    }
    assert forall|i: int, j: int|
        #![trigger rows_listed[i], rows_listed[j]]
        0 <= i < j < items.len() implies {
        ||| rows_listed[i]->Ok_0.service_id != rows_listed[j]->Ok_0.service_id
        ||| rows_listed[i]->Ok_0.key != rows_listed[j]->Ok_0.key
    } by {
        assert(items[i].0 != items[j].0);
    }
}

/// A listing whose range holds the partition key of a service gives back a promise of
/// that service that was stored, and neither stored anew nor deleted since: in exactly
/// one row, with the promise as it was stored.
pub proof fn law_listing_gives_back_a_stored_promise<P>(
    writes: Seq<TableWrite<P>>,
    n: int,
    service: ServiceIdView,
    key: Seq<char>,
    promise: P,
    range: RangeInclusive<PartitionKey>,
    items: Seq<(PromiseKeyView, P)>,
)
    requires
        0 <= n < writes.len(),
        writes[n] == (TableWrite::Put { service, key, promise }),
        forall|m: int| n < m < writes.len() ==> !(#[trigger] writes[m]).touches(service, key),
        range@.start <= service.partition_key <= range@.end,
        finds_each_once(
            rows_after_writes(Map::empty(), writes),
            TableScanView::FullScanPartitionKeyRange(range),
            items,
        ),
    ensures
        exists|i: int|
            {
                &&& 0 <= i < items.len()
                &&& #[trigger] listing(items)[i] == Ok::<OwnedPromiseRowView<P>, StorageErrorView>(
                    OwnedPromiseRowView { service_id: service, key, metadata: promise },
                )
                &&& forall|j: int|
                    0 <= j < items.len() && (#[trigger] listing(items)[j] matches Ok(row)
                        && row.service_id == service && row.key == key) ==> j == i
            },
{
    let rows = rows_after_writes(Map::empty(), writes);
    let row = OwnedPromiseRowView { service_id: service, key, metadata: promise };
    law_table_holds_promises(writes);
    law_promise_stays_as_stored(Map::empty(), writes, n, service, key, promise);
    law_listing_holds_the_rows_of_its_range(rows, range, items);
    assert(listing(items).contains(Ok(row)));
    let i = choose|i: int| 0 <= i < listing(items).len() && listing(items)[i] == Ok::<
        OwnedPromiseRowView<P>,
        StorageErrorView,
    >(row);
    assert forall|j: int|
        0 <= j < items.len() && (#[trigger] listing(items)[j] matches Ok(other) && other.service_id
            == service && other.key == key) implies j == i by {
        assert(listing(items)[i] is Ok);
    }
    assert(listing(items)[i] == Ok::<OwnedPromiseRowView<P>, StorageErrorView>(row));
}

/// The listings of two adjoining ranges make up the listing of both together: they
/// have no row in common, and their rows are those of the whole, each as often.
pub proof fn law_adjoining_ranges_make_up_the_whole<P>(
    rows: Rows<P>,
    whole: RangeInclusive<PartitionKey>,
    low: RangeInclusive<PartitionKey>,
    high: RangeInclusive<PartitionKey>,
    items: Seq<(PromiseKeyView, P)>,
    low_items: Seq<(PromiseKeyView, P)>,
    high_items: Seq<(PromiseKeyView, P)>,
)
    requires
        holds_promises(rows),
        low@.start == whole@.start,
        low@.start <= low@.end < high@.end,
        high@.start == low@.end + 1,
        high@.end == whole@.end,
        finds_each_once(rows, TableScanView::FullScanPartitionKeyRange(whole), items),
        finds_each_once(rows, TableScanView::FullScanPartitionKeyRange(low), low_items),
        finds_each_once(rows, TableScanView::FullScanPartitionKeyRange(high), high_items),
    ensures
        listing(items).to_multiset() == listing(low_items).to_multiset().add(
            listing(high_items).to_multiset(),
        ),
        listing(low_items).to_multiset().is_disjoint_from(listing(high_items).to_multiset()),
{
    lemma_listing_counts(rows, whole, items);
    lemma_listing_counts(rows, low, low_items);
    lemma_listing_counts(rows, high, high_items);
    assert(listing(items).to_multiset() =~= listing(low_items).to_multiset().add(
        listing(high_items).to_multiset(),
    ));
}

/// Whether a row is in the listing of a range.
spec fn is_listed<P>(
    rows: Rows<P>,
    range: RangeInclusive<PartitionKey>,
    row: Result<OwnedPromiseRowView<P>, StorageErrorView>,
) -> bool {
    row matches Ok(r) && answer(rows, get(r.service_id, r.key)) == Some(r.metadata) && range@.start
        <= r.service_id.partition_key <= range@.end
}

proof fn lemma_listing_counts<P>(
    rows: Rows<P>,
    range: RangeInclusive<PartitionKey>,
    items: Seq<(PromiseKeyView, P)>,
)
    requires
        holds_promises(rows),
        finds_each_once(rows, TableScanView::FullScanPartitionKeyRange(range), items),
    ensures
        forall|row: Result<OwnedPromiseRowView<P>, StorageErrorView>| #[trigger]
            listing(items).to_multiset().count(row) == if is_listed(rows, range, row) {
                1nat
            } else {
                0
            },
{
    broadcast use vstd::seq_lib::group_to_multiset_ensures;

    law_listing_holds_the_rows_of_its_range(rows, range, items);
    let listed = listing(items);
    assert(listed.no_duplicates());
    listed.lemma_multiset_has_no_duplicates();
    assert forall|row: Result<OwnedPromiseRowView<P>, StorageErrorView>| #[trigger]
        listed.to_multiset().count(row) == (if is_listed(rows, range, row) {
            1nat
        } else {
            0
        }) by {
        assert(listed.contains(row) <==> listed.to_multiset().count(row) > 0);
        if listed.contains(row) {
            assert(listed.to_multiset().contains(row));
            let i = choose|i: int| 0 <= i < listed.len() && listed[i] == row;
            assert(listing(items)[i] is Ok);
            assert(listed.contains(Ok(row->Ok_0)));
        }
        if let Ok(r) = row {
            assert(listed.contains(Ok(r)) == listed.contains(row));
        }
    }
}

/// The key of a promise has the service's partition key, the service's name, the
/// encoded key of the service and the promise's name in the components of those names.
pub proof fn law_key_has_the_components_of_its_promise(service: ServiceIdView, key: Seq<char>)
    ensures
        promise_key(service, key).partition_key == Some(service.partition_key),
        promise_key(service, key).service_name == Some(service.service_name),
        promise_key(service, key).service_key == Some(encode_utf8(service.key)),
        promise_key(service, key).key == Some(key),
        service_prefix(service).partition_key == Some(service.partition_key),
        service_prefix(service).service_name == Some(service.service_name),
        service_prefix(service).service_key == Some(encode_utf8(service.key)),
        service_prefix(service).key is None,
{
}

/// The row of a complete key with a service key of text has the key's own components
/// in the fields of those names, and the service key is the encoding of the service's
/// key. Another key has no row.
pub proof fn law_row_has_the_components_of_its_key<P>(key: PromiseKeyView, metadata: P)
    ensures
        match (key.partition_key, key.service_name, key.service_key, key.key) {
            (Some(partition_key), Some(service_name), Some(service_key), Some(name)) => {
                &&& valid_utf8(service_key) ==> (row_of(key, metadata) matches Ok(row) && {
                    &&& row.service_id.partition_key == partition_key
                    &&& row.service_id.service_name == service_name
                    &&& encode_utf8(row.service_id.key) == service_key
                    &&& row.key == name
                    &&& row.metadata == metadata
                })
                &&& !valid_utf8(service_key) ==> row_of(key, metadata) == Err::<
                    OwnedPromiseRowView<P>,
                    StorageErrorView,
                >(
                    StorageErrorView::Generic(
                        "Cannot convert to string "@ + utf8_flaw(service_key),
                    ),
                )
            },
            _ => row_of(key, metadata) == Err::<OwnedPromiseRowView<P>, StorageErrorView>(
                StorageErrorView::DataIntegrityError,
            ),
        },
{
    if key.service_key is Some && valid_utf8(key.service_key->0) {
        decode_utf8_encode_utf8(key.service_key->0);
    }
}

/// A created key has what it was made of in the components of those names.
pub proof fn law_created_key_has_what_it_was_made_of(
    service_id: ServiceId,
    key: Text,
    created: PromiseKey,
)
    requires
        call_ensures(create_key, (&service_id, &key), created),
    ensures
        created.partition_key == Some(service_id.partition_key),
        created.service_name matches Some(name) && name@ == service_id.service_name@,
        created.service_key matches Some(bytes) && bytes_of(bytes) == encode_utf8(
            service_id.key@,
        ),
        created.key matches Some(name) && name@ == key@,
{
}

/// A promise is listed under what its key was created of, component by component, and
/// with what is stored.
pub proof fn law_created_key_is_listed_as_what_it_was_made_of<P>(
    service_id: ServiceId,
    key: Text,
    created: PromiseKey,
    metadata: P,
    row: Result<OwnedPromiseRow<P>, StorageError>,
)
    requires
        call_ensures(create_key, (&service_id, &key), created),
        call_ensures(promise_row::<P>, (Ok(created), Ok(metadata)), row),
    ensures
        row matches Ok(listed) && {
            &&& listed.service_id.partition_key == service_id.partition_key
            &&& listed.service_id.service_name@ == service_id.service_name@
            &&& listed.service_id.key@ == service_id.key@
            &&& listed.key@ == key@
            &&& listed.metadata == metadata
        },
{
    encode_utf8_valid_utf8(service_id.key@);
    encode_utf8_decode_utf8(service_id.key@);
}

/// A row that is listed is found again under the service id and the name that it
/// lists: the key created of them has the components of the key that it was listed of.
pub proof fn law_listed_row_leads_back_to_its_key<P>(
    stored: PromiseKey,
    metadata: P,
    row: OwnedPromiseRow<P>,
    created: PromiseKey,
)
    requires
        call_ensures(
            promise_row::<P>,
            (Ok(stored), Ok(metadata)),
            Ok::<OwnedPromiseRow<P>, StorageError>(row),
        ),
        call_ensures(create_key, (&row.service_id, &row.key), created),
    ensures
        created.partition_key == stored.partition_key,
        created.service_name is Some && stored.service_name is Some && created.service_name->0@
            == stored.service_name->0@,
        created.service_key is Some && stored.service_key is Some && bytes_of(
            created.service_key->0,
        ) == bytes_of(stored.service_key->0),
        created.key is Some && stored.key is Some && created.key->0@ == stored.key->0@,
        row.metadata == metadata,
{
    if stored.service_key is Some && valid_utf8(bytes_of(stored.service_key->0)) {
        decode_utf8_encode_utf8(bytes_of(stored.service_key->0));
    }
}

/// A promise is read at the key that it is stored at, and that key begins with the
/// prefix by which the promises of its service are found for deletion.
pub proof fn law_operations_agree_on_keys<P>(
    service_id: ServiceId,
    key: Text,
    promise: P,
    get: Result<StorageRequest<P>, StorageError>,
    put: Result<StorageRequest<P>, StorageError>,
    delete: Result<TableScan, StorageError>,
)
    requires
        call_ensures(get_promise::<P>, (Ok(()), &service_id, &key), get),
        call_ensures(put_promise::<P>, (Ok(()), &service_id, &key, promise), put),
        call_ensures(delete_all_promises, (Ok(()), &service_id), delete),
    ensures
        get matches Ok(StorageRequest::GetValue(read)) && (put matches Ok(
            StorageRequest::PutKv(written, value),
        ) && value == promise && {
            &&& written.partition_key == Some(service_id.partition_key)
            &&& written.service_name is Some && written.service_name->0@
                == service_id.service_name@
            &&& written.service_key is Some && bytes_of(written.service_key->0) == encode_utf8(
                service_id.key@,
            )
            &&& written.key is Some && written.key->0@ == key@
            &&& read.partition_key == written.partition_key
            &&& read.service_name is Some && read.service_name->0@ == written.service_name->0@
            &&& read.service_key is Some && bytes_of(read.service_key->0) == bytes_of(
                written.service_key->0,
            )
            &&& read.key is Some && read.key->0@ == written.key->0@
            &&& delete matches Ok(TableScan::SinglePartitionKeyPrefix(of, prefix)) && {
                &&& of == service_id.partition_key
                &&& prefix.partition_key == written.partition_key
                &&& prefix.service_name is Some && prefix.service_name->0@
                    == written.service_name->0@
                &&& prefix.service_key is Some && bytes_of(prefix.service_key->0) == bytes_of(
                    written.service_key->0,
                )
                &&& prefix.key is None
            }
        }),
{
}

/// A refusal of the store is answered as it came, whatever was asked for.
pub proof fn law_refusal_is_answered_as_it_came<P>(
    refusal: StorageError,
    service_id: ServiceId,
    key: Text,
    promise: P,
    get: Result<StorageRequest<P>, StorageError>,
    put: Result<StorageRequest<P>, StorageError>,
    delete: Result<TableScan, StorageError>,
)
    requires
        call_ensures(get_promise::<P>, (Err(refusal), &service_id, &key), get),
        call_ensures(put_promise::<P>, (Err(refusal), &service_id, &key, promise), put),
        call_ensures(delete_all_promises, (Err(refusal), &service_id), delete),
    ensures
        get == Err::<StorageRequest<P>, StorageError>(refusal),
        put == Err::<StorageRequest<P>, StorageError>(refusal),
        delete == Err::<TableScan, StorageError>(refusal),
{
}

/// Of an item of a scan that could not be decoded the flaw is reported as it came, that
/// of the key before that of the value.
pub proof fn law_flaw_of_the_key_is_reported_first<P>(
    key: Result<PromiseKey, StorageError>,
    metadata: Result<P, StorageError>,
    row: Result<OwnedPromiseRow<P>, StorageError>,
)
    requires
        call_ensures(promise_row::<P>, (key, metadata), row),
    ensures
        key matches Err(flaw) ==> row == Err::<OwnedPromiseRow<P>, StorageError>(flaw),
        key is Ok ==> (metadata matches Err(flaw) ==> row == Err::<
            OwnedPromiseRow<P>,
            StorageError,
        >(flaw)),
        key matches Ok(decoded) ==> (metadata is Ok ==> (row is Ok <==> {
            &&& decoded.partition_key is Some
            &&& decoded.service_name is Some
            &&& decoded.service_key matches Some(bytes) && valid_utf8(bytes_of(bytes))
            &&& decoded.key is Some
        })),
{
}

/// The scan over all promises visits the range that was asked for, and a scan for
/// deletion keeps the keys as they are stored.
pub proof fn law_scans_are_as_asked_for(
    range: RangeInclusive<PartitionKey>,
    scan: TableScan,
    key: &[u8],
    value: &[u8],
    emitted: Result<Bytes, StorageError>,
)
    requires
        call_ensures(all_promises, (range,), scan),
        call_ensures(emit_key, (key, value), emitted),
    ensures
        scan matches TableScan::FullScanPartitionKeyRange(visited) && visited == range,
        emitted matches Ok(kept) && bytes_of(kept) == key@,
{
}

/// A deletion begins with the first key that the scan found, and leaves the others for
/// later in their order. It ends at once where there is none, or where the scan failed
/// on the first or as a whole.
pub proof fn law_deletion_begins_with_the_first_key(
    keys: Result<Vec<Result<Bytes, StorageError>>, StorageError>,
    begun: (DeleteAllPromises, DeleteStep),
)
    requires
        call_ensures(DeleteAllPromises::scanned, (keys,), begun),
    ensures
        keys matches Err(error) ==> begun.1 == DeleteStep::Return(Err(error)),
        keys matches Ok(found) ==> {
            &&& found@.len() == 0 ==> begun.1 == DeleteStep::Return(Ok(()))
            &&& found@.len() > 0 ==> match found@[0] {
                Ok(key) => {
                    &&& begun.1 == DeleteStep::DeleteCf(TableKind::Promise, key)
                    &&& begun.0@.len() == found@.len() - 1
                    &&& forall|i: int|
                        0 <= i < begun.0@.len() ==> #[trigger] begun.0@[i] == found@[i + 1]
                },
                Err(error) => begun.1 == DeleteStep::Return(Err(error)),
            }
        },
{
}

} // verus!
