//! What the tables of a partition store share.

use crate::buffers::Text;
use vstd::prelude::*;

verus! {

/// The key by which services are spread over partitions.
pub type PartitionKey = u64;

/// A failure to read or write the partition store.
#[derive(Debug)]
pub enum StorageError {
    /// A failure with a description.
    Generic(String),
    /// A stored key lacks one of its components.
    DataIntegrityError,
}

/// The mathematical content of a [`StorageError`].
#[verifier::ext_equal]
pub enum StorageErrorView {
    Generic(Seq<char>),
    DataIntegrityError,
}

impl View for StorageError {
    type V = StorageErrorView;

    open spec fn view(&self) -> StorageErrorView {
        match self {
            StorageError::Generic(description) => StorageErrorView::Generic(description@),
            StorageError::DataIntegrityError => StorageErrorView::DataIntegrityError,
        }
    }
}

impl StorageError {
    /// The characters of this failure's description.
    pub open spec fn text(&self) -> Seq<char> {
        match self {
            StorageError::Generic(description) => description@,
            StorageError::DataIntegrityError => "a stored key lacks a component"@,
        }
    }

    /// A description of this failure.
    pub fn description(&self) -> (text: String)
        ensures
            text@ == self.text(),
            self matches StorageError::Generic(description) ==> text@ == description@,
            self is DataIntegrityError ==> text@ == "a stored key lacks a component"@,
    {
        match self {
            StorageError::Generic(description) => description.clone(),
            StorageError::DataIntegrityError => "a stored key lacks a component".to_owned(),
        }
    }
}

/// A keyed service instance: the service's name, the instance's key and the
/// partition key that places the instance.
#[derive(Debug)]
pub struct ServiceId {
    pub service_name: Text,
    pub key: Text,
    pub partition_key: PartitionKey,
}

/// The mathematical content of a [`ServiceId`].
#[verifier::ext_equal]
pub struct ServiceIdView {
    pub partition_key: PartitionKey,
    pub service_name: Seq<char>,
    pub key: Seq<char>,
}

impl View for ServiceId {
    type V = ServiceIdView;

    open spec fn view(&self) -> ServiceIdView {
        ServiceIdView {
            partition_key: self.partition_key,
            service_name: self.service_name@,
            key: self.key@,
        }
    }
}

impl ServiceId {
    /// The service id with the given components.
    pub fn with_partition_key(
        partition_key: PartitionKey,
        service_name: Text,
        key: Text,
    ) -> (service_id: ServiceId)
        ensures
            service_id == (ServiceId { service_name, key, partition_key }),
    {
        ServiceId { service_name, key, partition_key }
    }

    /// The partition key that places this service instance.
    pub fn partition_key(&self) -> (partition_key: PartitionKey)
        ensures
            partition_key == self.partition_key,
    {
        self.partition_key
    }
}

} // verus!
