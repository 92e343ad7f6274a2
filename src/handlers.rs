//! The request handlers: what the store and retrieve routes decide from the
//! key and from each answer of the storage backend.
use vstd::prelude::*;
use crate::errors::ServerError;
use crate::storage::{MemoryStorage, StorageError};
use crate::validation::{valid_hash, validate_hash};

verus! {

/// The status of a successful retrieve or health check.
pub const STATUS_OK: u16 = 200;

/// The status of a successful store.
pub const STATUS_ACCEPTED: u16 = 202;

/// The body of a successful health check.
pub const HEALTH_BODY: &'static str = "OK";

/// The client-facing error for a storage failure.
pub open spec fn storage_error_spec(e: StorageError) -> ServerError {
    match e {
        StorageError::NotFound => ServerError::NotFound,
        StorageError::AlreadyExists => ServerError::Conflict,
        StorageError::OperationFailed => ServerError::Internal,
    }
}

/// Translates a storage failure for the client: a missing object is
/// `NotFound`, an existing one `Conflict`, a backend fault `Internal`.
pub fn from_storage_error(e: StorageError) -> (r: ServerError)
    ensures
        r == storage_error_spec(e),
{
    match e {
        StorageError::NotFound => ServerError::NotFound,
        StorageError::AlreadyExists => ServerError::Conflict,
        StorageError::OperationFailed => ServerError::Internal,
    }
}

/// The store route's decision on the backend's existence check: write only
/// when the key is free; `Conflict` when it is taken, with no write; a
/// failed check is the backend's fault.
pub fn store_precheck(check: Result<bool, StorageError>) -> (r: Result<(), ServerError>)
    ensures
        r == match check {
            Ok(false) => Ok::<(), ServerError>(()),
            Ok(true) => Err(ServerError::Conflict),
            Err(e) => Err(storage_error_spec(e)),
        },
{
    match check {
        Ok(false) => Ok(()),
        Ok(true) => Err(ServerError::Conflict),
        Err(e) => Err(from_storage_error(e)),
    }
}

/// The store route's answer to the outcome of the write itself. A write
/// that fails after a clean check lost a race with another writer of the
/// same key, so every failure here is `Conflict`.
pub fn store_outcome(written: Result<(), StorageError>) -> (r: Result<(), ServerError>)
    ensures
        r == match written {
            Ok(()) => Ok::<(), ServerError>(()),
            Err(_) => Err(ServerError::Conflict),
        },
{
    match written {
        Ok(()) => Ok(()),
        Err(_) => Err(ServerError::Conflict),
    }
}

/// The retrieve route's answer to the backend's read: the content on
/// success, `NotFound` for a missing object, `Internal` for anything else.
pub fn retrieve_outcome<T>(read: Result<T, StorageError>) -> (r: Result<T, ServerError>)
    ensures
        match read {
            Ok(v) => r == Ok::<T, ServerError>(v),
            Err(StorageError::NotFound) => r == Err::<T, ServerError>(ServerError::NotFound),
            Err(_) => r == Err::<T, ServerError>(ServerError::Internal),
        },
{
    match read {
        Ok(v) => Ok(v),
        Err(StorageError::NotFound) => Err(ServerError::NotFound),
        Err(_) => Err(ServerError::Internal),
    }
}

/// The health check: always `200` with body `OK`.
pub fn health_check() -> (r: (u16, &'static str))
    ensures
        r.0 == STATUS_OK,
        r.1@ == HEALTH_BODY@,
{
    (STATUS_OK, HEALTH_BODY)
}

/// A store of `b` under `k` into a store holding `m`: the answer and the
/// store's contents afterwards.
pub open spec fn store_spec(m: Map<Seq<char>, Seq<u8>>, k: Seq<char>, b: Seq<u8>) -> (
    Result<(), ServerError>,
    Map<Seq<char>, Seq<u8>>,
) {
    if !valid_hash(k) {
        (Err(ServerError::BadRequest), m)
    } else if m.contains_key(k) {
        (Err(ServerError::Conflict), m)
    } else {
        (Ok(()), m.insert(k, b))
    }
}

/// A retrieve of `k` from a store holding `m`.
pub open spec fn retrieve_spec(m: Map<Seq<char>, Seq<u8>>, k: Seq<char>) -> Result<Seq<u8>, ServerError> {
    if !valid_hash(k) {
        Err(ServerError::BadRequest)
    } else if m.contains_key(k) {
        Ok(m[k])
    } else {
        Err(ServerError::NotFound)
    }
}

/// The store route on the in-memory backend: validates the key, checks for
/// an existing artifact, and writes `body` only under a free key.
pub fn store_artifact(storage: &mut MemoryStorage, hash: &str, body: Vec<u8>) -> (r: Result<(), ServerError>)
    requires
        old(storage).wf(),
    ensures
        final(storage).wf(),
        (r, final(storage).view()) == store_spec(old(storage).view(), hash@, body@),
{
    validate_hash(hash)?;
    let found = storage.contains(hash);
    store_precheck(Ok(found))?;
    let written = storage.store(hash, body);
    store_outcome(written)
}

/// The retrieve route on the in-memory backend: validates the key, then
/// returns the stored bytes verbatim.
pub fn retrieve_artifact(storage: &MemoryStorage, hash: &str) -> (r: Result<Vec<u8>, ServerError>)
    requires
        storage.wf(),
    ensures
        match r {
            Ok(v) => retrieve_spec(storage.view(), hash@) == Ok::<Seq<u8>, ServerError>(v@),
            Err(e) => retrieve_spec(storage.view(), hash@) == Err::<Seq<u8>, ServerError>(e),
        },
{
    validate_hash(hash)?;
    let read = storage.retrieve(hash);
    retrieve_outcome(read)
}

/// Round trip: storing `b` under a valid, free key `k` and then retrieving
/// `k` gives back exactly `b`, an empty `b` included.
pub proof fn store_then_retrieve(m: Map<Seq<char>, Seq<u8>>, k: Seq<char>, b: Seq<u8>)
    requires
        valid_hash(k),
        !m.contains_key(k),
    ensures
        store_spec(m, k, b).0 is Ok,
        retrieve_spec(store_spec(m, k, b).1, k) == Ok::<Seq<u8>, ServerError>(b),
{
}

/// Write-once: a second store under the same key is a `Conflict` whatever
/// its payload, and leaves the first payload in place.
pub proof fn second_store_conflicts(m: Map<Seq<char>, Seq<u8>>, k: Seq<char>, b1: Seq<u8>, b2: Seq<u8>)
    requires
        valid_hash(k),
        !m.contains_key(k),
    ensures
        store_spec(m, k, b1).0 is Ok,
        store_spec(store_spec(m, k, b1).1, k, b2) == (
            Err::<(), ServerError>(ServerError::Conflict),
            store_spec(m, k, b1).1,
        ),
        retrieve_spec(store_spec(store_spec(m, k, b1).1, k, b2).1, k) == Ok::<Seq<u8>, ServerError>(b1),
{
}

/// A valid key that was never stored is `NotFound`.
pub proof fn absent_key_not_found(m: Map<Seq<char>, Seq<u8>>, k: Seq<char>)
    requires
        valid_hash(k),
        !m.contains_key(k),
    ensures
        retrieve_spec(m, k) == Err::<Seq<u8>, ServerError>(ServerError::NotFound),
{
}

/// A malformed key is `BadRequest` for both routes, and the store is left
/// as it was.
pub proof fn malformed_key_rejected(m: Map<Seq<char>, Seq<u8>>, k: Seq<char>, b: Seq<u8>)
    requires
        !valid_hash(k),
    ensures
        store_spec(m, k, b) == (Err::<(), ServerError>(ServerError::BadRequest), m),
        retrieve_spec(m, k) == Err::<Seq<u8>, ServerError>(ServerError::BadRequest),
{
}

} // verus!
