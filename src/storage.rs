//! The storage contract: write-once artifacts under validated keys. Holds
//! the backend-independent decisions that every backend makes, and an
//! in-memory backend that keeps the contract exactly.
use vstd::prelude::*;
use crate::text::same_text;

verus! {

/// How a storage operation fails.
#[derive(Debug, Clone, Copy, PartialEq, Eq, Structural)]
pub enum StorageError {
    /// No object is stored under the key.
    NotFound,
    /// An object is already stored under the key.
    AlreadyExists,
    /// The backend itself failed (network, permissions, bad response).
    OperationFailed,
}

/// What a backend's native lookup of one key reported.
#[derive(Debug, Clone, Copy, PartialEq, Eq, Structural)]
pub enum BackendLookup {
    /// The object is there.
    Present,
    /// The backend's own "not found".
    Absent,
    /// Any other failure.
    Fault,
}

/// The answer of `exists` from a backend lookup: a missing object is no
/// failure, any other failure is `OperationFailed`.
pub fn presence_of(lookup: BackendLookup) -> (r: Result<bool, StorageError>)
    ensures
        r == match lookup {
            BackendLookup::Present => Ok::<bool, StorageError>(true),
            BackendLookup::Absent => Ok(false),
            BackendLookup::Fault => Err(StorageError::OperationFailed),
        },
{
    match lookup {
        BackendLookup::Present => Ok(true),
        BackendLookup::Absent => Ok(false),
        BackendLookup::Fault => Err(StorageError::OperationFailed),
    }
}

/// The answer of `retrieve` from a backend read: a missing object is
/// `NotFound`, any other failure is `OperationFailed`.
pub fn readable_from(lookup: BackendLookup) -> (r: Result<(), StorageError>)
    ensures
        r == match lookup {
            BackendLookup::Present => Ok::<(), StorageError>(()),
            BackendLookup::Absent => Err(StorageError::NotFound),
            BackendLookup::Fault => Err(StorageError::OperationFailed),
        },
{
    match lookup {
        BackendLookup::Present => Ok(()),
        BackendLookup::Absent => Err(StorageError::NotFound),
        BackendLookup::Fault => Err(StorageError::OperationFailed),
    }
}

/// Whether a write may go ahead after the existence check that precedes it:
/// never over an existing object, and not when the check itself failed.
pub fn write_permitted(check: Result<bool, StorageError>) -> (r: Result<(), StorageError>)
    ensures
        r == match check {
            Ok(false) => Ok::<(), StorageError>(()),
            Ok(true) => Err(StorageError::AlreadyExists),
            Err(e) => Err(e),
        },
{
    match check {
        Ok(false) => Ok(()),
        Ok(true) => Err(StorageError::AlreadyExists),
        Err(e) => Err(e),
    }
}

/// A backend that holds the artifacts in memory. Writes are atomic, so a
/// failed write is never visible.
pub struct MemoryStorage {
    keys: Vec<String>,
    values: Vec<Vec<u8>>,
}

impl MemoryStorage {
    /// The stored artifacts, by key.
    pub closed spec fn view(&self) -> Map<Seq<char>, Seq<u8>> {
        Map::new(
            |k: Seq<char>| exists|i: int| 0 <= i < self.keys@.len() && (#[trigger] self.keys@[i])@ == k,
            |k: Seq<char>|
                self.values@[choose|i: int| 0 <= i < self.keys@.len() && (#[trigger] self.keys@[i])@ == k]@,
        )
    }

    /// Keys are distinct and each has its value.
    pub closed spec fn wf(&self) -> bool {
        &&& self.keys@.len() == self.values@.len()
        &&& forall|i: int, j: int|
            0 <= i < j < self.keys@.len() ==> (#[trigger] self.keys@[i])@ != (#[trigger] self.keys@[j])@
    }

    /// An empty store.
    pub fn new() -> (r: MemoryStorage)
        ensures
            r.wf(),
            r.view() == Map::<Seq<char>, Seq<u8>>::empty(),
    {
        let r = MemoryStorage { keys: Vec::new(), values: Vec::new() };
        assert(r.view() =~= Map::<Seq<char>, Seq<u8>>::empty());
        r
    }

    /// The position of `key`, if it is stored.
    fn position(&self, key: &str) -> (r: Option<usize>)
        requires
            self.wf(),
        ensures
            match r {
                Some(i) => i < self.keys@.len() && self.keys@[i as int]@ == key@
                    && self.view().contains_key(key@)
                    && self.view()[key@] == self.values@[i as int]@,
                None => !self.view().contains_key(key@),
            },
    {
        let mut i: usize = 0;
        while i < self.keys.len()
            invariant
                self.wf(),
                i <= self.keys@.len(),
                forall|k: int| 0 <= k < i ==> (#[trigger] self.keys@[k])@ != key@,
            decreases self.keys@.len() - i,
        {
            if same_text(self.keys[i].as_str(), key) {
                proof {
                    assert(self.keys@[i as int]@ == key@);
                    let ghost c = choose|c: int| 0 <= c < self.keys@.len() && (#[trigger] self.keys@[c])@ == key@;
                    assert(c == i) by {
                        if c != i {
                            if c < i {
                                assert(self.keys@[c]@ != key@);
                            } else {
                                assert(self.keys@[i as int]@ != self.keys@[c]@);
                            }
                        }
                    }
                }
                return Some(i);
            }
            i = i + 1;
        }
        None
    }

    /// True iff an artifact is stored under `key`.
    pub fn contains(&self, key: &str) -> (r: bool)
        requires
            self.wf(),
        ensures
            r == self.view().contains_key(key@),
    {
        self.position(key).is_some()
    }

    /// Stores `data` under `key` unless something is stored there already,
    /// in which case nothing changes and the answer is `AlreadyExists`.
    pub fn store(&mut self, key: &str, data: Vec<u8>) -> (r: Result<(), StorageError>)
        requires
            old(self).wf(),
        ensures
            final(self).wf(),
            old(self).view().contains_key(key@) ==> r == Err::<(), StorageError>(StorageError::AlreadyExists)
                && final(self).view() == old(self).view(),
            !old(self).view().contains_key(key@) ==> r is Ok
                && final(self).view() == old(self).view().insert(key@, data@),
    {
        let found = self.contains(key);
        match write_permitted(Ok(found)) {
            Err(e) => Err(e),
            Ok(()) => {
                let ghost before = self.view();
                let ghost n = self.keys@.len();
                self.keys.push(key.to_owned());
                self.values.push(data);
                proof {
                    assert forall|i: int, j: int|
                        0 <= i < j < self.keys@.len() implies (#[trigger] self.keys@[i])@ != (#[trigger] self.keys@[j])@ by {
                        if j == n {
                            assert(!before.contains_key(key@));
                            assert(old(self).keys@[i] == self.keys@[i]);
                        } else {
                            assert(old(self).keys@[i] == self.keys@[i]);
                            assert(old(self).keys@[j] == self.keys@[j]);
                        }
                    }
                    assert forall|k: Seq<char>| #[trigger] self.view().contains_key(k) == before.insert(key@, data@).contains_key(k) by {
                        if before.contains_key(k) {
                            let c = choose|c: int| 0 <= c < old(self).keys@.len() && (#[trigger] old(self).keys@[c])@ == k;
                            assert(self.keys@[c] == old(self).keys@[c]);
                        }
                        if self.view().contains_key(k) && k != key@ {
                            let c = choose|c: int| 0 <= c < self.keys@.len() && (#[trigger] self.keys@[c])@ == k;
                            assert(c != n);
                            assert(self.keys@[c] == old(self).keys@[c]);
                        }
                        if k == key@ {
                            assert(self.keys@[n as int]@ == k);
                        }
                    }
                    assert forall|k: Seq<char>| #[trigger] self.view().contains_key(k) implies self.view()[k] == before.insert(key@, data@)[k] by {
                        let c = choose|c: int| 0 <= c < self.keys@.len() && (#[trigger] self.keys@[c])@ == k;
                        if k == key@ {
                            assert(c == n) by {
                                if c != n {
                                    assert(self.keys@[c] == old(self).keys@[c]);
                                }
                            }
                        } else {
                            assert(c != n);
                            assert(self.keys@[c] == old(self).keys@[c]);
                            let d = choose|d: int| 0 <= d < old(self).keys@.len() && (#[trigger] old(self).keys@[d])@ == k;
                            assert(self.keys@[d] == old(self).keys@[d]);
                            assert(c == d) by {
                                if c != d {
                                    if c < d {
                                        assert(self.keys@[c]@ != self.keys@[d]@);
                                    } else {
                                        assert(self.keys@[d]@ != self.keys@[c]@);
                                    }
                                }
                            }
                        }
                    }
                    assert(self.view() =~= before.insert(key@, data@));
                }
                Ok(())
            },
        }
    }

    /// A copy of the artifact stored under `key`, or `NotFound`.
    pub fn retrieve(&self, key: &str) -> (r: Result<Vec<u8>, StorageError>)
        requires
            self.wf(),
        ensures
            self.view().contains_key(key@) ==> r is Ok && r->Ok_0@ == self.view()[key@],
            !self.view().contains_key(key@) ==> r == Err::<Vec<u8>, StorageError>(StorageError::NotFound),
    {
        match self.position(key) {
            Some(i) => Ok(self.values[i].clone()),
            None => Err(StorageError::NotFound),
        }
    }
}

} // verus!
