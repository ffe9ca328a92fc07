use vstd::prelude::*;
use std::collections::HashMap;
use std::sync::Arc;
use crate::dir::DirEntry;
use crate::error::Error;
use crate::file::FileEntry;

verus! {

broadcast use vstd::std_specs::hash::group_hash_axioms;

/// The first handle number that `push` hands out; 0, 1 and 2 are the
/// standard streams.
pub const FIRST_FREE_HANDLE: u32 = 3;

/// What a handle names: a file or a directory, shared by every handle that
/// names it.
pub enum Entry {
    File(Arc<FileEntry>),
    Dir(Arc<DirEntry>),
}

/// Relies on `Arc::clone`: the result points at the same value.
#[verifier::external_body]
fn share<T>(a: &Arc<T>) -> (r: Arc<T>)
    ensures
        r == *a,
{
    Arc::clone(a)
}

impl Entry {
    /// A second reference to the same entry.
    pub fn share(&self) -> (r: Entry)
        ensures
            r == *self,
    {
        match self {
            Entry::File(f) => Entry::File(share(f)),
            Entry::Dir(d) => Entry::Dir(share(d)),
        }
    }
}

/// The lowest number from `FIRST_FREE_HANDLE` up that `m` does not use.
pub open spec fn is_lowest_free(m: Map<u32, Entry>, h: u32) -> bool {
    &&& FIRST_FREE_HANDLE <= h
    &&& !m.contains_key(h)
    &&& forall|k: u32| FIRST_FREE_HANDLE <= k < h ==> m.contains_key(k)
}

/// Every number that `push` may hand out is in use.
pub open spec fn is_full(m: Map<u32, Entry>) -> bool {
    forall|k: u32| FIRST_FREE_HANDLE <= k ==> m.contains_key(k)
}

/// A handle that `push` hands out names no entry that was live before, and
/// looking it up right after gives the entry pushed.
pub proof fn push_then_get(before: Map<u32, Entry>, h: u32, e: Entry)
    requires
        is_lowest_free(before, h),
    ensures
        !before.contains_key(h),
        before.insert(h, e).contains_key(h),
        before.insert(h, e)[h] == e,
        forall|k: u32| k != h ==> before.insert(h, e).contains_key(k) == before.contains_key(k),
{
}

/// Looking a handle up right after `insert_at` stored an entry under it gives
/// that entry, whatever was stored there before.
pub proof fn insert_at_then_get(before: Map<u32, Entry>, h: u32, e: Entry)
    ensures
        before.insert(h, e).contains_key(h),
        before.insert(h, e)[h] == e,
{
}

/// After `dup` gave `from`'s entry a second handle `to`, removing either
/// handle leaves the other naming the same entry, and removing both leaves
/// neither.
pub proof fn dup_then_remove(before: Map<u32, Entry>, from: u32, to: u32)
    requires
        before.contains_key(from),
        is_lowest_free(before, to),
    ensures
        ({
            let shared = before.insert(to, before[from]);
            &&& shared.remove(from).contains_key(to)
            &&& shared.remove(from)[to] == before[from]
            &&& shared.remove(to).contains_key(from)
            &&& shared.remove(to)[from] == before[from]
            &&& !shared.remove(from).remove(to).contains_key(from)
            &&& !shared.remove(from).remove(to).contains_key(to)
        }),
{
}

/// A mapping from handle numbers to shared entries.
pub struct Table {
    map: HashMap<u32, Entry>,
}

impl View for Table {
    type V = Map<u32, Entry>;

    closed spec fn view(&self) -> Map<u32, Entry> {
        self.map@
    }
}

impl Table {
    /// A table with no entries.
    pub fn new() -> (r: Table)
        ensures
            r@ == Map::<u32, Entry>::empty(),
    {
        Table { map: HashMap::new() }
    }

    pub fn contains_key(&self, handle: u32) -> (r: bool)
        ensures
            r == self@.contains_key(handle),
    {
        self.map.contains_key(&handle)
    }

    /// Stores `entry` under `handle`, replacing what was there.
    pub fn insert_at(&mut self, handle: u32, entry: Entry)
        ensures
            final(self)@ == old(self)@.insert(handle, entry),
    {
        self.map.insert(handle, entry);
    }

    /// Stores `entry` under the lowest free number from `FIRST_FREE_HANDLE`
    /// up, and returns that number.
    pub fn push(&mut self, entry: Entry) -> (r: Result<u32, Error>)
        ensures
            r is Err <==> is_full(old(self)@),
            r is Err ==> r->Err_0 == Error::TableFull && final(self)@ == old(self)@,
            r is Ok ==> is_lowest_free(old(self)@, r->Ok_0) && final(self)@ == old(
                self,
            )@.insert(r->Ok_0, entry),
    {
        let mut key: u32 = FIRST_FREE_HANDLE;
        while self.map.contains_key(&key)
            invariant
                FIRST_FREE_HANDLE <= key,
                forall|k: u32| FIRST_FREE_HANDLE <= k < key ==> self@.contains_key(k),
            decreases u32::MAX - key,
        {
            if key == u32::MAX {
                return Err(Error::TableFull);
            }
            key = key + 1;
        }
        self.map.insert(key, entry);
        Ok(key)
    }

    /// The entry under `handle`.
    pub fn get(&self, handle: u32) -> (r: Result<&Entry, Error>)
        ensures
            r is Ok <==> self@.contains_key(handle),
            r is Ok ==> *r->Ok_0 == self@[handle],
            r is Err ==> r->Err_0 == Error::BadFileDescriptor,
    {
        match self.map.get(&handle) {
            Some(e) => Ok(e),
            None => Err(Error::BadFileDescriptor),
        }
    }

    /// The file entry under `handle`.
    pub fn get_file(&self, handle: u32) -> (r: Result<&Arc<FileEntry>, Error>)
        ensures
            r is Ok <==> self@.contains_key(handle) && self@[handle] is File,
            r is Ok ==> self@[handle] == Entry::File(*r->Ok_0),
            !self@.contains_key(handle) ==> r == Err::<&Arc<FileEntry>, Error>(
                Error::BadFileDescriptor,
            ),
            self@.contains_key(handle) && self@[handle] is Dir ==> r == Err::<
                &Arc<FileEntry>,
                Error,
            >(Error::InvalidKind),
    {
        match self.map.get(&handle) {
            Some(Entry::File(f)) => Ok(f),
            Some(Entry::Dir(_)) => Err(Error::InvalidKind),
            None => Err(Error::BadFileDescriptor),
        }
    }

    /// The directory entry under `handle`.
    pub fn get_dir(&self, handle: u32) -> (r: Result<&Arc<DirEntry>, Error>)
        ensures
            r is Ok <==> self@.contains_key(handle) && self@[handle] is Dir,
            r is Ok ==> self@[handle] == Entry::Dir(*r->Ok_0),
            !self@.contains_key(handle) ==> r == Err::<&Arc<DirEntry>, Error>(
                Error::BadFileDescriptor,
            ),
            self@.contains_key(handle) && self@[handle] is File ==> r == Err::<
                &Arc<DirEntry>,
                Error,
            >(Error::InvalidKind),
    {
        match self.map.get(&handle) {
            Some(Entry::Dir(d)) => Ok(d),
            Some(Entry::File(_)) => Err(Error::InvalidKind),
            None => Err(Error::BadFileDescriptor),
        }
    }

    /// Takes the entry under `handle` out of the table.
    pub fn remove(&mut self, handle: u32) -> (r: Result<Entry, Error>)
        ensures
            r is Ok <==> old(self)@.contains_key(handle),
            r is Ok ==> r->Ok_0 == old(self)@[handle] && final(self)@ == old(self)@.remove(
                handle,
            ),
            r is Err ==> r->Err_0 == Error::BadFileDescriptor && final(self)@ == old(self)@,
    {
        match self.map.remove(&handle) {
            Some(e) => Ok(e),
            None => Err(Error::BadFileDescriptor),
        }
    }

    /// Makes a second handle for the entry under `handle`, numbered as `push`
    /// numbers, and returns it.
    pub fn dup(&mut self, handle: u32) -> (r: Result<u32, Error>)
        ensures
            !old(self)@.contains_key(handle) ==> r == Err::<u32, Error>(
                Error::BadFileDescriptor,
            ) && final(self)@ == old(self)@,
            old(self)@.contains_key(handle) ==> {
                &&& r is Err <==> is_full(old(self)@)
                &&& r is Err ==> r->Err_0 == Error::TableFull && final(self)@ == old(self)@
                &&& r is Ok ==> is_lowest_free(old(self)@, r->Ok_0) && final(self)@ == old(
                    self,
                )@.insert(r->Ok_0, old(self)@[handle])
            },
    {
        let e = match self.map.get(&handle) {
            Some(e) => e.share(),
            None => {
                return Err(Error::BadFileDescriptor);
            },
        };
        self.push(e)
    }

    /// Makes `to` a second handle for the entry under `from`, replacing what
    /// `to` held.
    pub fn dup_to(&mut self, from: u32, to: u32) -> (r: Result<(), Error>)
        ensures
            r is Ok <==> old(self)@.contains_key(from),
            r is Ok ==> final(self)@ == old(self)@.insert(to, old(self)@[from]),
            r is Err ==> r->Err_0 == Error::BadFileDescriptor && final(self)@ == old(self)@,
    {
        let e = match self.map.get(&from) {
            Some(e) => e.share(),
            None => {
                return Err(Error::BadFileDescriptor);
            },
        };
        self.map.insert(to, e);
        Ok(())
    }
}

} // verus!
