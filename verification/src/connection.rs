//! Connection manager: opens handles against the store file with the settings
//! every handle needs — write-ahead logging, NORMAL synchronous, foreign-key
//! enforcement, a busy timeout before a contention error surfaces, and a page
//! cache sized for typical note loads.
use vstd::prelude::*;
use crate::sqlite;

verus! {

/// Opens the store file and applies the connection settings. Failure to open
/// the file is the caller's fatal initialization error: nothing is degraded
/// silently.
pub fn create_connection(path: &str) -> (r: Result<rusqlite::Connection, rusqlite::Error>) {
    let conn = match sqlite::open_connection(path) {
        Ok(c) => c,
        Err(e) => {
            return Err(e);
        },
    };
    match sqlite::execute_batch(
        &conn,
        "PRAGMA journal_mode = WAL;\
         PRAGMA synchronous = NORMAL;\
         PRAGMA foreign_keys = ON;\
         PRAGMA cache_size = -64000;\
         PRAGMA busy_timeout = 5000;\
         PRAGMA temp_store = MEMORY;",
    ) {
        Ok(_) => Ok(conn),
        Err(e) => Err(e),
    }
}

/// How many read-only handles a pool holds.
pub const READER_POOL_SIZE: usize = 4;

/// A bounded pool of read-only handles against one store file. The pool
/// tracks which slots are checked out and never hands a slot out twice;
/// waiting, timing out, and falling back to the write handle when every
/// reader is out are the caller's affair.
pub struct ReaderPool {
    readers: Vec<rusqlite::Connection>,
    taken: Vec<bool>,
}

impl ReaderPool {
    /// One checkout flag per reader.
    pub closed spec fn slots(&self) -> Seq<bool> {
        self.taken@
    }

    /// The pool's shape: one flag per handle.
    pub closed spec fn well_formed(&self) -> bool {
        self.readers@.len() == self.taken@.len()
    }

    /// Opens `size` read-only handles against the store at `path`, all free.
    pub fn new(path: &str, size: usize) -> (r: Result<ReaderPool, rusqlite::Error>)
        ensures
            r matches Ok(p) ==> (p.well_formed() && p.slots().len() == size && forall|i: int|
                0 <= i < size ==> !(#[trigger] p.slots()[i])),
    {
        let mut readers: Vec<rusqlite::Connection> = Vec::new();
        let mut taken: Vec<bool> = Vec::new();
        let mut k: usize = 0;
        while k < size
            invariant
                readers@.len() == k <= size,
                taken@.len() == k,
                forall|i: int| 0 <= i < k ==> !(#[trigger] taken@[i]),
            decreases size - k,
        {
            let conn = match open_reader(path) {
                Ok(c) => c,
                Err(e) => {
                    return Err(e);
                },
            };
            readers.push(conn);
            taken.push(false);
            k = k + 1;
        }
        Ok(ReaderPool { readers, taken })
    }

    /// Checks a free slot out, or reports that every reader is out. A
    /// returned slot was free and is now marked taken; no other slot moves.
    pub fn acquire(&mut self) -> (r: Option<usize>)
        requires
            old(self).well_formed(),
        ensures
            final(self).well_formed(),
            r matches Some(i) ==> (i < old(self).slots().len() && !old(self).slots()[i as int]
                && final(self).slots() == old(self).slots().update(i as int, true)),
            r is None ==> (final(self).slots() == old(self).slots() && forall|i: int|
                0 <= i < final(self).slots().len() ==> #[trigger] final(self).slots()[i]),
    {
        let n = self.taken.len();
        let mut k: usize = 0;
        while k < n
            invariant
                k <= n == self.taken@.len(),
                self.well_formed(),
                self == old(self),
                forall|i: int| 0 <= i < k ==> #[trigger] self.slots()[i],
            decreases n - k,
        {
            if !self.taken[k] {
                self.taken.set(k, true);
                proof {
                    assert(self.slots() =~= old(self).slots().update(k as int, true));
                }
                return Some(k);
            }
            k = k + 1;
        }
        None
    }

    /// The handle of a checked-out slot.
    pub fn reader(&self, slot: usize) -> (r: &rusqlite::Connection)
        requires
            self.well_formed(),
            slot < self.slots().len(),
    {
        &self.readers[slot]
    }

    /// Returns a checked-out slot to the pool.
    pub fn release(&mut self, slot: usize)
        requires
            old(self).well_formed(),
            slot < old(self).slots().len(),
            old(self).slots()[slot as int],
        ensures
            final(self).well_formed(),
            final(self).slots() == old(self).slots().update(slot as int, false),
    {
        self.taken.set(slot, false);
        proof {
            assert(self.slots() =~= old(self).slots().update(slot as int, false));
        }
    }
}

/// Opens one read-only handle with the per-connection settings readers need.
fn open_reader(path: &str) -> (r: Result<rusqlite::Connection, rusqlite::Error>) {
    let conn = match sqlite::open_connection_read_only(path) {
        Ok(c) => c,
        Err(e) => {
            return Err(e);
        },
    };
    match sqlite::execute_batch(
        &conn,
        "PRAGMA busy_timeout = 5000;\
         PRAGMA cache_size = -64000;",
    ) {
        Ok(_) => Ok(conn),
        Err(e) => Err(e),
    }
}

/// An in-memory store for tests and development, with the settings that make
/// sense off disk.
pub fn create_memory_connection() -> (r: Result<rusqlite::Connection, rusqlite::Error>) {
    let conn = match sqlite::open_memory_connection() {
        Ok(c) => c,
        Err(e) => {
            return Err(e);
        },
    };
    match sqlite::execute_batch(
        &conn,
        "PRAGMA foreign_keys = ON;\
         PRAGMA temp_store = MEMORY;",
    ) {
        Ok(_) => Ok(conn),
        Err(e) => Err(e),
    }
}

} // verus!
