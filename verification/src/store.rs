//! An append-only store of published key records, one row per id.

use crate::text::opt_text;
use vstd::prelude::*;

verus! {

/// A stored record: an id, the key text as submitted, and an optional note.
pub struct KeyRecord {
    pub id: String,
    pub public_key: String,
    pub note: Option<String>,
}

/// What a record holds besides its id.
#[verifier::ext_equal]
pub struct RecordData {
    pub key: Seq<char>,
    pub note: Option<Seq<char>>,
}

impl KeyRecord {
    /// The stored content of this record.
    pub open spec fn data(&self) -> RecordData {
        RecordData { key: self.public_key@, note: opt_text(self.note) }
    }
}

/// Why the store refused a write.
#[derive(Clone, Copy, Debug, PartialEq, Eq, Structural)]
pub enum StoreError {
    /// A row with this id already exists.
    Conflict,
    /// The backing storage could not be reached. Never raised by this
    /// in-memory store; a persistent implementation maps its I/O failures
    /// onto it.
    Unavailable,
}

/// The table an id-keyed sequence of records stands for, later rows last.
spec fn table_of(rs: Seq<KeyRecord>) -> Map<Seq<char>, RecordData>
    decreases rs.len(),
{
    if rs.len() == 0 {
        Map::empty()
    } else {
        table_of(rs.drop_last()).insert(rs.last().id@, rs.last().data())
    }
}

spec fn unique_ids(rs: Seq<KeyRecord>) -> bool {
    forall|i: int, j: int| 0 <= i < j < rs.len() ==> rs[i].id@ != rs[j].id@
}

proof fn lemma_table_contains(rs: Seq<KeyRecord>, id: Seq<char>)
    ensures
        table_of(rs).contains_key(id) <==> exists|i: int| 0 <= i < rs.len() && rs[i].id@ == id,
    decreases rs.len(),
{
    if rs.len() > 0 {
        lemma_table_contains(rs.drop_last(), id);
        if rs.last().id@ == id {
            assert(rs[rs.len() - 1].id@ == id);
        } else if table_of(rs).contains_key(id) {
            let i = choose|i: int| 0 <= i < rs.drop_last().len() && rs.drop_last()[i].id@ == id;
            assert(rs[i].id@ == id);
        } else {
            assert forall|i: int| 0 <= i < rs.len() implies rs[i].id@ != id by {
                if i < rs.len() - 1 {
                    assert(rs.drop_last()[i].id@ != id);
                }
            }
        }
    }
}

proof fn lemma_table_value(rs: Seq<KeyRecord>, i: int)
    requires
        unique_ids(rs),
        0 <= i < rs.len(),
    ensures
        table_of(rs).contains_key(rs[i].id@),
        table_of(rs)[rs[i].id@] == rs[i].data(),
    decreases rs.len(),
{
    if i == rs.len() - 1 {
    } else {
        lemma_table_value(rs.drop_last(), i);
        assert(rs.drop_last()[i] == rs[i]);
        assert(rs.last().id@ != rs[i].id@);
    }
}

/// An in-memory record store. Records are only ever added, never changed
/// or removed, and no two of them share an id.
pub struct Store {
    records: Vec<KeyRecord>,
}

impl Store {
    /// The table this store holds, keyed by record id.
    pub closed spec fn table(&self) -> Map<Seq<char>, RecordData> {
        table_of(self.records@)
    }

    /// The store's invariant: ids are unique.
    pub closed spec fn wf(&self) -> bool {
        unique_ids(self.records@)
    }

    /// An empty store.
    pub fn new() -> (s: Store)
        ensures
            s.wf(),
            s.table() == Map::<Seq<char>, RecordData>::empty(),
    {
        Store { records: Vec::new() }
    }

    /// Insert a new record. Fails with `Conflict`, leaving the store
    /// unchanged, exactly when a record with the same id already exists.
    pub fn create(&mut self, record: KeyRecord) -> (r: Result<(), StoreError>)
        requires
            old(self).wf(),
        ensures
            final(self).wf(),
            old(self).table().contains_key(record.id@) ==> r == Err::<(), StoreError>(
                StoreError::Conflict,
            ) && final(self).table() == old(self).table(),
            !old(self).table().contains_key(record.id@) ==> r == Ok::<(), StoreError>(())
                && final(self).table() == old(self).table().insert(record.id@, record.data()),
    {
        let n = self.records.len();
        let mut i: usize = 0;
        while i < n
            invariant
                i <= n,
                n == self.records@.len(),
                *self == *old(self),
                old(self).wf(),
                forall|k: int| 0 <= k < i ==> self.records@[k].id@ != record.id@,
            decreases n - i,
        {
            if self.records[i].id == record.id {
                proof {
                    lemma_table_contains(self.records@, record.id@);
                    assert(exists|k: int|
                        0 <= k < self.records@.len() && self.records@[k].id@ == record.id@) by {
                        assert(self.records@[i as int].id@ == record.id@);
                    }
                }
                return Err(StoreError::Conflict);
            }
            i += 1;
        }
        proof {
            lemma_table_contains(self.records@, record.id@);
            assert(self.records@.push(record).drop_last() =~= self.records@);
        }
        self.records.push(record);
        Ok(())
    }

    /// Look up a record by id; `None` exactly when no row matches.
    pub fn get(&self, id: &str) -> (r: Option<&KeyRecord>)
        requires
            self.wf(),
        ensures
            r is Some <==> self.table().contains_key(id@),
            r matches Some(rec) ==> rec.id@ == id@ && self.table()[id@] == rec.data(),
    {
        let wanted = id.to_owned();
        let n = self.records.len();
        let mut i: usize = 0;
        while i < n
            invariant
                i <= n,
                n == self.records@.len(),
                self.wf(),
                wanted@ == id@,
                forall|k: int| 0 <= k < i ==> self.records@[k].id@ != id@,
            decreases n - i,
        {
            if self.records[i].id == wanted {
                proof {
                    lemma_table_value(self.records@, i as int);
                }
                return Some(&self.records[i]);
            }
            i += 1;
        }
        proof {
            lemma_table_contains(self.records@, id@);
        }
        None
    }
}

} // verus!
