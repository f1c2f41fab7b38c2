//! In-memory record store standing for the persistence collaborator.
//!
//! The runtime is single-threaded, so every data operation is serialized;
//! the store is owned by the app loop and handed to components one call at
//! a time, which models the shared, reference-counted connection handle of
//! the interface contract: `list`, `get`, `insert`, `update`, `delete`.

use vstd::prelude::*;

use crate::mode::Mode;

verus! {

/// A persisted record: a stable id, one text value per column, and a
/// credential used only by record types that carry one (empty otherwise).
#[derive(Debug)]
pub struct Record {
    pub id: i32,
    pub fields: Vec<String>,
    pub credential: String,
}

/// Mathematical value of a [`Record`].
pub ghost struct RecordV {
    pub id: int,
    pub fields: Seq<Seq<char>>,
    pub credential: Seq<char>,
}

impl View for Record {
    type V = RecordV;

    open spec fn view(&self) -> RecordV {
        RecordV { id: self.id as int, fields: self.fields.deep_view(), credential: self.credential@ }
    }
}

impl Clone for Record {
    /// A clone carries the same mathematical value.
    fn clone(&self) -> (r: Self)
        ensures
            r@ == self@,
    {
        let fields = self.fields.clone();
        proof {
            assert(fields.deep_view() =~= self.fields.deep_view());
        }
        Record { id: self.id, fields, credential: self.credential.clone() }
    }
}

/// True when some record in `s` has id `id`.
pub open spec fn has_id(s: Seq<Record>, id: int) -> bool {
    exists|i: int| 0 <= i < s.len() && s[i]@.id == id
}

/// One entity collection.  Ids are unique and handed out from a counter,
/// and every record has exactly `width` columns.
#[derive(Debug)]
pub struct Store {
    pub width: usize,
    pub records: Vec<Record>,
    pub next_id: i32,
}

impl Store {
    /// Well-formedness: ids unique and below the counter, row widths fixed.
    pub open spec fn wf(self) -> bool {
        &&& self.next_id >= 1
        &&& forall|i: int|
            0 <= i < self.records@.len() ==> 1 <= (#[trigger] self.records@[i])@.id < self.next_id
        &&& forall|i: int, j: int|
            0 <= i < j < self.records@.len() ==> (#[trigger] self.records@[i])@.id != (
            #[trigger] self.records@[j])@.id
        &&& forall|i: int|
            0 <= i < self.records@.len() ==> (#[trigger] self.records@[i])@.fields.len()
                == self.width
    }

    /// An empty collection of rows with `width` columns.
    pub fn new(width: usize) -> (r: Store)
        ensures
            r.wf(),
            r.records@.len() == 0,
            r.width == width,
    {
        Store { width, records: Vec::new(), next_id: 1 }
    }

    /// Number of records.
    pub fn len(&self) -> (n: usize)
        ensures
            n == self.records@.len(),
    {
        self.records.len()
    }

    /// Index of the record with id `id`, if present.
    pub fn find_index(&self, id: i32) -> (r: Option<usize>)
        ensures
            match r {
                Some(i) => i < self.records@.len() && self.records@[i as int]@.id == id,
                None => !has_id(self.records@, id as int),
            },
    {
        let mut i: usize = 0;
        while i < self.records.len()
            invariant
                i <= self.records@.len(),
                forall|j: int| 0 <= j < i ==> (#[trigger] self.records@[j])@.id != id,
            decreases self.records@.len() - i,
        {
            if self.records[i].id == id {
                return Some(i);
            }
            i = i + 1;
        }
        None
    }

    /// The full ordered collection, as the persistence contract's `list`.
    pub fn list(&self) -> (r: Vec<Record>)
        ensures
            r@.len() == self.records@.len(),
            forall|i: int| 0 <= i < r@.len() ==> (#[trigger] r@[i])@ == self.records@[i]@,
    {
        self.records.clone()
    }

    /// The record with id `id`, if present: the contract's `get`.
    /// Exactly the ids present in the collection are found.
    pub fn get(&self, id: i32) -> (r: Option<Record>)
        ensures
            match r {
                Some(rec) => has_id(self.records@, id as int) && rec@.id == id && exists|i: int|
                    0 <= i < self.records@.len() && (#[trigger] self.records@[i])@ == rec@,
                None => !has_id(self.records@, id as int),
            },
    {
        match self.find_index(id) {
            Some(i) => Some(self.records[i].clone()),
            None => None,
        }
    }

    /// Appends a fresh record built from `fields`, with a newly assigned
    /// id, and returns that id: the contract's `insert`.
    pub fn insert(&mut self, fields: Vec<String>, credential: String) -> (id: i32)
        requires
            old(self).wf(),
            fields@.len() == old(self).width,
            old(self).next_id < i32::MAX,
        ensures
            final(self).wf(),
            id == old(self).next_id,
            final(self).width == old(self).width,
            final(self).next_id == old(self).next_id + 1,
            final(self).records@.len() == old(self).records@.len() + 1,
            forall|i: int|
                0 <= i < old(self).records@.len() ==> final(self).records@[i] == old(self).records@[i],
            final(self).records@.last()@ == (RecordV {
                id: id as int,
                fields: fields.deep_view(),
                credential: credential@,
            }),
            !has_id(old(self).records@, id as int),
    {
        let id = self.next_id;
        let ghost old_records = self.records@;
        let rec = Record { id, fields, credential };
        self.records.push(rec);
        self.next_id = self.next_id + 1;
        proof {
            assert(forall|i: int|
                0 <= i < old_records.len() ==> #[trigger] self.records@[i] == old_records[i]);
            assert(self.records@.last()@.id == id);
            assert(self.records@.last()@.fields.len() == self.width);
            let n = self.records@.len();
            assert forall|i: int, j: int| 0 <= i < j < n implies (
            #[trigger] self.records@[i])@.id != (#[trigger] self.records@[j])@.id by {
                if j == n - 1 {
                    assert(self.records@[i]@.id < id);
                }
            }
        }
        id
    }

    /// Replaces the columns of the record with id `id`, leaving its
    /// credential in place: the contract's `update`.  Returns whether a
    /// record with that id was present; nothing changes when none is.
    pub fn update_fields(&mut self, id: i32, fields: Vec<String>) -> (found: bool)
        requires
            old(self).wf(),
            fields@.len() == old(self).width,
        ensures
            final(self).wf(),
            final(self).width == old(self).width,
            final(self).next_id == old(self).next_id,
            final(self).records@.len() == old(self).records@.len(),
            found == has_id(old(self).records@, id as int),
            forall|i: int|
                0 <= i < old(self).records@.len() && old(self).records@[i]@.id != id ==> final(self).records@[i] == old(self).records@[i],
            forall|i: int|
                0 <= i < old(self).records@.len() && old(self).records@[i]@.id == id ==> (
                #[trigger] final(self).records@[i])@ == (RecordV {
                    id: id as int,
                    fields: fields.deep_view(),
                    credential: old(self).records@[i]@.credential,
                }),
    {
        match self.find_index(id) {
            Some(i) => {
                let credential = self.records[i].credential.clone();
                let mut rec = Record { id, fields, credential };
                self.records.set_and_swap(i, &mut rec);
                true
            },
            None => false,
        }
    }

    /// Replaces the credential of the record with id `id`, leaving its
    /// columns in place.  Returns whether a record with that id was present.
    pub fn set_credential(&mut self, id: i32, credential: String) -> (found: bool)
        requires
            old(self).wf(),
        ensures
            final(self).wf(),
            final(self).width == old(self).width,
            final(self).next_id == old(self).next_id,
            final(self).records@.len() == old(self).records@.len(),
            found == has_id(old(self).records@, id as int),
            forall|i: int|
                0 <= i < old(self).records@.len() && old(self).records@[i]@.id != id ==> final(self).records@[i] == old(self).records@[i],
            forall|i: int|
                0 <= i < old(self).records@.len() && old(self).records@[i]@.id == id ==> (
                #[trigger] final(self).records@[i])@ == (RecordV {
                    id: id as int,
                    fields: old(self).records@[i]@.fields,
                    credential: credential@,
                }),
    {
        match self.find_index(id) {
            Some(i) => {
                let fields = self.records[i].fields.clone();
                proof {
                    assert(fields.deep_view() =~= self.records@[i as int].fields.deep_view());
                }
                let mut rec = Record { id, fields, credential };
                self.records.set_and_swap(i, &mut rec);
                true
            },
            None => false,
        }
    }

    /// Removes the record with id `id`, keeping the order of the rest:
    /// the contract's `delete`.  Nothing changes when no record has it.
    pub fn delete(&mut self, id: i32)
        requires
            old(self).wf(),
        ensures
            final(self).wf(),
            final(self).width == old(self).width,
            final(self).next_id == old(self).next_id,
            !has_id(final(self).records@, id as int),
            has_id(old(self).records@, id as int) ==> exists|i: int|
                0 <= i < old(self).records@.len() && old(self).records@[i]@.id == id && final(self).records@ == old(self).records@.remove(i),
            !has_id(old(self).records@, id as int) ==> final(self).records@ == old(self).records@,
    {
        match self.find_index(id) {
            Some(i) => {
                let ghost old_records = self.records@;
                self.records.remove(i);
                proof {
                    assert(self.records@ =~= old_records.remove(i as int));
                    assert forall|j: int| 0 <= j < self.records@.len() implies (
                    #[trigger] self.records@[j])@.id != id by {
                        if j < i {
                            assert(self.records@[j] == old_records[j]);
                        } else {
                            assert(self.records@[j] == old_records[j + 1]);
                        }
                    }
                }
            },
            None => {},
        }
    }
}

/// The whole backing database: one collection per tab.
#[derive(Debug)]
pub struct Db {
    pub posts: Store,
    pub tags: Store,
    pub users: Store,
}

impl Db {
    /// The collection administered under a tab.
    pub open spec fn of(self, m: Mode) -> Store {
        match m {
            Mode::Posts => self.posts,
            Mode::Tags => self.tags,
            Mode::Users => self.users,
        }
    }

    /// Well-formedness: every collection well-formed, with the column
    /// count of its record type.
    pub open spec fn wf(self) -> bool {
        &&& self.posts.wf() && self.posts.width == 3
        &&& self.tags.wf() && self.tags.width == 0
        &&& self.users.wf() && self.users.width == 2
    }

    /// An empty database.
    pub fn new() -> (r: Db)
        ensures
            r.wf(),
            r.posts.records@.len() == 0,
            r.tags.records@.len() == 0,
            r.users.records@.len() == 0,
    {
        Db { posts: Store::new(3), tags: Store::new(0), users: Store::new(2) }
    }

    /// A shared reference to the collection administered under `m`.
    pub fn store_ref(&self, m: Mode) -> (r: &Store)
        ensures
            *r == self.of(m),
    {
        match m {
            Mode::Posts => &self.posts,
            Mode::Tags => &self.tags,
            Mode::Users => &self.users,
        }
    }
}

/// A failure surfaced from a data operation.
#[derive(Debug, Copy, Clone, PartialEq, Eq, Structural)]
pub enum AppError {
    /// A data operation was attempted before the persistence handle was
    /// wired to the component.
    NotConnected,
}

impl AppError {
    /// The message displayed for this failure.
    pub open spec fn message_spec(self) -> Seq<char> {
        "Database is not connected"@
    }

    /// The message displayed for this failure.
    pub fn message(&self) -> (r: String)
        ensures
            r@ == self.message_spec(),
    {
        String::from_str("Database is not connected")
    }
}

} // verus!
