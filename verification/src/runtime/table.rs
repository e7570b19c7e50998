//! A map from names to objects that remembers the order in which the names
//! came.

use crate::runtime::closure::{lemma_names_push, names_view};
use crate::runtime::object::ObjectRef;
use vstd::hash_map::StringHashMap;
use vstd::prelude::*;

verus! {

/// A map from names to objects that remembers the order in which the names
/// came.
pub struct Table {
    names: Vec<String>,
    entries: StringHashMap<ObjectRef>,
}

/// What a [`Table`] holds: the names in the order of their first entry, and
/// the object under each.
pub ghost struct TableModel {
    pub names: Seq<Seq<char>>,
    pub entries: Map<Seq<char>, ObjectRef>,
}

impl TableModel {
    /// The table without entries.
    pub open spec fn empty() -> TableModel {
        TableModel { names: Seq::empty(), entries: Map::empty() }
    }

    /// The table with `value` under `name`. A name that the table has
    /// keeps its place; a new one comes last.
    pub open spec fn insert(self, name: Seq<char>, value: ObjectRef) -> TableModel {
        TableModel {
            names: if self.entries.contains_key(name) {
                self.names
            } else {
                self.names.push(name)
            },
            entries: self.entries.insert(name, value),
        }
    }

    /// The object under `name`, if the table has one.
    pub open spec fn get(self, name: Seq<char>) -> Option<ObjectRef> {
        if self.entries.contains_key(name) {
            Some(self.entries[name])
        } else {
            None
        }
    }

    /// The entries from place `i` on, entered in order into `done`.
    pub open spec fn copy_from(self, i: nat, done: TableModel) -> TableModel
        decreases self.names.len() - i,
    {
        if i >= self.names.len() {
            done
        } else {
            match self.get(self.names[i as int]) {
                Some(value) => self.copy_from(i + 1, done.insert(self.names[i as int], value)),
                None => self.copy_from(i + 1, done),
            }
        }
    }

    /// A table with the same entries, entered in the order of the names.
    pub open spec fn copy(self) -> TableModel {
        self.copy_from(0, TableModel::empty())
    }

    /// Every entry of `self` is an entry of `other`.
    pub open spec fn within(self, other: TableModel) -> bool {
        forall|k: Seq<char>| #[trigger]
            self.entries.contains_key(k) ==> other.entries.contains_key(k) && self.entries[k]
                == other.entries[k]
    }

    /// Every entry of a copy is an entry of the table.
    pub proof fn lemma_copy_from(self, i: nat, done: TableModel)
        requires
            done.within(self),
        ensures
            self.copy_from(i, done).within(self),
        decreases self.names.len() - i,
    {
        if i < self.names.len() {
            match self.get(self.names[i as int]) {
                Some(value) => {
                    let next = done.insert(self.names[i as int], value);
                    assert(next.within(self));
                    self.lemma_copy_from(i + 1, next);
                },
                None => {
                    self.lemma_copy_from(i + 1, done);
                },
            }
        }
    }

    /// The table that a list of entries describes, entered in order.
    pub open spec fn of_entries(entries: Seq<(Seq<char>, ObjectRef)>) -> TableModel
        decreases entries.len(),
    {
        if entries.len() == 0 {
            TableModel::empty()
        } else {
            TableModel::of_entries(entries.drop_last()).insert(entries.last().0, entries.last().1)
        }
    }
}

impl View for Table {
    type V = TableModel;

    closed spec fn view(&self) -> TableModel {
        TableModel { names: names_view(self.names@), entries: self.entries@ }
    }
}

impl Table {
    /// A table without entries.
    pub fn new() -> (r: Table)
        ensures
            r@ == TableModel::empty(),
    {
        let r = Table { names: Vec::new(), entries: StringHashMap::new() };
        proof {
            assert(r@.names =~= Seq::<Seq<char>>::empty());
        }
        r
    }

    /// Enters `value` under `name`. A name that the table has keeps its place;
    /// a new one comes last.
    pub fn insert(&mut self, name: String, value: ObjectRef)
        ensures
            final(self)@ == old(self)@.insert(name@, value),
    {
        if !self.entries.contains_key(name.as_str()) {
            self.names.push(name.clone());
            proof {
                lemma_names_push(old(self).names@, name);
                assert(names_view(old(self).names@) + seq![name@] =~= names_view(old(self).names@).push(
                    name@,
                ));
            }
        }
        self.entries.insert(name, value);
    }

    /// The object under `name`; `None` where the table has none.
    pub fn get(&self, name: &str) -> (r: Option<ObjectRef>)
        ensures
            r == self@.get(name@),
    {
        match self.entries.get(name) {
            Some(value) => Some(*value),
            None => None,
        }
    }

    /// Whether the table has an object under `name`.
    pub fn contains_key(&self, name: &str) -> (r: bool)
        ensures
            r == self@.entries.contains_key(name@),
    {
        self.entries.contains_key(name)
    }

    /// A table with the same entries, entered in the order of the names.
    pub fn copy(&self) -> (r: Table)
        ensures
            r@ == self@.copy(),
    {
        let mut r = Table::new();
        let mut i: usize = 0;
        while i < self.names.len()
            invariant
                i <= self.names.len(),
                self@.copy_from(i as nat, r@) == self@.copy(),
            decreases self.names.len() - i,
        {
            match self.entries.get(self.names[i].as_str()) {
                Some(value) => {
                    r.insert(self.names[i].clone(), *value);
                },
                None => {},
            }
            i = i + 1;
        }
        r
    }

    /// How many names came.
    pub fn len(&self) -> (r: usize)
        ensures
            r == self@.names.len(),
    {
        self.names.len()
    }

    /// The name that came at place `i`.
    pub fn name_at(&self, i: usize) -> (r: &String)
        requires
            i < self@.names.len(),
        ensures
            r@ == self@.names[i as int],
    {
        &self.names[i]
    }
}

} // verus!
