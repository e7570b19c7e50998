//! Copies of objects.

use crate::runtime::error::{Error, ErrorModel, Outcome};
use crate::runtime::host::{error_ok, outcome, outcome_ok};
use crate::runtime::model::{map_ok, object_refs_ok, ref_ok, RuntimeModel};
use crate::runtime::object::{ObjectModel, ObjectRef, PrimitiveModel};
use crate::runtime::table::{Table, TableModel};
use crate::runtime::Runtime;
use crate::text::{is_reserved, starts_reserved};
use vstd::prelude::*;

verus! {

/// The views of a list of names with the object that each may have.
pub open spec fn optional_entries_view(entries: Seq<(String, Option<ObjectRef>)>) -> Seq<
    (Seq<char>, Option<ObjectRef>),
> {
    Seq::new(entries.len(), |i: int| (entries[i].0@, entries[i].1))
}

/// Whether a copy of `object` takes the property: it takes no property
/// whose name starts with two underscores, and none that holds the object
/// itself.
pub open spec fn is_copied(object: ObjectRef, name: Seq<char>, value: Option<ObjectRef>) -> bool {
    value is Some && !is_reserved(name) && value != Some(object)
}

/// Copies of the values of the entries from place `i` on that a copy of
/// `object` takes, entered under their names into `done`.
pub open spec fn clone_entries(
    s: RuntimeModel,
    object: ObjectRef,
    entries: Seq<(Seq<char>, Option<ObjectRef>)>,
    i: nat,
    done: TableModel,
    budget: nat,
) -> (RuntimeModel, Result<TableModel, ErrorModel>)
    decreases budget, 1nat, entries.len() - i,
{
    if i >= entries.len() {
        (s, Ok(done))
    } else if !is_copied(object, entries[i as int].0, entries[i as int].1) {
        clone_entries(s, object, entries, i + 1, done, budget)
    } else {
        let (s, r) = clone_object(s, entries[i as int].1.unwrap(), budget);
        match r {
            Ok(copy) => clone_entries(
                s,
                object,
                entries,
                i + 1,
                done.insert(entries[i as int].0, copy),
                budget,
            ),
            Err(error) => (s, Err(error)),
        }
    }
}

/// A copy of an object, with copies of the objects under its properties,
/// and of those under theirs, as far as the budget allows.
///
/// The copy is a new object of the same class and superclass that shares
/// the object's methods and holds a copy of its payload. Of the properties
/// it takes those whose names do not start with two underscores and which
/// do not hold the object itself, each with a copy of its value, made
/// before the copy itself. A chain of properties longer than the budget
/// fails with `BudgetExhausted`.
pub open spec fn clone_object(
    s: RuntimeModel,
    object: ObjectRef,
    budget: nat,
) -> (RuntimeModel, Outcome)
    decreases budget, 0nat, 0nat,
{
    if budget == 0 {
        (s, Err(ErrorModel::BudgetExhausted))
    } else {
        let (s, r) = clone_entries(
            s,
            object,
            s.object(object).property_entries(),
            0,
            TableModel::empty(),
            (budget - 1) as nat,
        );
        match r {
            Ok(properties) => (s.adopt(
                s.object(object).copy(object, properties),
            ), Ok(s.next_ref())),
            Err(error) => (s, Err(error)),
        }
    }
}

/// A copy of a well-formed object with well-formed properties is well
/// formed at the end of the table.
pub proof fn lemma_copy_ok(s: RuntimeModel, object: ObjectRef, properties: TableModel)
    requires
        s.wf(),
        s.contains(object),
        map_ok(properties.entries, s.heap.len()),
    ensures
        object_refs_ok(
            s.object(object).copy(object, properties),
            s.heap.len() as int,
            s.heap.len() + 1,
        ),
{
    let source = s.object(object);
    let this = object;
    let start = ObjectModel {
        class: source.class,
        superclass: source.superclass,
        weak_self: this,
        property_names: properties.names,
        properties: properties.entries,
        method_names: Seq::empty(),
        methods: Map::empty(),
        primitive: source.copy_primitive(),
    };
    s.lemma_object_ok(object);
    source.lemma_copy_methods_from(0, start);
    match source.primitive {
        Some(PrimitiveModel::Dictionary(table)) => {
            table.lemma_copy_from(0, TableModel::empty());
        },
        _ => {},
    }
}

impl Runtime {
    /// Makes a copy of `object`, with copies of the objects under its
    /// properties. Objects whose properties lead back to themselves through
    /// other objects have no finite copy: the budget bounds how long a
    /// chain of properties the copy follows.
    pub fn clone_object(
        &mut self,
        object: ObjectRef,
        budget: usize,
    ) -> (r: Result<ObjectRef, Error>)
        requires
            old(self).wf(),
            old(self)@.contains(object),
        ensures
            final(self).wf(),
            old(self)@.grows_to(final(self)@),
            outcome_ok(final(self)@, outcome(r)),
            (final(self)@, outcome(r)) == clone_object(old(self)@, object, budget as nat),
        decreases budget, 0nat, 0nat,
    {
        if budget == 0 {
            return Err(Error::BudgetExhausted);
        }
        let entries = self.property_entries(object);
        let mut properties = Table::new();
        let mut i: usize = 0;
        while i < entries.len()
            invariant
                self.wf(),
                i <= entries.len(),
                budget > 0,
                old(self)@.grows_to(self@),
                old(self)@.contains(object),
                optional_entries_view(entries@) == old(self)@.object(object).property_entries(),
                forall|k: int|
                    0 <= k < entries.len() ==> ((#[trigger] entries@[k]).1 matches Some(value)
                        ==> old(self)@.contains(value)),
                map_ok(properties@.entries, self@.heap.len()),
                clone_entries(
                    self@,
                    object,
                    optional_entries_view(entries@),
                    i as nat,
                    properties@,
                    (budget - 1) as nat,
                ) == clone_entries(
                    old(self)@,
                    object,
                    optional_entries_view(entries@),
                    0,
                    TableModel::empty(),
                    (budget - 1) as nat,
                ),
            decreases entries.len() - i,
        {
            if let Some(value) = entries[i].1 {
                if !starts_reserved(entries[i].0.as_str()) && value != object {
                    let ghost before = self@;
                    let ghost entered = properties@;
                    match self.clone_object(value, budget - 1) {
                        Ok(copy) => {
                            properties.insert(entries[i].0.clone(), copy);
                            proof {
                                assert forall|k: Seq<char>|
                                    properties@.entries.contains_key(k) implies ref_ok(
                                    #[trigger] properties@.entries[k],
                                    self@.heap.len(),
                                ) by {
                                    if k != entries@[i as int].0@ {
                                        assert(ref_ok(
                                            entered.entries[k],
                                            before.heap.len(),
                                        ));
                                    }
                                }
                            }
                        },
                        Err(error) => {
                            return Err(error);
                        },
                    }
                }
            }
            i = i + 1;
        }
        proof {
            lemma_copy_ok(self@, object, properties@);
        }
        let copy = self.object(object).copy(object, properties);
        Ok(self.adopt(copy))
    }
}

} // verus!
