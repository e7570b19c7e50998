//! The runtime: objects, scopes and the evaluator that runs programs on them.
//!
//! This module holds the state of the runtime and the operations on
//! objects, strings, classes and variables. [`interpret`] holds the
//! evaluator, [`stdlib`] the methods of the built-in classes, and
//! [`bootstrap`] the construction of the built-in classes and objects.

use crate::runtime::bootstrap::Builtins;
use crate::runtime::closure::lemma_names_push;
use crate::runtime::copy::optional_entries_view;
use crate::runtime::error::unit_outcome;
use crate::runtime::model::{
    entries_ok, frame_ok, lemma_of_entries_ok, map_ok, object_ok, object_refs_ok, primitive_ok,
    ref_ok, FrameModel, Lookup, RuntimeModel,
};
use crate::runtime::object::{
    method_view, params_view, Method, MethodBody, MethodModel, MethodReceiver, MethodRef, Object,
    ObjectRef, Param, Primitive, PrimitiveModel, SystemMethod, DEFAULT_NAME,
};
use crate::runtime::table::{Table, TableModel};
use crate::text::same_text;
use std::rc::Rc;
use vstd::hash_map::StringHashMap;
use vstd::prelude::*;

pub mod bootstrap;
pub mod budget;
pub mod builtin;
pub mod closure;
pub mod copy;
pub mod error;
pub mod host;
pub mod interpret;
pub mod laws;
pub mod model;
pub mod object;
pub mod semantics;
pub mod stdlib;
pub mod table;

pub use error::{Error, ErrorModel};

verus! {

/// One level of scope: the receiver and the class in whose body the code
/// runs, the classes whose methods can be called without a receiver, and the
/// local variables.
pub struct StackFrame {
    instance: Option<ObjectRef>,
    class: Option<ObjectRef>,
    open_classes: Vec<ObjectRef>,
    variables: StringHashMap<ObjectRef>,
}

impl View for StackFrame {
    type V = FrameModel;

    closed spec fn view(&self) -> FrameModel {
        FrameModel {
            instance: self.instance,
            class: self.class,
            open_classes: self.open_classes@,
            variables: self.variables@,
        }
    }
}

impl StackFrame {
    /// A frame with nothing in it.
    pub fn new() -> (r: StackFrame)
        ensures
            r@ == FrameModel::empty(),
    {
        StackFrame {
            instance: None,
            class: None,
            open_classes: Vec::new(),
            variables: StringHashMap::new(),
        }
    }

    /// The frame of a class body.
    pub fn of_class(class: ObjectRef) -> (r: StackFrame)
        ensures
            r@ == FrameModel::of_class(class),
    {
        StackFrame {
            instance: None,
            class: Some(class),
            open_classes: Vec::new(),
            variables: StringHashMap::new(),
        }
    }

    /// The frame of a method call on `instance` with these local variables.
    pub fn of_call(instance: ObjectRef, variables: StringHashMap<ObjectRef>) -> (r: StackFrame)
        ensures
            r@ == FrameModel::of_call(instance, variables@),
    {
        StackFrame { instance: Some(instance), class: None, open_classes: Vec::new(), variables }
    }
}

/// The runtime: the object table, the built-ins, the scope stack and the
/// string table.
pub struct Runtime {
    heap: Vec<Object>,
    builtins: Builtins,
    stack: Vec<StackFrame>,
    strings: StringHashMap<ObjectRef>,
    string_count_marker: usize,
}

/// After this many new strings the string table is swept.
pub const STRING_ALLOCATION_THRESHOLD: usize = 64;

/// The entries of a dictionary literal, with the keys as sequences of
/// characters.
pub open spec fn entries_view(entries: Seq<(String, ObjectRef)>) -> Seq<(Seq<char>, ObjectRef)> {
    Seq::new(entries.len(), |i: int| (entries[i].0@, entries[i].1))
}

impl View for Runtime {
    type V = RuntimeModel;

    closed spec fn view(&self) -> RuntimeModel {
        RuntimeModel {
            heap: Seq::new(self.heap@.len(), |i: int| self.heap@[i]@),
            builtins: self.builtins,
            stack: Seq::new(self.stack@.len(), |i: int| self.stack@[i]@),
            strings: self.strings@,
            string_count_marker: self.string_count_marker as nat,
        }
    }
}

impl Runtime {
    /// Makes a runtime that holds the built-in classes and objects with
    /// their methods, and one stack frame, whose class is `Main`.
    pub fn new() -> (r: Runtime)
        ensures
            r.wf(),
            r@ == RuntimeModel::bootstrap(),
    {
        Runtime::bootstrap()
    }

    /// The state is well formed. Every runtime that [`Runtime::new`] made
    /// and that only this library's functions changed is.
    pub open spec fn wf(&self) -> bool {
        self@.wf()
    }

    /// Whether `r` names an object of this runtime.
    pub fn contains(&self, r: ObjectRef) -> (b: bool)
        ensures
            b == self@.contains(r),
    {
        r.id < self.heap.len()
    }

    /// The object that `r` names.
    pub fn object(&self, r: ObjectRef) -> (o: &Object)
        requires
            self@.contains(r),
        ensures
            o@ == self@.object(r),
    {
        &self.heap[r.id]
    }

    /// The built-in classes and objects.
    pub fn builtins(&self) -> (b: Builtins)
        ensures
            b == self@.builtins,
    {
        self.builtins
    }

    /// The class of `r`.
    pub fn class_of(&self, r: ObjectRef) -> (class: ObjectRef)
        requires
            self.wf(),
            self@.contains(r),
        ensures
            class == self@.class_of(r),
            self@.contains(class),
    {
        match self.heap[r.id].class {
            Some(class) => class,
            None => {
                proof {
                    assert(object_ok(self@.heap[r.id as int], r.id as int, self@.heap.len()));
                }
                r
            },
        }
    }

    /// Whether `object` is a class: an instance of the root class `Class`.
    pub fn is_class(&self, object: ObjectRef) -> (b: bool)
        requires
            self.wf(),
            self@.contains(object),
        ensures
            b == self@.is_class(object),
    {
        self.class_of(object) == self.builtins.Class
    }

    /// Whether `condition` counts as false. The falsy objects are `false` and
    /// `nil`, and no others.
    pub fn is_falsy(&self, condition: ObjectRef) -> (b: bool)
        ensures
            b == self@.is_falsy(condition),
            b <==> condition == self@.builtins.bool_false || condition == self@.builtins.nil,
    {
        condition == self.builtins.bool_false || condition == self.builtins.nil
    }

    /// Whether `condition` counts as true: whether it is not falsy.
    pub fn is_truthy(&self, condition: ObjectRef) -> (b: bool)
        ensures
            b == self@.is_truthy(condition),
    {
        !self.is_falsy(condition)
    }

    /// The one object `nil`.
    pub fn nil(&self) -> (r: ObjectRef)
        ensures
            r == self@.builtins.nil,
    {
        self.builtins.nil
    }

    /// The one object that stands for `value`.
    pub fn create_bool(&mut self, value: bool) -> (r: ObjectRef)
        ensures
            final(self)@ == old(self)@,
            r == old(self)@.create_bool(value),
    {
        if value {
            self.builtins.bool_true
        } else {
            self.builtins.bool_false
        }
    }

    /// Makes a new instance of `class`.
    pub fn create_object(&mut self, class: ObjectRef) -> (r: ObjectRef)
        requires
            old(self).wf(),
            old(self)@.contains(class),
        ensures
            final(self).wf(),
            (final(self)@, r) == old(self)@.create_object(class),
            old(self)@.grows_to(final(self)@),
            final(self)@.contains(r),
            r.id == old(self)@.heap.len(),
    {
        let r = ObjectRef { id: self.heap.len() };
        let mut object = Object::new_of_class(r, class);
        object.set_property(builtin::property::__class__.to_owned(), class);
        self.heap.push(object);
        proof {
            let (s, _) = old(self)@.create_object(class);
            assert(self.heap.len() == old(self).heap@.len() + 1);
            assert(self@.heap =~= s.heap);
            assert(self@.stack =~= s.stack);
            old(self)@.lemma_create_object(class);
        }
        r
    }

    /// Puts a new object into the table, and tells it its place.
    pub(crate) fn adopt(&mut self, object: Object) -> (r: ObjectRef)
        requires
            old(self).wf(),
            object_refs_ok(object@, old(self)@.heap.len() as int, old(self)@.heap.len() + 1),
        ensures
            final(self).wf(),
            old(self)@.grows_to(final(self)@),
            final(self)@ == old(self)@.adopt(object@),
            r == old(self)@.next_ref(),
            final(self)@.contains(r),
    {
        let r = ObjectRef { id: self.heap.len() };
        let mut object = object;
        object.weak_self = r;
        self.heap.push(object);
        proof {
            let s = old(self)@.adopt(object@);
            assert(self.heap.len() == old(self).heap@.len() + 1);
            assert(self@.heap =~= s.heap);
            assert(self@.stack =~= s.stack);
            old(self)@.lemma_push(object@);
        }
        r
    }

    /// The properties of `object` in the order in which they were first
    /// set, each with its value.
    pub fn property_entries(&self, object: ObjectRef) -> (r: Vec<(String, Option<ObjectRef>)>)
        requires
            self.wf(),
            self@.contains(object),
        ensures
            optional_entries_view(r@) == self@.object(
                object,
            ).property_entries(),
            forall|k: int|
                0 <= k < r.len() ==> ((#[trigger] r@[k]).1 matches Some(value) ==> self@.contains(
                    value,
                )),
    {
        proof {
            self@.lemma_object_ok(object);
        }
        let table = &self.heap[object.id].properties;
        let mut entries: Vec<(String, Option<ObjectRef>)> = Vec::new();
        let mut i: usize = 0;
        while i < table.len()
            invariant
                i <= table@.names.len(),
                entries.len() == i,
                table@.names == self@.object(object).property_names,
                table@.entries == self@.object(object).properties,
                map_ok(table@.entries, self@.heap.len()),
                forall|k: int|
                    0 <= k < i ==> (#[trigger] entries@[k]).0@ == table@.names[k] && table@.get(
                        table@.names[k],
                    ) == entries@[k].1 && (entries@[k].1 matches Some(value) ==> self@.contains(
                        value,
                    )),
            decreases table@.names.len() - i,
        {
            let name = table.name_at(i);
            let value = table.get(name.as_str());
            entries.push((name.clone(), value));
            i = i + 1;
        }
        proof {
            assert(optional_entries_view(entries@) =~= self@.object(
                object,
            ).property_entries());
        }
        entries
    }

    /// Sets a property of `object`. This does not touch its superclass.
    pub fn set_property(&mut self, object: ObjectRef, name: String, value: ObjectRef)
        requires
            old(self).wf(),
            old(self)@.contains(object),
            old(self)@.contains(value),
        ensures
            final(self).wf(),
            final(self)@ == old(self)@.set_property(object, name@, value),
            old(self)@.grows_to(final(self)@),
    {
        self.heap[object.id].set_property(name, value);
        proof {
            let s = old(self)@.set_property(object, name@, value);
            assert(self@.heap =~= s.heap);
            assert(self@.stack =~= s.stack);
            old(self)@.lemma_set_property(object, name@, value);
        }
    }

    /// The property of `object` under `name`. This does not look at its
    /// superclass.
    pub fn get_property(&self, object: ObjectRef, name: &str) -> (r: Option<ObjectRef>)
        requires
            self.wf(),
            self@.contains(object),
        ensures
            r == self@.object(object).get_property(name@),
            r matches Some(value) ==> self@.contains(value),
    {
        let r = self.heap[object.id].get_property(name);
        proof {
            assert(object_ok(self@.heap[object.id as int], object.id as int, self@.heap.len()));
        }
        r
    }

    /// Gives `object` a payload. The references in the payload must name
    /// objects of this runtime.
    pub fn set_primitive(&mut self, object: ObjectRef, primitive: Primitive)
        requires
            old(self).wf(),
            old(self)@.contains(object),
            primitive_ok(Some(primitive@), old(self)@.heap.len()),
        ensures
            final(self).wf(),
            final(self)@ == old(self)@.set_primitive(object, primitive@),
            old(self)@.grows_to(final(self)@),
    {
        self.heap[object.id].set_primitive(primitive);
        proof {
            let s = old(self)@.set_primitive(object, primitive@);
            assert(self@.heap =~= s.heap);
            assert(self@.stack =~= s.stack);
            old(self)@.lemma_set_primitive(object, primitive@);
        }
    }

    /// Makes a new number. `value` is the bit pattern of a double-precision
    /// number.
    pub fn create_number(&mut self, value: u64) -> (r: ObjectRef)
        requires
            old(self).wf(),
        ensures
            final(self).wf(),
            (final(self)@, r) == old(self)@.create_number(value),
            old(self)@.grows_to(final(self)@),
            final(self)@.contains(r),
    {
        let r = self.create_object(self.builtins.Number);
        self.set_primitive(r, Primitive::Number(value));
        r
    }

    /// Makes a new list of these items.
    pub fn create_array(&mut self, elements: Vec<ObjectRef>) -> (r: ObjectRef)
        requires
            old(self).wf(),
            old(self)@.contains_all(elements@),
        ensures
            final(self).wf(),
            (final(self)@, r) == old(self)@.create_array(elements@),
            old(self)@.grows_to(final(self)@),
            final(self)@.contains(r),
    {
        let r = self.create_object(self.builtins.Array);
        self.set_primitive(r, Primitive::Array(elements));
        r
    }

    /// Makes a new tuple of these items.
    pub fn create_tuple(&mut self, items: Vec<ObjectRef>) -> (r: ObjectRef)
        requires
            old(self).wf(),
            old(self)@.contains_all(items@),
        ensures
            final(self).wf(),
            (final(self)@, r) == old(self)@.create_tuple(items@),
            old(self)@.grows_to(final(self)@),
            final(self)@.contains(r),
    {
        let r = self.create_object(self.builtins.Tuple);
        self.set_primitive(r, Primitive::Array(items));
        r
    }

    /// Makes a new dictionary. Of two entries with one key, the later one
    /// counts.
    pub fn create_dictionary(&mut self, entries: Vec<(String, ObjectRef)>) -> (r: ObjectRef)
        requires
            old(self).wf(),
            entries_ok(entries_view(entries@), old(self)@.heap.len()),
        ensures
            final(self).wf(),
            (final(self)@, r) == old(self)@.create_dictionary(entries_view(entries@)),
            old(self)@.grows_to(final(self)@),
            final(self)@.contains(r),
    {
        let mut dictionary = Table::new();
        let mut i: usize = 0;
        while i < entries.len()
            invariant
                i <= entries.len(),
                dictionary@ == TableModel::of_entries(entries_view(entries@).take(i as int)),
            decreases entries.len() - i,
        {
            let key = entries[i].0.clone();
            let value = entries[i].1;
            dictionary.insert(key, value);
            proof {
                let all = entries_view(entries@);
                assert(all.take(i + 1).drop_last() =~= all.take(i as int));
                assert(all.take(i + 1).last() == all[i as int]);
            }
            i = i + 1;
        }
        proof {
            let all = entries_view(entries@);
            assert(all.take(i as int) =~= all);
            lemma_of_entries_ok(all, old(self)@.heap.len());
        }
        let r = self.create_object(self.builtins.Dictionary);
        self.set_primitive(r, Primitive::Dictionary(dictionary));
        r
    }

    /// Adds `element` to the end of the list that `object` holds. Where it
    /// holds none, nothing changes and the result is `false`.
    pub fn array_push(&mut self, object: ObjectRef, element: ObjectRef) -> (done: bool)
        requires
            old(self).wf(),
            old(self)@.contains(object),
            old(self)@.contains(element),
        ensures
            final(self).wf(),
            old(self)@.grows_to(final(self)@),
            (final(self)@, done) == old(self)@.array_push(object, element),
    {
        proof {
            old(self)@.lemma_object_ok(object);
        }
        let done = match self.heap[object.id].array_mut() {
            Some(items) => {
                items.push(element);
                true
            },
            None => false,
        };
        proof {
            let (s, _) = old(self)@.array_push(object, element);
            assert(self@.heap =~= s.heap);
            assert(self@.stack =~= s.stack);
            if done {
                old(self)@.lemma_set_primitive(
                    object,
                    PrimitiveModel::Array(old(self)@.object(object).array().unwrap().push(element)),
                );
            }
        }
        done
    }

    /// Takes the last item off the list that `object` holds. Where it
    /// holds none, or an empty one, nothing changes and the result is
    /// `None`.
    pub fn array_pop(&mut self, object: ObjectRef) -> (r: Option<ObjectRef>)
        requires
            old(self).wf(),
            old(self)@.contains(object),
        ensures
            final(self).wf(),
            old(self)@.grows_to(final(self)@),
            (final(self)@, r) == old(self)@.array_pop(object),
            r matches Some(item) ==> final(self)@.contains(item),
    {
        proof {
            old(self)@.lemma_object_ok(object);
        }
        let r = match self.heap[object.id].array_mut() {
            Some(items) => items.pop(),
            None => None,
        };
        proof {
            let (s, _) = old(self)@.array_pop(object);
            assert(self@.heap =~= s.heap);
            assert(self@.stack =~= s.stack);
            if r is Some {
                let items = old(self)@.object(object).array().unwrap();
                assert(ref_ok(items[items.len() - 1], old(self)@.heap.len()));
                old(self)@.lemma_set_primitive(object, PrimitiveModel::Array(items.drop_last()));
            }
        }
        r
    }

    /// Stores `value` under `key` in the dictionary that `object` holds.
    /// Where it holds none, nothing changes and the result is `false`.
    pub fn dictionary_insert(&mut self, object: ObjectRef, key: String, value: ObjectRef) -> (done:
        bool)
        requires
            old(self).wf(),
            old(self)@.contains(object),
            old(self)@.contains(value),
        ensures
            final(self).wf(),
            old(self)@.grows_to(final(self)@),
            (final(self)@, done) == old(self)@.dictionary_insert(object, key@, value),
    {
        proof {
            old(self)@.lemma_object_ok(object);
        }
        let done = match self.heap[object.id].dictionary_mut() {
            Some(entries) => {
                entries.insert(key, value);
                true
            },
            None => false,
        };
        proof {
            let (s, _) = old(self)@.dictionary_insert(object, key@, value);
            assert(self@.heap =~= s.heap);
            assert(self@.stack =~= s.stack);
            if done {
                old(self)@.lemma_set_primitive(
                    object,
                    PrimitiveModel::Dictionary(
                        old(self)@.object(object).dictionary().unwrap().insert(key@, value),
                    ),
                );
            }
        }
        done
    }

    /// The text under the property `__name__` of `object`, if it has one.
    pub fn name_of(&self, object: ObjectRef) -> (r: Option<String>)
        requires
            self.wf(),
            self@.contains(object),
        ensures
            r is Some == self@.name_of(object) is Some,
            r is Some ==> r.unwrap()@ == self@.name_of(object).unwrap(),
    {
        match self.get_property(object, builtin::property::__name__) {
            Some(name) => match self.heap[name.id].string() {
                Some(text) => Some(text.clone()),
                None => None,
            },
            None => None,
        }
    }

    /// The name of `object` for diagnostics.
    pub fn display_name(&self, object: ObjectRef) -> (r: String)
        requires
            self.wf(),
            self@.contains(object),
        ensures
            r@ == self@.display_name(object),
    {
        match self.name_of(object) {
            Some(name) => name,
            None => DEFAULT_NAME.to_owned(),
        }
    }

    /// Marks the string table as swept. The object table owns every object,
    /// so no string object is ever gone and no entry leaves the table.
    pub fn cleanup_strings(&mut self)
        requires
            old(self).wf(),
        ensures
            final(self).wf(),
            final(self)@ == old(self)@.cleanup_strings(),
            old(self)@.grows_to(final(self)@),
    {
        self.string_count_marker = self.strings.len();
        proof {
            let s = old(self)@.cleanup_strings();
            assert(self@.heap =~= s.heap);
            assert(self@.stack =~= s.stack);
            old(self)@.lemma_with_strings(old(self)@.strings, s.string_count_marker);
        }
    }

    fn allocate_string(&mut self, value: String) -> (r: ObjectRef)
        requires
            old(self).wf(),
        ensures
            final(self).wf(),
            (final(self)@, r) == old(self)@.allocate_string(value@),
            old(self)@.grows_to(final(self)@),
            final(self)@.contains(r),
    {
        let r = self.create_object(self.builtins.String);
        self.set_primitive(r, Primitive::String(value.clone()));
        let ghost before = self@;
        self.strings.insert(value, r);
        proof {
            let s = RuntimeModel { strings: before.strings.insert(value@, r), ..before };
            assert(self@.heap =~= s.heap);
            assert(self@.stack =~= s.stack);
            before.lemma_with_strings(s.strings, before.string_count_marker);
        }
        if self.strings.len() >= self.string_count_marker && self.strings.len()
            - self.string_count_marker >= STRING_ALLOCATION_THRESHOLD {
            self.cleanup_strings();
        }
        r
    }

    /// The string object for `value`. Two calls with one text give the same
    /// object, as long as that object still holds the text.
    pub fn create_string(&mut self, value: &str) -> (r: ObjectRef)
        requires
            old(self).wf(),
        ensures
            final(self).wf(),
            (final(self)@, r) == old(self)@.create_string(value@),
            old(self)@.grows_to(final(self)@),
            final(self)@.contains(r),
            final(self)@.object(r).string() == Some(value@),
    {
        let owned = value.to_owned();
        let found = match self.strings.get(value) {
            Some(existing) => Some(*existing),
            None => None,
        };
        if let Some(existing) = found {
            if existing.id < self.heap.len() {
                if let Some(text) = self.heap[existing.id].string() {
                    if *text == owned {
                        return existing;
                    }
                }
            }
        }
        self.allocate_string(owned)
    }

    /// Binds `name` in the outermost frame.
    pub fn assign_global(&mut self, name: String, object: ObjectRef)
        requires
            old(self).wf(),
            old(self)@.contains(object),
        ensures
            final(self).wf(),
            final(self)@ == old(self)@.assign_global(name@, object),
            old(self)@.grows_to(final(self)@),
    {
        self.set_variable(0, name, object);
    }

    fn set_variable(&mut self, i: usize, name: String, object: ObjectRef)
        requires
            old(self).wf(),
            old(self)@.contains(object),
            i < old(self)@.stack.len(),
        ensures
            final(self).wf(),
            final(self)@ == old(self)@.set_variable(i as int, name@, object),
            old(self)@.grows_to(final(self)@),
    {
        self.stack[i].variables.insert(name, object);
        proof {
            let s = old(self)@.set_variable(i as int, name@, object);
            assert(self@.heap =~= s.heap);
            assert(self@.stack =~= s.stack);
            old(self)@.lemma_set_variable(i as int, name@, object);
        }
    }

    /// Binds `name` in the innermost frame.
    pub fn define_variable(&mut self, name: String, object: ObjectRef)
        requires
            old(self).wf(),
            old(self)@.contains(object),
        ensures
            final(self).wf(),
            final(self)@ == old(self)@.define_variable(name@, object),
            old(self)@.grows_to(final(self)@),
    {
        let top = self.stack.len() - 1;
        self.set_variable(top, name, object);
    }

    /// Overwrites `name` in the innermost frame that has it; where no frame
    /// has it, defines it in the innermost frame.
    pub fn assign_variable(&mut self, name: String, object: ObjectRef)
        requires
            old(self).wf(),
            old(self)@.contains(object),
        ensures
            final(self).wf(),
            final(self)@ == old(self)@.assign_variable(name@, object),
            old(self)@.grows_to(final(self)@),
    {
        let mut i = self.stack.len();
        while i > 0
            invariant
                self == old(self),
                self.wf(),
                self@.contains(object),
                i <= self.stack.len(),
                self@.frame_holding(name@, i - 1) == self@.frame_holding(
                    name@,
                    self@.stack.len() - 1,
                ),
            decreases i,
        {
            i = i - 1;
            proof {
                assert(self@.stack[i as int] == self.stack@[i as int]@);
            }
            if self.stack[i].variables.contains_key(name.as_str()) {
                self.set_variable(i, name, object);
                return ;
            }
        }
        self.define_variable(name, object);
    }

    /// Opens a new innermost frame.
    pub(crate) fn push_stack_frame(&mut self, frame: StackFrame)
        requires
            old(self).wf(),
            frame_ok(frame@, old(self)@.heap.len()),
        ensures
            final(self).wf(),
            final(self)@ == old(self)@.push_frame(frame@),
    {
        self.stack.push(frame);
        proof {
            let s = old(self)@.push_frame(frame@);
            assert(self@.heap =~= s.heap);
            assert(self@.stack =~= s.stack);
            old(self)@.lemma_push_frame(frame@);
        }
    }

    /// Closes the innermost frame.
    pub(crate) fn pop_stack_frame(&mut self)
        requires
            old(self).wf(),
            old(self)@.stack.len() >= 2,
        ensures
            final(self).wf(),
            final(self)@ == old(self)@.pop_frame(),
    {
        self.stack.pop();
        proof {
            let s = old(self)@.pop_frame();
            assert(self@.heap =~= s.heap);
            assert(self@.stack =~= s.stack);
            old(self)@.lemma_pop_frame();
        }
    }

    /// Makes the methods of `class` callable without a receiver in the
    /// innermost frame.
    pub(crate) fn open_class(&mut self, class: ObjectRef)
        requires
            old(self).wf(),
            old(self)@.contains(class),
        ensures
            final(self).wf(),
            final(self)@ == old(self)@.open_class(class),
            old(self)@.grows_to(final(self)@),
    {
        let top = self.stack.len() - 1;
        self.stack[top].open_classes.push(class);
        proof {
            let s = old(self)@.open_class(class);
            assert(self@.heap =~= s.heap);
            assert(self@.stack =~= s.stack);
            old(self)@.lemma_open_class(class);
        }
    }

    /// The receiver of the innermost frame that has one.
    pub fn current_instance(&self) -> (r: Option<ObjectRef>)
        requires
            self.wf(),
        ensures
            r == self@.current_instance(),
            r matches Some(instance) ==> self@.contains(instance),
    {
        let mut i = self.stack.len();
        while i > 0
            invariant
                i <= self.stack.len(),
                self.wf(),
                self@.nearest_instance(i - 1) == self@.current_instance(),
            decreases i,
        {
            i = i - 1;
            if let Some(instance) = self.stack[i].instance {
                proof {
                    assert(frame_ok(self@.stack[i as int], self@.heap.len()));
                }
                return Some(instance);
            }
        }
        None
    }

    /// The class of the innermost frame that has one.
    pub fn current_class(&self) -> (r: ObjectRef)
        requires
            self.wf(),
        ensures
            r == self@.current_class(),
            self@.contains(r),
    {
        let mut i = self.stack.len();
        while i > 1
            invariant
                1 <= i <= self.stack.len(),
                self.wf(),
                self@.nearest_class(i - 1) == self@.nearest_class(self@.stack.len() - 1),
            decreases i,
        {
            i = i - 1;
            if let Some(class) = self.stack[i].class {
                proof {
                    assert(frame_ok(self@.stack[i as int], self@.heap.len()));
                }
                return class;
            }
        }
        proof {
            assert(frame_ok(self@.stack[0], self@.heap.len()));
        }
        match self.stack[0].class {
            Some(class) => class,
            None => self.builtins.Main,
        }
    }

    /// The method `name` of `object`: the one in its own table, or else the
    /// one that its superclass resolves.
    pub fn resolve_method(&self, object: ObjectRef, name: &str) -> (r: Option<MethodRef>)
        requires
            self.wf(),
            self@.contains(object),
        ensures
            method_view(r) == self@.resolve_method(object, name@),
            r matches Some(method) ==> self@.contains(method.class),
    {
        proof {
            self@.lemma_resolve_method(object, name@);
        }
        let mut current = object;
        loop
            invariant
                self.wf(),
                self@.contains(current),
                self@.resolve_method(current, name@) == self@.resolve_method(object, name@),
            decreases current.id,
        {
            proof {
                assert(object_ok(self@.heap[current.id as int], current.id as int, self@.heap.len()));
            }
            if let Some(method) = self.heap[current.id].resolve_own_method(name) {
                return Some(method);
            }
            match self.heap[current.id].superclass {
                Some(parent) => {
                    current = parent;
                },
                None => {
                    return None;
                },
            }
        }
    }

    /// Adds a method to the own table of `object`. Fails if the table has a
    /// method of that name already; a method of a superclass may be
    /// shadowed.
    pub fn define_method(
        &mut self,
        object: ObjectRef,
        receiver: MethodReceiver,
        method_name: String,
        params: Vec<Param>,
        body: MethodBody,
    ) -> (r: Result<(), Error>)
        requires
            old(self).wf(),
            old(self)@.contains(object),
        ensures
            final(self).wf(),
            (final(self)@, unit_outcome(r)) == old(self)@.define_method(
                object,
                receiver,
                method_name@,
                params_view(params@),
                body,
            ),
            old(self)@.grows_to(final(self)@),
    {
        if self.heap[object.id].methods.contains_key(method_name.as_str()) {
            return Err(
                Error::DuplicateMethodDefinition {
                    class: self.display_name(object),
                    name: method_name,
                },
            );
        }
        let key = method_name.clone();
        self.heap[object.id].method_names.push(method_name.clone());
        let method = Method { name: method_name, class: object, receiver, params, body };
        self.heap[object.id].methods.insert(key, Rc::new(method));
        proof {
            let m = MethodModel {
                name: method_name@,
                class: object,
                params: params_view(params@),
                body,
                receiver,
            };
            let s = old(self)@.with_method(object, m);
            let before = old(self).heap@[object.id as int];
            let after = self.heap@[object.id as int];
            assert(after@.methods =~= before@.methods.insert(method_name@, m));
            lemma_names_push(before.method_names@, method_name);
            assert(before@.method_names + seq![method_name@] =~= before@.method_names.push(method_name@));
            assert(after@ == before@.with_method(m));
            assert(self@.heap =~= s.heap);
            assert(self@.stack =~= s.stack);
            old(self)@.lemma_with_method(object, m);
        }
        Ok(())
    }

    /// The constructor of `class`: its resolved `init`, or else one that
    /// takes any arguments and does nothing.
    pub fn get_init_method(&self, class: ObjectRef) -> (r: MethodRef)
        requires
            self.wf(),
            self@.contains(class),
        ensures
            match self@.resolve_method(class, builtin::method::init@) {
                Some(method) => r@ == method,
                None => r.name@ == builtin::method::init@ && r.class == class && r.params@.len() == 0
                    && r.body == MethodBody::System(SystemMethod::DefaultInit) && r.receiver
                    == MethodReceiver::Instance,
            },
            self@.contains(r.class),
    {
        match self.resolve_method(class, builtin::method::init) {
            Some(method) => method,
            None => Rc::new(
                Method {
                    name: builtin::method::init.to_owned(),
                    class,
                    params: Vec::new(),
                    body: MethodBody::System(SystemMethod::DefaultInit),
                    receiver: MethodReceiver::Instance,
                },
            ),
        }
    }

    /// Makes an object that stands for `method`.
    pub fn create_method_object(&mut self, method: MethodRef) -> (r: ObjectRef)
        requires
            old(self).wf(),
            old(self)@.contains(method.class),
        ensures
            final(self).wf(),
            (final(self)@, r) == old(self)@.create_method_object(method@),
            old(self)@.grows_to(final(self)@),
            final(self)@.contains(r),
    {
        let r = self.create_object(self.builtins.Method);
        self.set_property(r, builtin::property::__receiver__.to_owned(), method.class);
        let name = self.create_string(method.name.as_str());
        self.set_property(r, builtin::property::__name__.to_owned(), name);
        r
    }

    /// Resolves a variable. `self` is the receiver of the innermost frame
    /// that has one. Otherwise the frames are searched from the innermost
    /// outward: local variables in every frame, and of the receivers and of
    /// the classes only the innermost, by its properties and by its own
    /// methods; such a method is wrapped in a new method object.
    pub fn resolve_variable(&mut self, name: &str) -> (r: Option<ObjectRef>)
        requires
            old(self).wf(),
        ensures
            final(self).wf(),
            (final(self)@, r) == old(self)@.resolve_variable(name@),
            old(self)@.grows_to(final(self)@),
            r matches Some(value) ==> final(self)@.contains(value),
    {
        if same_text(name, builtin::SELF) {
            return self.current_instance();
        }
        let mut i = self.stack.len();
        let mut seen_instance = false;
        let mut seen_class = false;
        let mut found: Option<MethodRef> = None;
        while i > 0
            invariant_except_break
                found is None,
                self@.lookup(name@, i - 1, seen_instance, seen_class) == self@.lookup(
                    name@,
                    self@.stack.len() - 1,
                    false,
                    false,
                ),
            invariant
                self == old(self),
                self.wf(),
                i <= self.stack.len(),
                name@ != builtin::SELF@,
            ensures
                self == old(self),
                match found {
                    Some(method) => self@.lookup(name@, self@.stack.len() - 1, false, false)
                        == Lookup::Method(method@) && self@.contains(method.class),
                    None => self@.lookup(name@, self@.stack.len() - 1, false, false)
                        == Lookup::Missing,
                },
            decreases i,
        {
            i = i - 1;
            proof {
                assert(frame_ok(self@.stack[i as int], self@.heap.len()));
                assert(self@.stack[i as int] == self.stack@[i as int]@);
            }
            if let Some(value) = self.stack[i].variables.get(name) {
                proof {
                    assert(self@.stack[i as int].variables.contains_key(name@));
                    assert(self@.lookup(name@, i as int, seen_instance, seen_class) == Lookup::Value(
                        *value,
                    ));
                }
                return Some(*value);
            }
            if !seen_instance {
                if let Some(instance) = self.stack[i].instance {
                    seen_instance = true;
                    if let Some(value) = self.get_property(instance, name) {
                        return Some(value);
                    }
                }
            }
            if !seen_class {
                if let Some(class) = self.stack[i].class {
                    seen_class = true;
                    proof {
                        assert(object_ok(self@.heap[class.id as int], class.id as int, self@.heap.len()));
                    }
                    if let Some(method) = self.heap[class.id].resolve_own_method(name) {
                        found = Some(method);
                        break ;
                    }
                }
            }
        }
        match found {
            Some(method) => Some(self.create_method_object(method)),
            None => None,
        }
    }

    /// The runtime that holds the root class and nothing else.
    pub(crate) fn root() -> (r: Runtime)
        ensures
            r.wf(),
            r@ == RuntimeModel::root(),
    {
        let class = ObjectRef { id: 0 };
        let mut heap: Vec<Object> = Vec::new();
        heap.push(Object::new_of_class(class, class));
        let mut stack: Vec<StackFrame> = Vec::new();
        stack.push(StackFrame::of_class(class));
        let r = Runtime {
            heap,
            builtins: Builtins::all(class),
            stack,
            strings: StringHashMap::new(),
            string_count_marker: 0,
        };
        proof {
            let s = RuntimeModel::root();
            assert(r@.heap =~= s.heap);
            assert(r@.stack =~= s.stack);
            RuntimeModel::lemma_root();
        }
        r
    }

    pub(crate) fn set_builtins(&mut self, builtins: Builtins)
        requires
            old(self).wf(),
            builtins.ok(old(self)@.heap.len()),
        ensures
            final(self).wf(),
            final(self)@ == old(self)@.with_builtins(builtins),
            old(self)@.heap.len() == final(self)@.heap.len(),
    {
        self.builtins = builtins;
        proof {
            let s = old(self)@.with_builtins(builtins);
            assert(self@.heap =~= s.heap);
            assert(self@.stack =~= s.stack);
            old(self)@.lemma_with_builtins(builtins);
        }
    }

    pub(crate) fn set_superclass(&mut self, class: ObjectRef, superclass: Option<ObjectRef>)
        requires
            old(self).wf(),
            old(self)@.contains(class),
            superclass matches Some(parent) ==> parent.id < class.id,
        ensures
            final(self).wf(),
            final(self)@ == old(self)@.set_superclass(class, superclass),
            old(self)@.grows_to(final(self)@),
    {
        self.heap[class.id].superclass = superclass;
        proof {
            let s = old(self)@.set_superclass(class, superclass);
            assert(self@.heap =~= s.heap);
            assert(self@.stack =~= s.stack);
            old(self)@.lemma_set_superclass(class, superclass);
        }
    }

    pub(crate) fn set_main(&mut self, class: ObjectRef)
        requires
            old(self).wf(),
            old(self)@.contains(class),
        ensures
            final(self).wf(),
            final(self)@ == old(self)@.with_main(class),
            old(self)@.grows_to(final(self)@),
    {
        self.stack[0].class = Some(class);
        self.stack[0].open_classes.push(class);
        proof {
            let s = old(self)@.with_main(class);
            assert(self@.heap =~= s.heap);
            assert(self@.stack =~= s.stack);
            old(self)@.lemma_with_main(class);
        }
    }

    /// The open class that answers a call of `name` without a receiver:
    /// the first, from the last open class of the innermost frame backward
    /// and then through the frames outward, that resolves `name` to a
    /// method for class receivers.
    pub fn open_method(&self, name: &str) -> (r: Option<(ObjectRef, MethodRef)>)
        requires
            self.wf(),
        ensures
            match r {
                Some((class, method)) => self@.open_method(name@) == Some((class, method@))
                    && self@.contains(class) && self@.contains(method.class),
                None => self@.open_method(name@) is None,
            },
    {
        let mut i = self.stack.len();
        while i > 0
            invariant
                self.wf(),
                i <= self.stack.len(),
                i > 0 ==> self@.find_open_method(
                    name@,
                    i - 1,
                    self@.stack[i - 1].open_classes.len() - 1,
                ) == self@.open_method(name@),
                i == 0 ==> self@.open_method(name@) is None,
            decreases i,
        {
            i = i - 1;
            proof {
                assert(self@.stack[i as int] == self.stack@[i as int]@);
                assert(frame_ok(self@.stack[i as int], self@.heap.len()));
            }
            let mut j = self.stack[i].open_classes.len();
            while j > 0
                invariant
                    self.wf(),
                    i < self.stack.len(),
                    j <= self.stack[i as int].open_classes.len(),
                    self@.stack[i as int] == self.stack@[i as int]@,
                    frame_ok(self@.stack[i as int], self@.heap.len()),
                    self@.find_open_method(name@, i as int, j - 1) == self@.open_method(name@),
                decreases j,
            {
                j = j - 1;
                let class = self.stack[i].open_classes[j];
                if let Some(method) = self.resolve_method(class, name) {
                    if method.receiver == MethodReceiver::Class {
                        return Some((class, method));
                    }
                }
            }
        }
        None
    }

    /// Makes a new class and binds it to its name in the outermost frame.
    pub fn create_class(&mut self, name: String, superclass: Option<ObjectRef>) -> (r: ObjectRef)
        requires
            old(self).wf(),
            superclass matches Some(parent) ==> old(self)@.contains(parent),
        ensures
            final(self).wf(),
            (final(self)@, r) == old(self)@.create_class(name@, superclass),
            old(self)@.grows_to(final(self)@),
            final(self)@.contains(r),
    {
        let class = self.create_object(self.builtins.Class);
        self.set_superclass(class, superclass);
        let name_object = self.create_string(name.as_str());
        self.set_property(class, builtin::property::__name__.to_owned(), name_object);
        self.assign_global(name, class);
        class
    }

    /// Makes a new class whose superclass is `Object`.
    pub fn create_simple_class(&mut self, name: String) -> (r: ObjectRef)
        requires
            old(self).wf(),
        ensures
            final(self).wf(),
            (final(self)@, r) == old(self)@.create_simple_class(name@),
            old(self)@.grows_to(final(self)@),
            final(self)@.contains(r),
    {
        self.create_class(name, Some(self.builtins.Object))
    }
}

} // verus!
