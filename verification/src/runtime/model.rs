//! The mathematical model of the runtime's state: what the object table, the
//! scope stack and the string table hold, and what each operation of the
//! runtime does to them.

use crate::runtime::bootstrap::Builtins;
use crate::runtime::builtin;
use crate::runtime::error::ErrorModel;
use crate::runtime::object::{
    MethodBody, MethodModel, MethodReceiver, ObjectModel, ObjectRef, ParamModel, PrimitiveModel,
    DEFAULT_NAME,
};
use crate::runtime::STRING_ALLOCATION_THRESHOLD;
use crate::runtime::table::TableModel;
use vstd::prelude::*;

verus! {

/// What a stack frame holds.
pub ghost struct FrameModel {
    pub instance: Option<ObjectRef>,
    pub class: Option<ObjectRef>,
    pub open_classes: Seq<ObjectRef>,
    pub variables: Map<Seq<char>, ObjectRef>,
}

impl FrameModel {
    /// A frame with nothing in it.
    pub open spec fn empty() -> FrameModel {
        FrameModel { instance: None, class: None, open_classes: Seq::empty(), variables: Map::empty() }
    }

    /// The frame of a class body.
    pub open spec fn of_class(class: ObjectRef) -> FrameModel {
        FrameModel { class: Some(class), ..FrameModel::empty() }
    }

    /// The frame of a method call.
    pub open spec fn of_call(instance: ObjectRef, variables: Map<Seq<char>, ObjectRef>) -> FrameModel {
        FrameModel { instance: Some(instance), variables, ..FrameModel::empty() }
    }
}

/// What the runtime holds.
pub ghost struct RuntimeModel {
    /// The object table. An [`ObjectRef`] names the object at its `id`.
    pub heap: Seq<ObjectModel>,
    pub builtins: Builtins,
    /// The scope stack, outermost frame first.
    pub stack: Seq<FrameModel>,
    /// The string table: for each text, the string object made for it.
    pub strings: Map<Seq<char>, ObjectRef>,
    /// How many texts the string table held when it was last swept.
    pub string_count_marker: nat,
}

/// The map that a list of entries describes: of two entries with one key,
/// the later one counts.
pub open spec fn entries_map(entries: Seq<(Seq<char>, ObjectRef)>) -> Map<Seq<char>, ObjectRef>
    decreases entries.len(),
{
    if entries.len() == 0 {
        Map::empty()
    } else {
        entries_map(entries.drop_last()).insert(entries.last().0, entries.last().1)
    }
}

/// Every value of a list of entries names an object of a table of `n`
/// objects.
pub open spec fn entries_ok(entries: Seq<(Seq<char>, ObjectRef)>, n: nat) -> bool {
    forall|i: int| 0 <= i < entries.len() ==> ref_ok((#[trigger] entries[i]).1, n)
}

/// The table of entries whose values name objects holds values that name
/// objects.
pub proof fn lemma_of_entries_ok(entries: Seq<(Seq<char>, ObjectRef)>, n: nat)
    requires
        entries_ok(entries, n),
    ensures
        map_ok(TableModel::of_entries(entries).entries, n),
    decreases entries.len(),
{
    if entries.len() > 0 {
        lemma_of_entries_ok(entries.drop_last(), n);
    }
}

/// The map of entries whose values name objects holds values that name
/// objects.
pub proof fn lemma_entries_map_ok(entries: Seq<(Seq<char>, ObjectRef)>, n: nat)
    requires
        entries_ok(entries, n),
    ensures
        map_ok(entries_map(entries), n),
    decreases entries.len(),
{
    if entries.len() > 0 {
        lemma_entries_map_ok(entries.drop_last(), n);
    }
}

/// What a variable lookup on the scope stack finds.
pub ghost enum Lookup {
    Value(ObjectRef),
    Method(MethodModel),
    Missing,
}

/// The reference names an object of a table of `n` objects.
pub open spec fn ref_ok(r: ObjectRef, n: nat) -> bool {
    r.id < n
}

/// The reference, if there is one, names an object of a table of `n`
/// objects.
pub open spec fn opt_ok(r: Option<ObjectRef>, n: nat) -> bool {
    r matches Some(x) ==> ref_ok(x, n)
}

/// Every reference of the list names an object of a table of `n` objects.
pub open spec fn seq_ok(s: Seq<ObjectRef>, n: nat) -> bool {
    forall|i: int| 0 <= i < s.len() ==> ref_ok(#[trigger] s[i], n)
}

/// Every value of the map names an object of a table of `n` objects.
pub open spec fn map_ok(m: Map<Seq<char>, ObjectRef>, n: nat) -> bool {
    forall|k: Seq<char>| m.contains_key(k) ==> ref_ok(#[trigger] m[k], n)
}

/// The class of every method names an object of a table of `n` objects.
pub open spec fn methods_ok(m: Map<Seq<char>, MethodModel>, n: nat) -> bool {
    forall|k: Seq<char>| m.contains_key(k) ==> ref_ok((#[trigger] m[k]).class, n)
}

/// Every reference in the payload names an object of a table of `n`
/// objects.
pub open spec fn primitive_ok(p: Option<PrimitiveModel>, n: nat) -> bool {
    match p {
        Some(PrimitiveModel::Array(items)) => seq_ok(items, n),
        Some(PrimitiveModel::Dictionary(table)) => map_ok(table.entries, n),
        _ => true,
    }
}

/// The object at place `i` of a table of `n` objects is well formed: it
/// knows its own place, it has a class, its superclass stands before it, and
/// every reference in it names an object of the table.
pub open spec fn object_ok(o: ObjectModel, i: int, n: nat) -> bool {
    &&& o.weak_self.id == i
    &&& object_refs_ok(o, i, n)
}

/// The object has a class, its superclass stands before place `i`, and
/// every reference in it names an object of a table of `n` objects.
pub open spec fn object_refs_ok(o: ObjectModel, i: int, n: nat) -> bool {
    &&& o.class is Some
    &&& opt_ok(o.class, n)
    &&& (o.superclass matches Some(parent) ==> parent.id < i)
    &&& map_ok(o.properties, n)
    &&& methods_ok(o.methods, n)
    &&& primitive_ok(o.primitive, n)
}

/// Every reference in the frame names an object of a table of `n` objects.
pub open spec fn frame_ok(f: FrameModel, n: nat) -> bool {
    &&& opt_ok(f.instance, n)
    &&& opt_ok(f.class, n)
    &&& seq_ok(f.open_classes, n)
    &&& map_ok(f.variables, n)
}

impl RuntimeModel {
    /// `r` names an object of the table.
    pub open spec fn contains(self, r: ObjectRef) -> bool {
        ref_ok(r, self.heap.len())
    }

    /// Every one of `refs` names an object of the table.
    pub open spec fn contains_all(self, refs: Seq<ObjectRef>) -> bool {
        seq_ok(refs, self.heap.len())
    }

    /// The state is well formed: every object and every frame is, the
    /// built-ins and the string table name objects of the table, and the
    /// outermost frame is there and has a class.
    pub open spec fn wf(self) -> bool {
        &&& self.heap.len() <= usize::MAX
        &&& forall|i: int| 0 <= i < self.heap.len() ==> object_ok(#[trigger] self.heap[i], i, self.heap.len())
        &&& self.stack.len() >= 1
        &&& forall|i: int| 0 <= i < self.stack.len() ==> frame_ok(#[trigger] self.stack[i], self.heap.len())
        &&& self.stack[0].class is Some
        &&& self.builtins.ok(self.heap.len())
        &&& map_ok(self.strings, self.heap.len())
    }

    /// `next` has every object that `self` has, the same built-ins and as
    /// many stack frames. Every operation of the runtime that a host can
    /// reach leads to such a state.
    pub open spec fn grows_to(self, next: RuntimeModel) -> bool {
        &&& self.heap.len() <= next.heap.len()
        &&& self.stack.len() == next.stack.len()
        &&& self.builtins == next.builtins
    }

    /// The object that `r` names.
    pub open spec fn object(self, r: ObjectRef) -> ObjectModel {
        self.heap[r.id as int]
    }

    /// The state with the object at `r` replaced.
    pub open spec fn with_object(self, r: ObjectRef, o: ObjectModel) -> RuntimeModel {
        RuntimeModel { heap: self.heap.update(r.id as int, o), ..self }
    }

    /// The reference that the next new object gets.
    pub open spec fn next_ref(self) -> ObjectRef {
        ObjectRef { id: self.heap.len() as usize }
    }

    /// The class of the object that `r` names.
    pub open spec fn class_of(self, r: ObjectRef) -> ObjectRef {
        self.object(r).class.unwrap()
    }

    /// `r` is a class: an instance of the root class `Class`.
    pub open spec fn is_class(self, r: ObjectRef) -> bool {
        self.class_of(r) == self.builtins.Class
    }

    /// The text of the string object under the property `__name__` of `r`.
    pub open spec fn name_of(self, r: ObjectRef) -> Option<Seq<char>> {
        match self.object(r).get_property(builtin::property::__name__@) {
            Some(name) => self.object(name).string(),
            None => None,
        }
    }

    /// The name of `r` for diagnostics.
    pub open spec fn display_name(self, r: ObjectRef) -> Seq<char> {
        match self.name_of(r) {
            Some(name) => name,
            None => DEFAULT_NAME@,
        }
    }

    /// The falsy objects are `false` and `nil`.
    pub open spec fn is_falsy(self, r: ObjectRef) -> bool {
        r == self.builtins.bool_false || r == self.builtins.nil
    }

    /// Every object that is not falsy is truthy.
    pub open spec fn is_truthy(self, r: ObjectRef) -> bool {
        !self.is_falsy(r)
    }

    /// The state with a new object at the end of the table.
    pub open spec fn adopt(self, object: ObjectModel) -> RuntimeModel {
        RuntimeModel {
            heap: self.heap.push(ObjectModel { weak_self: self.next_ref(), ..object }),
            ..self
        }
    }

    /// A new instance of `class`, with the class also under its property
    /// `__class__`.
    pub open spec fn create_object(self, class: ObjectRef) -> (RuntimeModel, ObjectRef) {
        let r = self.next_ref();
        let o = ObjectModel::of_class(r, class).set_property(builtin::property::__class__@, class);
        (RuntimeModel { heap: self.heap.push(o), ..self }, r)
    }

    /// The state with `value` as the own property `name` of `r`.
    pub open spec fn set_property(self, r: ObjectRef, name: Seq<char>, value: ObjectRef) -> RuntimeModel {
        self.with_object(r, self.object(r).set_property(name, value))
    }

    /// The state with `primitive` as the payload of `r`.
    pub open spec fn set_primitive(self, r: ObjectRef, primitive: PrimitiveModel) -> RuntimeModel {
        self.with_object(r, self.object(r).set_primitive(primitive))
    }

    /// A new instance of `class` that holds `primitive`.
    pub open spec fn create_with_primitive(self, class: ObjectRef, primitive: PrimitiveModel) -> (
        RuntimeModel,
        ObjectRef,
    ) {
        let (s, r) = self.create_object(class);
        (s.set_primitive(r, primitive), r)
    }

    /// Adds `element` to the end of the list that `r` holds, if it holds
    /// one.
    pub open spec fn array_push(self, r: ObjectRef, element: ObjectRef) -> (RuntimeModel, bool) {
        match self.object(r).array() {
            Some(items) => (self.set_primitive(
                r,
                PrimitiveModel::Array(items.push(element)),
            ), true),
            None => (self, false),
        }
    }

    /// Takes the last item off the list that `r` holds, if it holds one
    /// that is not empty.
    pub open spec fn array_pop(self, r: ObjectRef) -> (RuntimeModel, Option<ObjectRef>) {
        match self.object(r).array() {
            Some(items) => if items.len() > 0 {
                (self.set_primitive(
                    r,
                    PrimitiveModel::Array(items.drop_last()),
                ), Some(items.last()))
            } else {
                (self, None)
            },
            None => (self, None),
        }
    }

    /// Stores `value` under `key` in the dictionary that `r` holds, if it
    /// holds one.
    pub open spec fn dictionary_insert(self, r: ObjectRef, key: Seq<char>, value: ObjectRef) -> (
        RuntimeModel,
        bool,
    ) {
        match self.object(r).dictionary() {
            Some(entries) => (
                self.set_primitive(r, PrimitiveModel::Dictionary(entries.insert(key, value))),
                true,
            ),
            None => (self, false),
        }
    }

    /// The one object that stands for `value`.
    pub open spec fn create_bool(self, value: bool) -> ObjectRef {
        if value {
            self.builtins.bool_true
        } else {
            self.builtins.bool_false
        }
    }

    /// A new number.
    pub open spec fn create_number(self, value: u64) -> (RuntimeModel, ObjectRef) {
        self.create_with_primitive(self.builtins.Number, PrimitiveModel::Number(value))
    }

    /// A new list of these items.
    pub open spec fn create_array(self, elements: Seq<ObjectRef>) -> (RuntimeModel, ObjectRef) {
        self.create_with_primitive(self.builtins.Array, PrimitiveModel::Array(elements))
    }

    /// A new tuple of these items.
    pub open spec fn create_tuple(self, items: Seq<ObjectRef>) -> (RuntimeModel, ObjectRef) {
        self.create_with_primitive(self.builtins.Tuple, PrimitiveModel::Array(items))
    }

    /// A new dictionary of these entries, entered in order.
    pub open spec fn create_dictionary(self, entries: Seq<(Seq<char>, ObjectRef)>) -> (
        RuntimeModel,
        ObjectRef,
    ) {
        self.create_with_primitive(
            self.builtins.Dictionary,
            PrimitiveModel::Dictionary(TableModel::of_entries(entries)),
        )
    }

    /// The state that holds the root class and nothing else. The root class
    /// is its own class; it stands for every built-in and is the class of
    /// the one stack frame, until the bootstrap has made the others.
    pub open spec fn root() -> RuntimeModel {
        let class = ObjectRef { id: 0 };
        RuntimeModel {
            heap: seq![ObjectModel::of_class(class, class)],
            builtins: Builtins::all(class),
            stack: seq![FrameModel::of_class(class)],
            strings: Map::empty(),
            string_count_marker: 0,
        }
    }

    /// The state with these built-ins.
    pub open spec fn with_builtins(self, builtins: Builtins) -> RuntimeModel {
        RuntimeModel { builtins, ..self }
    }

    /// The state with `superclass` as the superclass of `r`.
    pub open spec fn set_superclass(self, r: ObjectRef, superclass: Option<ObjectRef>) -> RuntimeModel {
        self.with_object(r, ObjectModel { superclass, ..self.object(r) })
    }

    /// The state in which `class` is the class of the outermost frame and
    /// the last of its open classes.
    pub open spec fn with_main(self, class: ObjectRef) -> RuntimeModel {
        RuntimeModel {
            stack: self.stack.update(
                0,
                FrameModel {
                    class: Some(class),
                    open_classes: self.stack[0].open_classes.push(class),
                    ..self.stack[0]
                },
            ),
            ..self
        }
    }

    /// The string table counts as swept now.
    pub open spec fn cleanup_strings(self) -> RuntimeModel {
        RuntimeModel { string_count_marker: self.strings.len(), ..self }
    }

    /// A new string object for `value`, entered in the string table. The
    /// table is swept when it has grown by the threshold since the last
    /// sweep.
    pub open spec fn allocate_string(self, value: Seq<char>) -> (RuntimeModel, ObjectRef) {
        let (s, r) = self.create_with_primitive(
            self.builtins.String,
            PrimitiveModel::String(value),
        );
        let s = RuntimeModel { strings: s.strings.insert(value, r), ..s };
        if s.strings.len() >= s.string_count_marker + STRING_ALLOCATION_THRESHOLD {
            (s.cleanup_strings(), r)
        } else {
            (s, r)
        }
    }

    /// The string object that the table holds for `value`, if it still
    /// holds that text.
    pub open spec fn interned(self, value: Seq<char>) -> Option<ObjectRef> {
        if self.strings.contains_key(value) && self.contains(self.strings[value]) && self.object(
            self.strings[value],
        ).string() == Some(value) {
            Some(self.strings[value])
        } else {
            None
        }
    }

    /// The string object for `value`: the one that the string table holds
    /// for it, or else a new one.
    pub open spec fn create_string(self, value: Seq<char>) -> (RuntimeModel, ObjectRef) {
        match self.interned(value) {
            Some(r) => (self, r),
            None => self.allocate_string(value),
        }
    }

    /// The state with variable `name` of frame `i` bound to `value`.
    pub open spec fn set_variable(self, i: int, name: Seq<char>, value: ObjectRef) -> RuntimeModel {
        RuntimeModel {
            stack: self.stack.update(
                i,
                FrameModel { variables: self.stack[i].variables.insert(
                    name,
                    value,
                ), ..self.stack[i] },
            ),
            ..self
        }
    }

    /// The state with `name` bound to `value` in the outermost frame.
    pub open spec fn assign_global(self, name: Seq<char>, value: ObjectRef) -> RuntimeModel {
        self.set_variable(0, name, value)
    }

    /// The state with `name` bound to `value` in the innermost frame.
    pub open spec fn define_variable(self, name: Seq<char>, value: ObjectRef) -> RuntimeModel {
        self.set_variable(self.stack.len() - 1, name, value)
    }

    /// The innermost frame, from frame `i` outward, that has a variable
    /// `name`.
    pub open spec fn frame_holding(self, name: Seq<char>, i: int) -> Option<int>
        decreases i + 1,
    {
        if i < 0 {
            None
        } else if self.stack[i].variables.contains_key(name) {
            Some(i)
        } else {
            self.frame_holding(name, i - 1)
        }
    }

    /// Overwrites the variable in the innermost frame that has it; where no
    /// frame has it, defines it in the innermost frame.
    pub open spec fn assign_variable(self, name: Seq<char>, value: ObjectRef) -> RuntimeModel {
        match self.frame_holding(name, self.stack.len() - 1) {
            Some(i) => self.set_variable(i, name, value),
            None => self.define_variable(name, value),
        }
    }

    /// The state with `frame` as a new innermost frame.
    pub open spec fn push_frame(self, frame: FrameModel) -> RuntimeModel {
        RuntimeModel { stack: self.stack.push(frame), ..self }
    }

    /// The state without its innermost frame.
    pub open spec fn pop_frame(self) -> RuntimeModel {
        RuntimeModel { stack: self.stack.drop_last(), ..self }
    }

    /// The state with `class` added to the open classes of the innermost
    /// frame.
    pub open spec fn open_class(self, class: ObjectRef) -> RuntimeModel {
        let i = self.stack.len() - 1;
        RuntimeModel {
            stack: self.stack.update(
                i,
                FrameModel { open_classes: self.stack[i].open_classes.push(
                    class,
                ), ..self.stack[i] },
            ),
            ..self
        }
    }

    /// The receiver of the innermost frame, from frame `i` outward, that
    /// has one.
    pub open spec fn nearest_instance(self, i: int) -> Option<ObjectRef>
        decreases i + 1,
    {
        if i < 0 {
            None
        } else if self.stack[i].instance is Some {
            self.stack[i].instance
        } else {
            self.nearest_instance(i - 1)
        }
    }

    /// The class of the innermost frame, from frame `i` outward, that has
    /// one.
    pub open spec fn nearest_class(self, i: int) -> Option<ObjectRef>
        decreases i + 1,
    {
        if i < 0 {
            None
        } else if self.stack[i].class is Some {
            self.stack[i].class
        } else {
            self.nearest_class(i - 1)
        }
    }

    /// The receiver of the innermost frame that has one.
    pub open spec fn current_instance(self) -> Option<ObjectRef> {
        self.nearest_instance(self.stack.len() - 1)
    }

    /// The class of the innermost frame that has one.
    pub open spec fn current_class(self) -> ObjectRef {
        self.nearest_class(self.stack.len() - 1).unwrap()
    }

    /// The method `name` of `r`: the one in its own table, or else the one
    /// that its superclass resolves.
    pub open spec fn resolve_method(self, r: ObjectRef, name: Seq<char>) -> Option<MethodModel>
        decreases r.id,
    {
        match self.object(r).own_method(name) {
            Some(method) => Some(method),
            None => match self.object(r).superclass {
                Some(parent) => if parent.id < r.id {
                    self.resolve_method(parent, name)
                } else {
                    None
                },
                None => None,
            },
        }
    }

    /// What the scope stack holds under `name`, from frame `i` outward. The
    /// local variables of every frame count; of the receivers and of the
    /// classes only the innermost, by its properties and by its own methods.
    pub open spec fn lookup(
        self,
        name: Seq<char>,
        i: int,
        seen_instance: bool,
        seen_class: bool,
    ) -> Lookup
        decreases i + 1,
    {
        if i < 0 {
            Lookup::Missing
        } else {
            let frame = self.stack[i];
            let property = if !seen_instance && frame.instance is Some {
                self.object(frame.instance.unwrap()).get_property(name)
            } else {
                None
            };
            let method = if !seen_class && frame.class is Some {
                self.object(frame.class.unwrap()).own_method(name)
            } else {
                None
            };
            if frame.variables.contains_key(name) {
                Lookup::Value(frame.variables[name])
            } else if property is Some {
                Lookup::Value(property.unwrap())
            } else if method is Some {
                Lookup::Method(method.unwrap())
            } else {
                self.lookup(
                    name,
                    i - 1,
                    seen_instance || frame.instance is Some,
                    seen_class || frame.class is Some,
                )
            }
        }
    }

    /// An object that stands for `method`: an instance of `Method` with the
    /// method's class and name as properties.
    pub open spec fn create_method_object(self, method: MethodModel) -> (RuntimeModel, ObjectRef) {
        let (s, r) = self.create_object(self.builtins.Method);
        let s = s.set_property(r, builtin::property::__receiver__@, method.class);
        let (s, name) = s.create_string(method.name);
        (s.set_property(r, builtin::property::__name__@, name), r)
    }

    /// Resolves a variable. `self` is the receiver of the innermost frame
    /// that has one; a method of the innermost class is wrapped in a new
    /// method object.
    pub open spec fn resolve_variable(self, name: Seq<char>) -> (RuntimeModel, Option<ObjectRef>) {
        if name == builtin::SELF@ {
            (self, self.current_instance())
        } else {
            match self.lookup(name, self.stack.len() - 1, false, false) {
                Lookup::Value(value) => (self, Some(value)),
                Lookup::Method(method) => {
                    let (s, r) = self.create_method_object(method);
                    (s, Some(r))
                },
                Lookup::Missing => (self, None),
            }
        }
    }

    /// A new class named `name`, bound to that name in the outermost frame.
    pub open spec fn create_class(self, name: Seq<char>, superclass: Option<ObjectRef>) -> (
        RuntimeModel,
        ObjectRef,
    ) {
        let (s, r) = self.create_object(self.builtins.Class);
        let s = s.set_superclass(r, superclass);
        let (s, name_object) = s.create_string(name);
        let s = s.set_property(r, builtin::property::__name__@, name_object);
        (s.assign_global(name, r), r)
    }

    /// A new class named `name` whose superclass is `Object`.
    pub open spec fn create_simple_class(self, name: Seq<char>) -> (RuntimeModel, ObjectRef) {
        self.create_class(name, Some(self.builtins.Object))
    }

    /// Adds a method to the own table of `r`, unless that table has a
    /// method of that name already.
    pub open spec fn define_method(
        self,
        r: ObjectRef,
        receiver: MethodReceiver,
        name: Seq<char>,
        params: Seq<ParamModel>,
        body: MethodBody,
    ) -> (RuntimeModel, Result<(), ErrorModel>) {
        if self.object(r).methods.contains_key(name) {
            (
                self,
                Err(ErrorModel::DuplicateMethodDefinition { class: self.display_name(r), name }),
            )
        } else {
            (self.with_method(r, MethodModel { name, class: r, params, body, receiver }), Ok(()))
        }
    }

    /// The state with `method` in the own table of `r`.
    pub open spec fn with_method(self, r: ObjectRef, method: MethodModel) -> RuntimeModel {
        self.with_object(r, self.object(r).with_method(method))
    }

    /// A well-formed state stays well formed when its table grows by a
    /// well-formed object.
    pub proof fn lemma_push(self, o: ObjectModel)
        requires
            self.wf(),
            self.heap.len() < usize::MAX,
            object_ok(o, self.heap.len() as int, self.heap.len() + 1),
        ensures
            (RuntimeModel { heap: self.heap.push(o), ..self }).wf(),
    {
        let next = RuntimeModel { heap: self.heap.push(o), ..self };
        assert forall|i: int| 0 <= i < next.heap.len() implies object_ok(
            #[trigger] next.heap[i],
            i,
            next.heap.len(),
        ) by {
            if i < self.heap.len() {
                assert(object_ok(self.heap[i], i, self.heap.len()));
            }
        }
        assert forall|i: int| 0 <= i < next.stack.len() implies frame_ok(
            #[trigger] next.stack[i],
            next.heap.len(),
        ) by {
            assert(frame_ok(self.stack[i], self.heap.len()));
        }
    }

    /// A well-formed state stays well formed when one object is replaced by
    /// a well-formed one.
    pub proof fn lemma_with_object(self, r: ObjectRef, o: ObjectModel)
        requires
            self.wf(),
            self.contains(r),
            object_ok(o, r.id as int, self.heap.len()),
        ensures
            self.with_object(r, o).wf(),
    {
        let next = self.with_object(r, o);
        assert forall|i: int| 0 <= i < next.heap.len() implies object_ok(
            #[trigger] next.heap[i],
            i,
            next.heap.len(),
        ) by {
            if i != r.id {
                assert(object_ok(self.heap[i], i, self.heap.len()));
            }
        }
        assert forall|i: int| 0 <= i < next.stack.len() implies frame_ok(
            #[trigger] next.stack[i],
            next.heap.len(),
        ) by {
            assert(frame_ok(self.stack[i], self.heap.len()));
        }
    }

    /// A well-formed state stays well formed when an object is created.
    pub proof fn lemma_create_object(self, class: ObjectRef)
        requires
            self.wf(),
            self.contains(class),
            self.heap.len() < usize::MAX,
        ensures
            self.create_object(class).0.wf(),
    {
        let r = self.next_ref();
        let o = ObjectModel::of_class(r, class).set_property(builtin::property::__class__@, class);
        self.lemma_push(o);
    }

    /// A well-formed state stays well formed when a property is set to an
    /// object of the table.
    pub proof fn lemma_set_property(self, r: ObjectRef, name: Seq<char>, value: ObjectRef)
        requires
            self.wf(),
            self.contains(r),
            self.contains(value),
        ensures
            self.set_property(r, name, value).wf(),
    {
        assert(object_ok(self.heap[r.id as int], r.id as int, self.heap.len()));
        self.lemma_with_object(r, self.object(r).set_property(name, value));
    }

    /// In a well-formed state every object of the table is well formed.
    pub proof fn lemma_object_ok(self, r: ObjectRef)
        requires
            self.wf(),
            self.contains(r),
        ensures
            object_ok(self.object(r), r.id as int, self.heap.len()),
    {
    }

    /// The state that holds the root class and nothing else is well formed.
    pub proof fn lemma_root()
        ensures
            RuntimeModel::root().wf(),
    {
        let s = RuntimeModel::root();
        assert(s.heap.len() == 1);
        assert(s.stack.len() == 1);
    }

    /// A well-formed state stays well formed when its built-ins are replaced by
    /// objects of the table.
    pub proof fn lemma_with_builtins(self, builtins: Builtins)
        requires
            self.wf(),
            builtins.ok(self.heap.len()),
        ensures
            self.with_builtins(builtins).wf(),
    {
        let next = self.with_builtins(builtins);
        assert forall|j: int| 0 <= j < next.heap.len() implies object_ok(
            #[trigger] next.heap[j],
            j,
            next.heap.len(),
        ) by {
            assert(object_ok(self.heap[j], j, self.heap.len()));
        }
        assert forall|j: int| 0 <= j < next.stack.len() implies frame_ok(
            #[trigger] next.stack[j],
            next.heap.len(),
        ) by {
            assert(frame_ok(self.stack[j], self.heap.len()));
        }
    }

    /// A well-formed state stays well formed when a class gets a superclass
    /// that stands before it.
    pub proof fn lemma_set_superclass(self, r: ObjectRef, superclass: Option<ObjectRef>)
        requires
            self.wf(),
            self.contains(r),
            superclass matches Some(parent) ==> parent.id < r.id,
        ensures
            self.set_superclass(r, superclass).wf(),
    {
        assert(object_ok(self.heap[r.id as int], r.id as int, self.heap.len()));
        self.lemma_with_object(r, ObjectModel { superclass, ..self.object(r) });
    }

    /// A well-formed state stays well formed when the outermost frame gets a
    /// class of the table.
    pub proof fn lemma_with_main(self, class: ObjectRef)
        requires
            self.wf(),
            self.contains(class),
        ensures
            self.with_main(class).wf(),
    {
        let next = self.with_main(class);
        assert(frame_ok(self.stack[0], self.heap.len()));
        assert forall|j: int| 0 <= j < next.heap.len() implies object_ok(
            #[trigger] next.heap[j],
            j,
            next.heap.len(),
        ) by {
            assert(object_ok(self.heap[j], j, self.heap.len()));
        }
        assert forall|j: int| 0 <= j < next.stack.len() implies frame_ok(
            #[trigger] next.stack[j],
            next.heap.len(),
        ) by {
            assert(frame_ok(self.stack[j], self.heap.len()));
        }
    }

    /// A well-formed state stays well formed when a variable is bound to an
    /// object of the table.
    pub proof fn lemma_set_variable(self, i: int, name: Seq<char>, value: ObjectRef)
        requires
            self.wf(),
            0 <= i < self.stack.len(),
            self.contains(value),
        ensures
            self.set_variable(i, name, value).wf(),
    {
        let next = self.set_variable(i, name, value);
        assert(frame_ok(self.stack[i], self.heap.len()));
        assert forall|j: int| 0 <= j < next.heap.len() implies object_ok(
            #[trigger] next.heap[j],
            j,
            next.heap.len(),
        ) by {
            assert(object_ok(self.heap[j], j, self.heap.len()));
        }
        assert forall|j: int| 0 <= j < next.stack.len() implies frame_ok(
            #[trigger] next.stack[j],
            next.heap.len(),
        ) by {
            assert(frame_ok(self.stack[j], self.heap.len()));
        }
    }

    /// A well-formed state stays well formed when a well-formed frame is
    /// pushed.
    pub proof fn lemma_push_frame(self, frame: FrameModel)
        requires
            self.wf(),
            frame_ok(frame, self.heap.len()),
        ensures
            self.push_frame(frame).wf(),
    {
        let next = self.push_frame(frame);
        assert forall|j: int| 0 <= j < next.heap.len() implies object_ok(
            #[trigger] next.heap[j],
            j,
            next.heap.len(),
        ) by {
            assert(object_ok(self.heap[j], j, self.heap.len()));
        }
        assert forall|j: int| 0 <= j < next.stack.len() implies frame_ok(
            #[trigger] next.stack[j],
            next.heap.len(),
        ) by {
            if j < self.stack.len() {
                assert(frame_ok(self.stack[j], self.heap.len()));
            }
        }
    }

    /// A well-formed state stays well formed when a frame that is not the
    /// outermost is popped.
    pub proof fn lemma_pop_frame(self)
        requires
            self.wf(),
            self.stack.len() >= 2,
        ensures
            self.pop_frame().wf(),
    {
        let next = self.pop_frame();
        assert forall|j: int| 0 <= j < next.heap.len() implies object_ok(
            #[trigger] next.heap[j],
            j,
            next.heap.len(),
        ) by {
            assert(object_ok(self.heap[j], j, self.heap.len()));
        }
        assert forall|j: int| 0 <= j < next.stack.len() implies frame_ok(
            #[trigger] next.stack[j],
            next.heap.len(),
        ) by {
            assert(frame_ok(self.stack[j], self.heap.len()));
        }
    }

    /// A well-formed state stays well formed when a class of the table is
    /// opened.
    pub proof fn lemma_open_class(self, class: ObjectRef)
        requires
            self.wf(),
            self.contains(class),
        ensures
            self.open_class(class).wf(),
    {
        let next = self.open_class(class);
        let i = self.stack.len() - 1;
        assert(frame_ok(self.stack[i], self.heap.len()));
        assert forall|j: int| 0 <= j < next.heap.len() implies object_ok(
            #[trigger] next.heap[j],
            j,
            next.heap.len(),
        ) by {
            assert(object_ok(self.heap[j], j, self.heap.len()));
        }
        assert forall|j: int| 0 <= j < next.stack.len() implies frame_ok(
            #[trigger] next.stack[j],
            next.heap.len(),
        ) by {
            assert(frame_ok(self.stack[j], self.heap.len()));
        }
    }

    /// A state that differs from a well-formed one only in the string table
    /// and the sweep marker is well formed when the new table is.
    pub proof fn lemma_with_strings(self, strings: Map<Seq<char>, ObjectRef>, marker: nat)
        requires
            self.wf(),
            map_ok(strings, self.heap.len()),
        ensures
            (RuntimeModel { strings, string_count_marker: marker, ..self }).wf(),
    {
        let next = RuntimeModel { strings, string_count_marker: marker, ..self };
        assert forall|j: int| 0 <= j < next.heap.len() implies object_ok(
            #[trigger] next.heap[j],
            j,
            next.heap.len(),
        ) by {
            assert(object_ok(self.heap[j], j, self.heap.len()));
        }
        assert forall|j: int| 0 <= j < next.stack.len() implies frame_ok(
            #[trigger] next.stack[j],
            next.heap.len(),
        ) by {
            assert(frame_ok(self.stack[j], self.heap.len()));
        }
    }

    /// A well-formed state stays well formed when an object gets a method of a
    /// class of the table.
    pub proof fn lemma_with_method(self, r: ObjectRef, method: MethodModel)
        requires
            self.wf(),
            self.contains(r),
            self.contains(method.class),
        ensures
            self.with_method(r, method).wf(),
    {
        assert(object_ok(self.heap[r.id as int], r.id as int, self.heap.len()));
        self.lemma_with_object(r, self.object(r).with_method(method));
    }

    /// In a well-formed state a resolved method belongs to a class of the
    /// table.
    pub proof fn lemma_resolve_method(self, r: ObjectRef, name: Seq<char>)
        requires
            self.wf(),
            self.contains(r),
        ensures
            self.resolve_method(r, name) matches Some(method) ==> self.contains(method.class),
        decreases r.id,
    {
        assert(object_ok(self.heap[r.id as int], r.id as int, self.heap.len()));
        if self.object(r).own_method(name) is None {
            if let Some(parent) = self.object(r).superclass {
                self.lemma_resolve_method(parent, name);
            }
        }
    }

    /// A well-formed state stays well formed when an object gets a payload
    /// whose references name objects of the table.
    pub proof fn lemma_set_primitive(self, r: ObjectRef, primitive: PrimitiveModel)
        requires
            self.wf(),
            self.contains(r),
            primitive_ok(Some(primitive), self.heap.len()),
        ensures
            self.set_primitive(r, primitive).wf(),
    {
        assert(object_ok(self.heap[r.id as int], r.id as int, self.heap.len()));
        self.lemma_with_object(r, self.object(r).set_primitive(primitive));
    }
}

} // verus!
