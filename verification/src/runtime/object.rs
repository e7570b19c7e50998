//! Objects, methods and primitive payloads.
//!
//! Every runtime value is an [`Object`] that lives in the runtime's object
//! table and is named by an [`ObjectRef`]. Two references are the same object
//! exactly when they are equal.

use crate::runtime::builtin;
use crate::runtime::closure::{lemma_names_push, names_view};
use crate::runtime::error::{unit_outcome, Error, ErrorModel};
use crate::runtime::stdlib::Builtin;
use crate::runtime::table::{Table, TableModel};
use crate::types::{Block, Node};
use std::rc::Rc;
use vstd::hash_map::StringHashMap;
use vstd::prelude::*;

verus! {

/// The name of an object in the runtime's object table.
#[derive(Debug, Copy, Clone, PartialEq, Eq, Structural, Hash)]
pub struct ObjectRef {
    pub id: usize,
}

/// A reference that does not keep its object alive. The object table owns
/// every object, so this is the same as [`ObjectRef`].
pub type WeakObjectRef = ObjectRef;

/// A shared method. Methods do not change once they are defined.
pub type MethodRef = Rc<Method>;

/// A built-in method body: one that the host implements, or the constructor
/// that a class without `init` gets.
#[derive(Debug, Copy, Clone, PartialEq, Eq, Structural)]
pub enum SystemMethod {
    /// Takes any arguments, does nothing, and yields the receiver.
    DefaultInit,
    /// Calls the method that the receiver, a method object, stands for.
    BoundCall,
    /// A method of the standard library that the library implements.
    Builtin(Builtin),
    /// The host's function with this number.
    Host(usize),
}

/// Whether a method is called on instances or on the class itself.
#[derive(Debug, Copy, Clone, PartialEq, Eq, Structural)]
pub enum MethodReceiver {
    Instance,
    Class,
}

/// What a method runs: a block of the program, or a built-in.
#[derive(Debug)]
pub enum MethodBody {
    User(Rc<Node<Block>>),
    System(SystemMethod),
}

/// A formal parameter of a method.
#[derive(Debug)]
pub enum Param {
    Positional(String),
    Vararg(String),
}

/// What a [`Param`] holds.
pub ghost enum ParamModel {
    Positional(Seq<char>),
    Vararg(Seq<char>),
}

impl ParamModel {
    /// The parameter's name.
    pub open spec fn name(self) -> Seq<char> {
        match self {
            ParamModel::Positional(name) => name,
            ParamModel::Vararg(name) => name,
        }
    }
}

impl View for Param {
    type V = ParamModel;

    open spec fn view(&self) -> ParamModel {
        match self {
            Param::Positional(name) => ParamModel::Positional(name@),
            Param::Vararg(name) => ParamModel::Vararg(name@),
        }
    }
}

impl Param {
    /// The parameter's name.
    pub fn name(&self) -> (r: &String)
        ensures
            r@ == self@.name(),
    {
        match self {
            Param::Positional(name) => name,
            Param::Vararg(name) => name,
        }
    }
}

/// The views of a list of parameters.
pub open spec fn params_view(params: Seq<Param>) -> Seq<ParamModel> {
    Seq::new(params.len(), |i: int| params[i]@)
}

/// The payload of an instance of a built-in class. A number is held as the
/// bit pattern of a double-precision value.
pub enum Primitive {
    String(String),
    Number(u64),
    Boolean(bool),
    Array(Vec<ObjectRef>),
    Dictionary(Table),
}

/// What a [`Primitive`] holds, as mathematical values.
pub ghost enum PrimitiveModel {
    String(Seq<char>),
    Number(u64),
    Boolean(bool),
    Array(Seq<ObjectRef>),
    Dictionary(TableModel),
}

impl View for Primitive {
    type V = PrimitiveModel;

    open spec fn view(&self) -> PrimitiveModel {
        match self {
            Primitive::String(value) => PrimitiveModel::String(value@),
            Primitive::Number(value) => PrimitiveModel::Number(*value),
            Primitive::Boolean(value) => PrimitiveModel::Boolean(*value),
            Primitive::Array(value) => PrimitiveModel::Array(value@),
            Primitive::Dictionary(value) => PrimitiveModel::Dictionary(value@),
        }
    }
}

/// The view of an optional payload.
pub open spec fn primitive_view(primitive: Option<Primitive>) -> Option<PrimitiveModel> {
    match primitive {
        Some(p) => Some(p@),
        None => None,
    }
}

/// A method: its name, the class that owns it, its parameters, its body,
/// and whether it is called on instances or on the class.
#[derive(Debug)]
pub struct Method {
    pub name: String,
    pub class: WeakObjectRef,
    pub params: Vec<Param>,
    pub body: MethodBody,
    pub receiver: MethodReceiver,
}

/// The name that diagnostics give an object without one.
pub const DEFAULT_NAME: &'static str = "(anonymous)";

/// What a [`Method`] holds, with its texts as sequences of characters.
pub ghost struct MethodModel {
    pub name: Seq<char>,
    pub class: ObjectRef,
    pub params: Seq<ParamModel>,
    pub body: MethodBody,
    pub receiver: MethodReceiver,
}

impl View for Method {
    type V = MethodModel;

    open spec fn view(&self) -> MethodModel {
        MethodModel {
            name: self.name@,
            class: self.class,
            params: params_view(self.params@),
            body: self.body,
            receiver: self.receiver,
        }
    }
}

/// The view of a method that may be absent.
pub open spec fn method_view(method: Option<MethodRef>) -> Option<MethodModel> {
    match method {
        Some(m) => Some(m@),
        None => None,
    }
}

/// A runtime value: a class reference, an optional superclass, properties,
/// methods, and the payload of an instance of a built-in class.
pub struct Object {
    pub class: Option<ObjectRef>,
    pub superclass: Option<ObjectRef>,
    pub weak_self: WeakObjectRef,
    pub properties: Table,
    pub method_names: Vec<String>,
    pub methods: StringHashMap<MethodRef>,
    pub primitive: Option<Primitive>,
}

/// Two objects are equal when they are the same object: when they know
/// the same place in the object table. What they hold does not count.
impl PartialEq for Object {
    fn eq(&self, other: &Self) -> (r: bool) {
        self.weak_self == other.weak_self
    }
}

impl vstd::std_specs::cmp::PartialEqSpecImpl for Object {
    open spec fn obeys_eq_spec() -> bool {
        true
    }

    open spec fn eq_spec(&self, other: &Self) -> bool {
        self.weak_self == other.weak_self
    }
}

/// What an [`Object`] holds, as mathematical values.
pub ghost struct ObjectModel {
    pub class: Option<ObjectRef>,
    pub superclass: Option<ObjectRef>,
    pub weak_self: ObjectRef,
    /// The names of the properties in the order in which they were first
    /// set.
    pub property_names: Seq<Seq<char>>,
    pub properties: Map<Seq<char>, ObjectRef>,
    /// The names of the methods in the order in which they were defined.
    pub method_names: Seq<Seq<char>>,
    pub methods: Map<Seq<char>, MethodModel>,
    pub primitive: Option<PrimitiveModel>,
}

impl ObjectModel {
    /// An object without a class, with nothing in it.
    pub open spec fn dummy(this: ObjectRef) -> ObjectModel {
        ObjectModel {
            class: None,
            superclass: None,
            weak_self: this,
            property_names: Seq::empty(),
            properties: Map::empty(),
            method_names: Seq::empty(),
            methods: Map::empty(),
            primitive: None,
        }
    }

    /// A fresh instance of `class`, with nothing in it.
    pub open spec fn of_class(this: ObjectRef, class: ObjectRef) -> ObjectModel {
        ObjectModel { class: Some(class), ..ObjectModel::dummy(this) }
    }

    /// The bit pattern of the number that the object holds, if it holds one.
    pub open spec fn number(self) -> Option<u64> {
        match self.primitive {
            Some(PrimitiveModel::Number(value)) => Some(value),
            _ => None,
        }
    }

    /// The boolean that the object holds, if it holds one.
    pub open spec fn boolean(self) -> Option<bool> {
        match self.primitive {
            Some(PrimitiveModel::Boolean(value)) => Some(value),
            _ => None,
        }
    }

    /// The text that the object holds, if it holds one.
    pub open spec fn string(self) -> Option<Seq<char>> {
        match self.primitive {
            Some(PrimitiveModel::String(value)) => Some(value),
            _ => None,
        }
    }

    /// The list that the object holds, if it holds one.
    pub open spec fn array(self) -> Option<Seq<ObjectRef>> {
        match self.primitive {
            Some(PrimitiveModel::Array(value)) => Some(value),
            _ => None,
        }
    }

    /// The dictionary that the object holds, if it holds one.
    pub open spec fn dictionary(self) -> Option<TableModel> {
        match self.primitive {
            Some(PrimitiveModel::Dictionary(value)) => Some(value),
            _ => None,
        }
    }

    /// The object's own property of that name.
    pub open spec fn get_property(self, name: Seq<char>) -> Option<ObjectRef> {
        if self.properties.contains_key(name) {
            Some(self.properties[name])
        } else {
            None
        }
    }

    /// The properties as a table.
    pub open spec fn property_table(self) -> TableModel {
        TableModel { names: self.property_names, entries: self.properties }
    }

    /// The object with `value` as its own property `name`.
    pub open spec fn set_property(self, name: Seq<char>, value: ObjectRef) -> ObjectModel {
        ObjectModel {
            property_names: self.property_table().insert(name, value).names,
            properties: self.properties.insert(name, value),
            ..self
        }
    }

    /// The object with `primitive` as its payload.
    pub open spec fn set_primitive(self, primitive: PrimitiveModel) -> ObjectModel {
        ObjectModel { primitive: Some(primitive), ..self }
    }

    /// The method of that name in the object's own table.
    pub open spec fn own_method(self, name: Seq<char>) -> Option<MethodModel> {
        if self.methods.contains_key(name) {
            Some(self.methods[name])
        } else {
            None
        }
    }

    /// The object with `method` in its own table under `name`.
    pub open spec fn enter_method(self, name: Seq<char>, method: MethodModel) -> ObjectModel {
        ObjectModel {
            method_names: if self.methods.contains_key(name) {
                self.method_names
            } else {
                self.method_names.push(name)
            },
            methods: self.methods.insert(name, method),
            ..self
        }
    }

    /// The object with `method` added to its own table under the method's
    /// name.
    pub open spec fn with_method(self, method: MethodModel) -> ObjectModel {
        self.enter_method(method.name, method)
    }

    /// The methods from place `i` of the names on, entered into `done`.
    pub open spec fn copy_methods_from(self, i: nat, done: ObjectModel) -> ObjectModel
        decreases self.method_names.len() - i,
    {
        if i >= self.method_names.len() {
            done
        } else {
            match self.own_method(self.method_names[i as int]) {
                Some(method) => self.copy_methods_from(
                    i + 1,
                    done.enter_method(self.method_names[i as int], method),
                ),
                None => self.copy_methods_from(i + 1, done),
            }
        }
    }

    /// Copying the methods changes nothing else, and every method of the
    /// result was in `done` or is a method of the object.
    pub proof fn lemma_copy_methods_from(self, i: nat, done: ObjectModel)
        ensures
            ({
                let r = self.copy_methods_from(i, done);
                &&& r.class == done.class
                &&& r.superclass == done.superclass
                &&& r.weak_self == done.weak_self
                &&& r.properties == done.properties
                &&& r.property_names == done.property_names
                &&& r.primitive == done.primitive
                &&& forall|k: Seq<char>| #[trigger]
                    r.methods.contains_key(k) ==> (done.methods.contains_key(k) && r.methods[k]
                        == done.methods[k]) || (self.methods.contains_key(k) && r.methods[k]
                        == self.methods[k])
            }),
        decreases self.method_names.len() - i,
    {
        if i < self.method_names.len() {
            match self.own_method(self.method_names[i as int]) {
                Some(method) => {
                    self.lemma_copy_methods_from(
                        i + 1,
                        done.enter_method(self.method_names[i as int], method),
                    );
                },
                None => {
                    self.lemma_copy_methods_from(i + 1, done);
                },
            }
        }
    }

    /// The properties in the order of their names, each with its value.
    pub open spec fn property_entries(self) -> Seq<(Seq<char>, Option<ObjectRef>)> {
        Seq::new(
            self.property_names.len(),
            |i: int| (self.property_names[i], self.get_property(self.property_names[i])),
        )
    }

    /// The payload of a copy: the same, with a dictionary copied entry by
    /// entry.
    pub open spec fn copy_primitive(self) -> Option<PrimitiveModel> {
        match self.primitive {
            Some(PrimitiveModel::Dictionary(table)) => Some(
                PrimitiveModel::Dictionary(table.copy()),
            ),
            other => other,
        }
    }

    /// A copy of the object that stands at `this` and has the given
    /// properties: its class, its superclass and its payload are the
    /// object's, and its methods are the object's methods, shared.
    pub open spec fn copy(self, this: ObjectRef, properties: TableModel) -> ObjectModel {
        self.copy_methods_from(
            0,
            ObjectModel {
                class: self.class,
                superclass: self.superclass,
                weak_self: this,
                property_names: properties.names,
                properties: properties.entries,
                method_names: Seq::empty(),
                methods: Map::empty(),
                primitive: self.copy_primitive(),
            },
        )
    }
}

/// The views of the methods of a table.
pub open spec fn methods_view(methods: Map<Seq<char>, MethodRef>) -> Map<Seq<char>, MethodModel> {
    Map::new(|k: Seq<char>| methods.contains_key(k), |k: Seq<char>| methods[k]@)
}

impl View for Object {
    type V = ObjectModel;

    open spec fn view(&self) -> ObjectModel {
        ObjectModel {
            class: self.class,
            superclass: self.superclass,
            weak_self: self.weak_self,
            property_names: self.properties@.names,
            properties: self.properties@.entries,
            method_names: names_view(self.method_names@),
            methods: methods_view(self.methods@),
            primitive: primitive_view(self.primitive),
        }
    }
}

impl Object {
    /// An object without a class. It stands in the table at `this` until the
    /// bootstrap gives it one.
    pub fn new_dummy(this: ObjectRef) -> (r: Object)
        ensures
            r@ == ObjectModel::dummy(this),
    {
        let r = Object {
            class: None,
            superclass: None,
            weak_self: this,
            properties: Table::new(),
            method_names: Vec::new(),
            methods: StringHashMap::new(),
            primitive: None,
        };
        proof {
            assert(r@.methods =~= Map::empty());
            assert(r@.method_names =~= Seq::empty());
        }
        r
    }

    /// A fresh instance of `class` that will stand in the table at `this`.
    pub fn new_of_class(this: ObjectRef, class: ObjectRef) -> (r: Object)
        ensures
            r@ == ObjectModel::of_class(this, class),
    {
        let r = Object {
            class: Some(class),
            superclass: None,
            weak_self: this,
            properties: Table::new(),
            method_names: Vec::new(),
            methods: StringHashMap::new(),
            primitive: None,
        };
        proof {
            assert(r@.methods =~= Map::empty());
            assert(r@.method_names =~= Seq::empty());
        }
        r
    }

    /// The bit pattern of the number that the object holds; `None` where it
    /// holds no number.
    pub fn number(&self) -> (r: Option<u64>)
        ensures
            r == self@.number(),
    {
        match &self.primitive {
            Some(Primitive::Number(value)) => Some(*value),
            _ => None,
        }
    }

    /// The boolean that the object holds; `None` where it holds none.
    pub fn bool(&self) -> (r: Option<bool>)
        ensures
            r == self@.boolean(),
    {
        match &self.primitive {
            Some(Primitive::Boolean(value)) => Some(*value),
            _ => None,
        }
    }

    /// The text that the object holds; `None` where it holds none.
    pub fn string(&self) -> (r: Option<&String>)
        ensures
            r is Some == self@.string() is Some,
            r is Some ==> r.unwrap()@ == self@.string().unwrap(),
    {
        match &self.primitive {
            Some(Primitive::String(value)) => Some(value),
            _ => None,
        }
    }

    /// The list that the object holds; `None` where it holds none.
    pub fn array(&self) -> (r: Option<&Vec<ObjectRef>>)
        ensures
            r is Some == self@.array() is Some,
            r is Some ==> r.unwrap()@ == self@.array().unwrap(),
    {
        match &self.primitive {
            Some(Primitive::Array(value)) => Some(value),
            _ => None,
        }
    }

    /// The dictionary that the object holds; `None` where it holds none.
    pub fn dictionary(&self) -> (r: Option<&Table>)
        ensures
            r is Some == self@.dictionary() is Some,
            r is Some ==> r.unwrap()@ == self@.dictionary().unwrap(),
    {
        match &self.primitive {
            Some(Primitive::Dictionary(value)) => Some(value),
            _ => None,
        }
    }

    /// Sets the object's own property `name`.
    pub fn set_property(&mut self, name: String, value: ObjectRef)
        ensures
            final(self)@ == old(self)@.set_property(name@, value),
    {
        self.properties.insert(name, value);
    }

    /// The object's own property `name`. This does not look at a superclass.
    pub fn get_property(&self, name: &str) -> (r: Option<ObjectRef>)
        ensures
            r == self@.get_property(name@),
    {
        self.properties.get(name)
    }

    /// The reference to the object itself.
    pub fn weak_self(&self) -> (r: WeakObjectRef)
        ensures
            r == self@.weak_self,
    {
        self.weak_self
    }

    /// Gives the object a payload.
    pub fn set_primitive(&mut self, primitive: Primitive)
        ensures
            final(self)@ == old(self)@.set_primitive(primitive@),
    {
        self.primitive = Some(primitive);
    }

    /// The list that this object holds, for changing it.
    pub fn array_mut(&mut self) -> (r: Option<&mut Vec<ObjectRef>>)
        ensures
            r is Some == old(self)@.array() is Some,
            r is None ==> *final(self) == *old(self),
            r matches Some(items) ==> items@ == old(self)@.array().unwrap() && final(self)@ == old(
                self,
            )@.set_primitive(PrimitiveModel::Array(final(items)@)),
    {
        match &mut self.primitive {
            Some(Primitive::Array(value)) => Some(value),
            _ => None,
        }
    }

    /// The dictionary that this object holds, for changing it.
    pub fn dictionary_mut(&mut self) -> (r: Option<&mut Table>)
        ensures
            r is Some == old(self)@.dictionary() is Some,
            r is None ==> *final(self) == *old(self),
            r matches Some(entries) ==> entries@ == old(self)@.dictionary().unwrap() && final(self)@
                == old(self)@.set_primitive(PrimitiveModel::Dictionary(final(entries)@)),
    {
        match &mut self.primitive {
            Some(Primitive::Dictionary(value)) => Some(value),
            _ => None,
        }
    }

    /// Adds a method to this object's own table. Fails if the table has a
    /// method of that name already; a method of a superclass may be
    /// shadowed. The error names the object as anonymous: the runtime's
    /// `define_method` gives the class's name.
    pub fn define_method(
        &mut self,
        receiver: MethodReceiver,
        method_name: String,
        params: Vec<Param>,
        body: MethodBody,
    ) -> (r: Result<(), Error>)
        ensures
            old(self)@.methods.contains_key(method_name@) ==> final(self)@ == old(self)@
                && unit_outcome(r) == Err::<(), ErrorModel>(
                ErrorModel::DuplicateMethodDefinition { class: DEFAULT_NAME@, name: method_name@ },
            ),
            !old(self)@.methods.contains_key(method_name@) ==> r is Ok && final(self)@ == old(
                self,
            )@.with_method(
                MethodModel {
                    name: method_name@,
                    class: old(self)@.weak_self,
                    params: params_view(params@),
                    body,
                    receiver,
                },
            ),
    {
        if self.methods.contains_key(method_name.as_str()) {
            return Err(
                Error::DuplicateMethodDefinition { class: DEFAULT_NAME.to_owned(), name: method_name },
            );
        }
        let key = method_name.clone();
        self.method_names.push(method_name.clone());
        let method = Method { name: method_name, class: self.weak_self, receiver, params, body };
        self.methods.insert(key, Rc::new(method));
        proof {
            assert(self@.methods =~= old(self)@.methods.insert(method_name@, method@));
            lemma_names_push(old(self).method_names@, method_name);
            assert(old(self)@.method_names + seq![method_name@] =~= old(self)@.method_names.push(
                method_name@,
            ));
        }
        Ok(())
    }

    /// A copy of the payload.
    pub fn copy_primitive(&self) -> (r: Option<Primitive>)
        ensures
            primitive_view(r) == self@.copy_primitive(),
    {
        match &self.primitive {
            Some(Primitive::String(value)) => Some(Primitive::String(value.clone())),
            Some(Primitive::Number(value)) => Some(Primitive::Number(*value)),
            Some(Primitive::Boolean(value)) => Some(Primitive::Boolean(*value)),
            Some(Primitive::Array(value)) => {
                let mut items: Vec<ObjectRef> = Vec::new();
                let mut i: usize = 0;
                while i < value.len()
                    invariant
                        i <= value.len(),
                        items@ == value@.take(i as int),
                    decreases value.len() - i,
                {
                    items.push(value[i]);
                    proof {
                        assert(items@ =~= value@.take(i + 1));
                    }
                    i = i + 1;
                }
                proof {
                    assert(value@.take(i as int) =~= value@);
                }
                Some(Primitive::Array(items))
            },
            Some(Primitive::Dictionary(value)) => Some(Primitive::Dictionary(value.copy())),
            None => None,
        }
    }

    /// A copy of this object that will stand in the table at `this` and
    /// has the given properties. Its methods are this object's, shared.
    pub fn copy(&self, this: ObjectRef, properties: Table) -> (r: Object)
        ensures
            r@ == self@.copy(this, properties@),
    {
        let mut r = Object {
            class: self.class,
            superclass: self.superclass,
            weak_self: this,
            properties,
            method_names: Vec::new(),
            methods: StringHashMap::new(),
            primitive: self.copy_primitive(),
        };
        proof {
            assert(r@.methods =~= Map::empty());
            assert(r@.method_names =~= Seq::empty());
        }
        let mut i: usize = 0;
        while i < self.method_names.len()
            invariant
                i <= self.method_names.len(),
                self@.copy_methods_from(i as nat, r@) == self@.copy(this, properties@),
            decreases self.method_names.len() - i,
        {
            let name = &self.method_names[i];
            match self.methods.get(name.as_str()) {
                Some(method) => {
                    let ghost before = r;
                    let known = r.methods.contains_key(name.as_str());
                    if !known {
                        r.method_names.push(name.clone());
                    }
                    r.methods.insert(name.clone(), Rc::clone(method));
                    proof {
                        assert(r@.methods =~= before@.methods.insert(name@, method@));
                        if !known {
                            lemma_names_push(before.method_names@, *name);
                            assert(before@.method_names + seq![name@] =~= before@.method_names.push(
                                name@,
                            ));
                        }
                    }
                },
                None => {},
            }
            i = i + 1;
        }
        r
    }

    /// The method of that name in this object's own table. Inherited
    /// methods are found by the runtime, which can reach the superclass.
    pub fn resolve_own_method(&self, name: &str) -> (r: Option<MethodRef>)
        ensures
            method_view(r) == self@.own_method(name@),
    {
        match self.methods.get(name) {
            Some(method) => Some(Rc::clone(method)),
            None => None,
        }
    }
}

} // verus!

