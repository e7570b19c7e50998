//! The built-in classes and objects, and the construction of a runtime that
//! holds them.

use crate::runtime::builtin;
use crate::runtime::model::{ref_ok, RuntimeModel};
use crate::runtime::object::{ObjectRef, Primitive, PrimitiveModel};
use crate::runtime::Runtime;
use vstd::prelude::*;

verus! {

/// The classes and objects that every runtime starts with.
#[allow(non_snake_case)]
#[derive(Debug, Clone, Copy)]
pub struct Builtins {
    pub Class: ObjectRef,
    pub Object: ObjectRef,
    pub String: ObjectRef,
    pub NilClass: ObjectRef,
    pub Bool: ObjectRef,
    pub Number: ObjectRef,
    pub Array: ObjectRef,
    pub ArrayIter: ObjectRef,
    pub Tuple: ObjectRef,
    pub Dictionary: ObjectRef,
    pub DictionaryIter: ObjectRef,
    pub Closure: ObjectRef,
    pub Method: ObjectRef,
    pub IO: ObjectRef,
    pub Main: ObjectRef,
    pub bool_true: ObjectRef,
    pub bool_false: ObjectRef,
    pub nil: ObjectRef,
}

impl Builtins {
    /// The built-ins that are all one object.
    pub open spec fn all_spec(r: ObjectRef) -> Builtins {
        Builtins {
            Class: r,
            Object: r,
            String: r,
            NilClass: r,
            Bool: r,
            Number: r,
            Array: r,
            ArrayIter: r,
            Tuple: r,
            Dictionary: r,
            DictionaryIter: r,
            Closure: r,
            Method: r,
            IO: r,
            Main: r,
            bool_true: r,
            bool_false: r,
            nil: r,
        }
    }

    /// The built-ins that are all one object.
    #[verifier::when_used_as_spec(all_spec)]
    pub fn all(r: ObjectRef) -> (b: Builtins)
        ensures
            b == Builtins::all_spec(r),
    {
        Builtins {
            Class: r,
            Object: r,
            String: r,
            NilClass: r,
            Bool: r,
            Number: r,
            Array: r,
            ArrayIter: r,
            Tuple: r,
            Dictionary: r,
            DictionaryIter: r,
            Closure: r,
            Method: r,
            IO: r,
            Main: r,
            bool_true: r,
            bool_false: r,
            nil: r,
        }
    }

    /// Every built-in names an object of a table of `n` objects.
    pub open spec fn ok(self, n: nat) -> bool {
        &&& ref_ok(self.Class, n)
        &&& ref_ok(self.Object, n)
        &&& ref_ok(self.String, n)
        &&& ref_ok(self.NilClass, n)
        &&& ref_ok(self.Bool, n)
        &&& ref_ok(self.Number, n)
        &&& ref_ok(self.Array, n)
        &&& ref_ok(self.ArrayIter, n)
        &&& ref_ok(self.Tuple, n)
        &&& ref_ok(self.Dictionary, n)
        &&& ref_ok(self.DictionaryIter, n)
        &&& ref_ok(self.Closure, n)
        &&& ref_ok(self.Method, n)
        &&& ref_ok(self.IO, n)
        &&& ref_ok(self.Main, n)
        &&& ref_ok(self.bool_true, n)
        &&& ref_ok(self.bool_false, n)
        &&& ref_ok(self.nil, n)
    }
}

impl RuntimeModel {
    /// The state after the first stage of the bootstrap: the root class,
    /// `Object` and `String`, each bound to its name and named.
    pub open spec fn bootstrap_roots() -> RuntimeModel {
        let class = ObjectRef { id: 0 };
        let s = RuntimeModel::root();
        let s = s.assign_global(builtin::class::Class@, class);
        let (s, object) = s.create_object(class);
        let s = s.with_builtins(Builtins { Object: object, ..s.builtins });
        let s = s.assign_global(builtin::class::Object@, object);
        let (s, string) = s.create_object(class);
        let s = s.set_superclass(string, Some(object));
        let s = s.with_builtins(Builtins { String: string, ..s.builtins });
        let s = s.assign_global(builtin::class::String@, string);
        let (s, name) = s.create_string(builtin::class::Class@);
        let s = s.set_property(class, builtin::property::__name__@, name);
        let (s, name) = s.create_string(builtin::class::Object@);
        let s = s.set_property(object, builtin::property::__name__@, name);
        let (s, name) = s.create_string(builtin::class::String@);
        s.set_property(string, builtin::property::__name__@, name)
    }

    /// The state after the second stage: `nil`, the two booleans and their
    /// classes.
    pub open spec fn bootstrap_singletons(self) -> RuntimeModel {
        let (s, nil_class) = self.create_simple_class(builtin::class::NilClass@);
        let (s, nil) = s.create_object(nil_class);
        let s = s.with_builtins(Builtins { NilClass: nil_class, nil, ..s.builtins });
        let (s, bool_class) = s.create_simple_class(builtin::class::Bool@);
        let (s, bool_true) = s.create_with_primitive(bool_class, PrimitiveModel::Boolean(true));
        let (s, bool_false) = s.create_with_primitive(bool_class, PrimitiveModel::Boolean(false));
        s.with_builtins(Builtins { Bool: bool_class, bool_true, bool_false, ..s.builtins })
    }

    /// The state after the third stage: the remaining built-in classes,
    /// with `Main` as the class of the outermost frame.
    pub open spec fn bootstrap_classes(self) -> RuntimeModel {
        let (s, number) = self.create_simple_class(builtin::class::Number@);
        let (s, array) = s.create_simple_class(builtin::class::Array@);
        let (s, array_iter) = s.create_simple_class(builtin::class::ArrayIter@);
        let (s, tuple) = s.create_simple_class(builtin::class::Tuple@);
        let (s, dictionary) = s.create_simple_class(builtin::class::Dictionary@);
        let (s, dictionary_iter) = s.create_simple_class(builtin::class::DictionaryIter@);
        let (s, closure) = s.create_simple_class(builtin::class::Closure@);
        let (s, method) = s.create_simple_class(builtin::class::Method@);
        let (s, main) = s.create_simple_class(builtin::class::Main@);
        let (s, io) = s.create_simple_class(builtin::class::IO@);
        let s = s.with_builtins(
            Builtins {
                Number: number,
                Array: array,
                ArrayIter: array_iter,
                Tuple: tuple,
                Dictionary: dictionary,
                DictionaryIter: dictionary_iter,
                Closure: closure,
                Method: method,
                Main: main,
                IO: io,
                ..s.builtins
            },
        );
        s.with_main(main)
    }

    /// The state that holds the built-in classes and objects and nothing
    /// else.
    pub open spec fn bootstrap_classes_and_objects() -> RuntimeModel {
        RuntimeModel::bootstrap_roots().bootstrap_singletons().bootstrap_classes()
    }

    /// The state that a new runtime starts in: the built-in classes and
    /// objects, and the methods of the standard library.
    pub open spec fn bootstrap() -> RuntimeModel {
        RuntimeModel::bootstrap_classes_and_objects().bootstrap_stdlib()
    }
}

impl Runtime {
    fn bootstrap_roots() -> (r: Runtime)
        ensures
            r.wf(),
            r@ == RuntimeModel::bootstrap_roots(),
    {
        let class = ObjectRef { id: 0 };
        let mut runtime = Runtime::root();
        runtime.assign_global(builtin::class::Class.to_owned(), class);
        let object = runtime.create_object(class);
        let mut builtins = runtime.builtins();
        builtins.Object = object;
        runtime.set_builtins(builtins);
        runtime.assign_global(builtin::class::Object.to_owned(), object);
        let string = runtime.create_object(class);
        runtime.set_superclass(string, Some(object));
        let mut builtins = runtime.builtins();
        builtins.String = string;
        runtime.set_builtins(builtins);
        runtime.assign_global(builtin::class::String.to_owned(), string);
        let name = runtime.create_string(builtin::class::Class);
        runtime.set_property(class, builtin::property::__name__.to_owned(), name);
        let name = runtime.create_string(builtin::class::Object);
        runtime.set_property(object, builtin::property::__name__.to_owned(), name);
        let name = runtime.create_string(builtin::class::String);
        runtime.set_property(string, builtin::property::__name__.to_owned(), name);
        runtime
    }

    fn bootstrap_singletons(&mut self)
        requires
            old(self).wf(),
        ensures
            final(self).wf(),
            final(self)@ == old(self)@.bootstrap_singletons(),
    {
        let nil_class = self.create_simple_class(builtin::class::NilClass.to_owned());
        let nil = self.create_object(nil_class);
        let mut builtins = self.builtins();
        builtins.NilClass = nil_class;
        builtins.nil = nil;
        self.set_builtins(builtins);
        let bool_class = self.create_simple_class(builtin::class::Bool.to_owned());
        let bool_true = self.create_object(bool_class);
        self.set_primitive(bool_true, Primitive::Boolean(true));
        let bool_false = self.create_object(bool_class);
        self.set_primitive(bool_false, Primitive::Boolean(false));
        let mut builtins = self.builtins();
        builtins.Bool = bool_class;
        builtins.bool_true = bool_true;
        builtins.bool_false = bool_false;
        self.set_builtins(builtins);
    }

    fn bootstrap_classes(&mut self)
        requires
            old(self).wf(),
        ensures
            final(self).wf(),
            final(self)@ == old(self)@.bootstrap_classes(),
    {
        let number = self.create_simple_class(builtin::class::Number.to_owned());
        let array = self.create_simple_class(builtin::class::Array.to_owned());
        let array_iter = self.create_simple_class(builtin::class::ArrayIter.to_owned());
        let tuple = self.create_simple_class(builtin::class::Tuple.to_owned());
        let dictionary = self.create_simple_class(builtin::class::Dictionary.to_owned());
        let dictionary_iter = self.create_simple_class(builtin::class::DictionaryIter.to_owned());
        let closure = self.create_simple_class(builtin::class::Closure.to_owned());
        let method = self.create_simple_class(builtin::class::Method.to_owned());
        let main = self.create_simple_class(builtin::class::Main.to_owned());
        let io = self.create_simple_class(builtin::class::IO.to_owned());
        let mut builtins = self.builtins();
        builtins.Number = number;
        builtins.Array = array;
        builtins.ArrayIter = array_iter;
        builtins.Tuple = tuple;
        builtins.Dictionary = dictionary;
        builtins.DictionaryIter = dictionary_iter;
        builtins.Closure = closure;
        builtins.Method = method;
        builtins.Main = main;
        builtins.IO = io;
        self.set_builtins(builtins);
        self.set_main(main);
    }

    /// Makes the built-in classes and objects.
    pub(crate) fn bootstrap_classes_and_objects() -> (r: Runtime)
        ensures
            r.wf(),
            r@ == RuntimeModel::bootstrap_classes_and_objects(),
    {
        let mut runtime = Runtime::bootstrap_roots();
        runtime.bootstrap_singletons();
        runtime.bootstrap_classes();
        runtime
    }

    /// Makes the built-in classes and objects and gives the classes their
    /// methods.
    pub(crate) fn bootstrap() -> (r: Runtime)
        ensures
            r.wf(),
            r@ == RuntimeModel::bootstrap(),
    {
        let mut runtime = Runtime::bootstrap_classes_and_objects();
        runtime.bootstrap_stdlib();
        runtime
    }
}

} // verus!
