//! The registration of the standard library: which built-in class gets
//! which method.

use crate::runtime::model::RuntimeModel;
use crate::runtime::object::{
    params_view, MethodBody, MethodReceiver, ObjectRef, Param, ParamModel, SystemMethod,
};
use crate::runtime::stdlib::{function, Builtin};
use crate::runtime::Runtime;
use vstd::prelude::*;

verus! {

/// Positional parameters of these names.
pub open spec fn positional(names: Seq<Seq<char>>) -> Seq<ParamModel> {
    Seq::new(names.len(), |i: int| ParamModel::Positional(names[i]))
}

/// One parameter that takes all the arguments.
pub open spec fn vararg(name: Seq<char>) -> Seq<ParamModel> {
    seq![ParamModel::Vararg(name)]
}

fn no_params() -> (r: Vec<Param>)
    ensures
        params_view(r@) == positional(Seq::empty()),
{
    let r: Vec<Param> = Vec::new();
    proof {
        assert(params_view(r@) =~= positional(Seq::empty()));
    }
    r
}

fn one_param(a: &str) -> (r: Vec<Param>)
    ensures
        params_view(r@) == positional(seq![a@]),
{
    let mut r: Vec<Param> = Vec::new();
    r.push(Param::Positional(a.to_owned()));
    proof {
        assert(params_view(r@) =~= positional(seq![a@]));
    }
    r
}

fn two_params(a: &str, b: &str) -> (r: Vec<Param>)
    ensures
        params_view(r@) == positional(seq![a@, b@]),
{
    let mut r: Vec<Param> = Vec::new();
    r.push(Param::Positional(a.to_owned()));
    r.push(Param::Positional(b.to_owned()));
    proof {
        assert(params_view(r@) =~= positional(seq![a@, b@]));
    }
    r
}

fn vararg_param(a: &str) -> (r: Vec<Param>)
    ensures
        params_view(r@) == vararg(a@),
{
    let mut r: Vec<Param> = Vec::new();
    r.push(Param::Vararg(a.to_owned()));
    proof {
        assert(params_view(r@) =~= vararg(a@));
    }
    r
}

impl RuntimeModel {
    /// The state with a system method in the own table of `class`, unless
    /// that table has a method of that name already.
    pub open spec fn with_system_method(
        self,
        class: ObjectRef,
        name: Seq<char>,
        params: Seq<ParamModel>,
        receiver: MethodReceiver,
        body: SystemMethod,
    ) -> RuntimeModel {
        self.define_method(class, receiver, name, params, MethodBody::System(body)).0
    }

    /// The state with the methods of `Number`.
    pub open spec fn stdlib_number(self) -> RuntimeModel {
        let s = self;
        let s = s.with_system_method(
            s.builtins.Number,
            "init"@,
            positional(Seq::empty()),
            MethodReceiver::Instance,
            SystemMethod::Host(function::NUMBER_INIT),
        );
        let s = s.with_system_method(
            s.builtins.Number,
            "__eq__"@,
            positional(seq!["other"@]),
            MethodReceiver::Instance,
            SystemMethod::Host(function::NUMBER_EQ),
        );
        let s = s.with_system_method(
            s.builtins.Number,
            "__neq__"@,
            positional(seq!["other"@]),
            MethodReceiver::Instance,
            SystemMethod::Host(function::NUMBER_NEQ),
        );
        let s = s.with_system_method(
            s.builtins.Number,
            "__lt__"@,
            positional(seq!["other"@]),
            MethodReceiver::Instance,
            SystemMethod::Host(function::NUMBER_LT),
        );
        let s = s.with_system_method(
            s.builtins.Number,
            "__lte__"@,
            positional(seq!["other"@]),
            MethodReceiver::Instance,
            SystemMethod::Host(function::NUMBER_LTE),
        );
        let s = s.with_system_method(
            s.builtins.Number,
            "__gt__"@,
            positional(seq!["other"@]),
            MethodReceiver::Instance,
            SystemMethod::Host(function::NUMBER_GT),
        );
        let s = s.with_system_method(
            s.builtins.Number,
            "__gte__"@,
            positional(seq!["other"@]),
            MethodReceiver::Instance,
            SystemMethod::Host(function::NUMBER_GTE),
        );
        let s = s.with_system_method(
            s.builtins.Number,
            "__add__"@,
            positional(seq!["other"@]),
            MethodReceiver::Instance,
            SystemMethod::Host(function::NUMBER_ADD),
        );
        let s = s.with_system_method(
            s.builtins.Number,
            "__sub__"@,
            positional(seq!["other"@]),
            MethodReceiver::Instance,
            SystemMethod::Host(function::NUMBER_SUB),
        );
        let s = s.with_system_method(
            s.builtins.Number,
            "__mul__"@,
            positional(seq!["other"@]),
            MethodReceiver::Instance,
            SystemMethod::Host(function::NUMBER_MUL),
        );
        let s = s.with_system_method(
            s.builtins.Number,
            "__div__"@,
            positional(seq!["other"@]),
            MethodReceiver::Instance,
            SystemMethod::Host(function::NUMBER_DIV),
        );
        let s = s.with_system_method(
            s.builtins.Number,
            "__neg__"@,
            positional(Seq::empty()),
            MethodReceiver::Instance,
            SystemMethod::Host(function::NUMBER_NEG),
        );
        let s = s.with_system_method(
            s.builtins.Number,
            "round"@,
            positional(Seq::empty()),
            MethodReceiver::Instance,
            SystemMethod::Host(function::NUMBER_ROUND),
        );
        let s = s.with_system_method(
            s.builtins.Number,
            "ceil"@,
            positional(Seq::empty()),
            MethodReceiver::Instance,
            SystemMethod::Host(function::NUMBER_CEIL),
        );
        let s = s.with_system_method(
            s.builtins.Number,
            "floor"@,
            positional(Seq::empty()),
            MethodReceiver::Instance,
            SystemMethod::Host(function::NUMBER_FLOOR),
        );
        let s = s.with_system_method(
            s.builtins.Number,
            "pow"@,
            positional(seq!["power"@]),
            MethodReceiver::Instance,
            SystemMethod::Host(function::NUMBER_POW),
        );
        let s = s.with_system_method(
            s.builtins.Number,
            "to_s"@,
            positional(Seq::empty()),
            MethodReceiver::Instance,
            SystemMethod::Host(function::NUMBER_TO_S),
        );
        s
    }

    /// The state with the methods of `String`.
    pub open spec fn stdlib_string(self) -> RuntimeModel {
        let s = self;
        let s = s.with_system_method(
            s.builtins.String,
            "init"@,
            positional(Seq::empty()),
            MethodReceiver::Instance,
            SystemMethod::Builtin(Builtin::StringInit),
        );
        let s = s.with_system_method(
            s.builtins.String,
            "trim"@,
            positional(Seq::empty()),
            MethodReceiver::Instance,
            SystemMethod::Builtin(Builtin::StringTrim),
        );
        let s = s.with_system_method(
            s.builtins.String,
            "__eq__"@,
            positional(seq!["other"@]),
            MethodReceiver::Instance,
            SystemMethod::Builtin(Builtin::StringEq),
        );
        let s = s.with_system_method(
            s.builtins.String,
            "__neq__"@,
            positional(seq!["other"@]),
            MethodReceiver::Instance,
            SystemMethod::Builtin(Builtin::StringNeq),
        );
        let s = s.with_system_method(
            s.builtins.String,
            "__add__"@,
            positional(seq!["other"@]),
            MethodReceiver::Instance,
            SystemMethod::Builtin(Builtin::StringAdd),
        );
        let s = s.with_system_method(
            s.builtins.String,
            "to_s"@,
            positional(Seq::empty()),
            MethodReceiver::Instance,
            SystemMethod::Builtin(Builtin::StringToS),
        );
        s
    }

    /// The state with the methods of `Object`.
    pub open spec fn stdlib_object(self) -> RuntimeModel {
        let s = self;
        let s = s.with_system_method(
            s.builtins.Object,
            "__debug__"@,
            positional(Seq::empty()),
            MethodReceiver::Instance,
            SystemMethod::Builtin(Builtin::ObjectDebug),
        );
        let s = s.with_system_method(
            s.builtins.Object,
            "__eq__"@,
            positional(seq!["other"@]),
            MethodReceiver::Instance,
            SystemMethod::Builtin(Builtin::ObjectEq),
        );
        let s = s.with_system_method(
            s.builtins.Object,
            "__neq__"@,
            positional(seq!["other"@]),
            MethodReceiver::Instance,
            SystemMethod::Builtin(Builtin::ObjectNeq),
        );
        let s = s.with_system_method(
            s.builtins.Object,
            "to_s"@,
            positional(Seq::empty()),
            MethodReceiver::Instance,
            SystemMethod::Builtin(Builtin::ObjectToS),
        );
        s
    }

    /// The state with the methods of `NilClass`.
    pub open spec fn stdlib_nil(self) -> RuntimeModel {
        let s = self;
        let s = s.with_system_method(
            s.builtins.NilClass,
            "init"@,
            positional(Seq::empty()),
            MethodReceiver::Instance,
            SystemMethod::Builtin(Builtin::NilInit),
        );
        let s = s.with_system_method(
            s.builtins.NilClass,
            "to_s"@,
            positional(Seq::empty()),
            MethodReceiver::Instance,
            SystemMethod::Builtin(Builtin::NilToS),
        );
        s
    }

    /// The state with the methods of `Bool`.
    pub open spec fn stdlib_bool(self) -> RuntimeModel {
        let s = self;
        let s = s.with_system_method(
            s.builtins.Bool,
            "__not__"@,
            positional(Seq::empty()),
            MethodReceiver::Instance,
            SystemMethod::Builtin(Builtin::BoolNot),
        );
        let s = s.with_system_method(
            s.builtins.Bool,
            "init"@,
            positional(Seq::empty()),
            MethodReceiver::Instance,
            SystemMethod::Builtin(Builtin::BoolInit),
        );
        let s = s.with_system_method(
            s.builtins.Bool,
            "to_s"@,
            positional(Seq::empty()),
            MethodReceiver::Instance,
            SystemMethod::Builtin(Builtin::BoolToS),
        );
        s
    }

    /// The state with the methods of `Array`.
    pub open spec fn stdlib_array(self) -> RuntimeModel {
        let s = self;
        let s = s.with_system_method(
            s.builtins.Array,
            "to_s"@,
            positional(Seq::empty()),
            MethodReceiver::Instance,
            SystemMethod::Builtin(Builtin::ArrayToS),
        );
        let s = s.with_system_method(
            s.builtins.Array,
            "__index__"@,
            positional(seq!["index"@]),
            MethodReceiver::Instance,
            SystemMethod::Host(function::ARRAY_INDEX),
        );
        let s = s.with_system_method(
            s.builtins.Array,
            "__add__"@,
            positional(seq!["other"@]),
            MethodReceiver::Instance,
            SystemMethod::Builtin(Builtin::ArrayAdd),
        );
        let s = s.with_system_method(
            s.builtins.Array,
            "init"@,
            positional(Seq::empty()),
            MethodReceiver::Instance,
            SystemMethod::Builtin(Builtin::ArrayInit),
        );
        let s = s.with_system_method(
            s.builtins.Array,
            "push"@,
            positional(seq!["element"@]),
            MethodReceiver::Instance,
            SystemMethod::Builtin(Builtin::ArrayPush),
        );
        let s = s.with_system_method(
            s.builtins.Array,
            "pop"@,
            positional(Seq::empty()),
            MethodReceiver::Instance,
            SystemMethod::Builtin(Builtin::ArrayPop),
        );
        let s = s.with_system_method(
            s.builtins.Array,
            "len"@,
            positional(Seq::empty()),
            MethodReceiver::Instance,
            SystemMethod::Host(function::ARRAY_LEN),
        );
        let s = s.with_system_method(
            s.builtins.Array,
            "iter"@,
            positional(Seq::empty()),
            MethodReceiver::Instance,
            SystemMethod::Builtin(Builtin::ArrayIter),
        );
        s
    }

    /// The state with the methods of `ArrayIter`.
    pub open spec fn stdlib_array_iter(self) -> RuntimeModel {
        let s = self;
        let s = s.with_system_method(
            s.builtins.ArrayIter,
            "next"@,
            positional(Seq::empty()),
            MethodReceiver::Instance,
            SystemMethod::Builtin(Builtin::ArrayIterNext),
        );
        s
    }

    /// The state with the methods of `Class`.
    pub open spec fn stdlib_class(self) -> RuntimeModel {
        let s = self;
        let s = s.with_system_method(
            s.builtins.Class,
            "to_s"@,
            positional(Seq::empty()),
            MethodReceiver::Instance,
            SystemMethod::Builtin(Builtin::ClassToS),
        );
        s
    }

    /// The state with the methods of `Dictionary`.
    pub open spec fn stdlib_dictionary(self) -> RuntimeModel {
        let s = self;
        let s = s.with_system_method(
            s.builtins.Dictionary,
            "init"@,
            positional(Seq::empty()),
            MethodReceiver::Instance,
            SystemMethod::Builtin(Builtin::DictionaryInit),
        );
        let s = s.with_system_method(
            s.builtins.Dictionary,
            "__index__"@,
            positional(seq!["key"@]),
            MethodReceiver::Instance,
            SystemMethod::Builtin(Builtin::DictionaryIndex),
        );
        let s = s.with_system_method(
            s.builtins.Dictionary,
            "__set_index__"@,
            positional(seq!["key"@, "value"@]),
            MethodReceiver::Instance,
            SystemMethod::Builtin(Builtin::DictionarySetIndex),
        );
        let s = s.with_system_method(
            s.builtins.Dictionary,
            "to_s"@,
            positional(Seq::empty()),
            MethodReceiver::Instance,
            SystemMethod::Builtin(Builtin::DictionaryToS),
        );
        s
    }

    /// The state with the methods of `Tuple`.
    pub open spec fn stdlib_tuple(self) -> RuntimeModel {
        let s = self;
        let s = s.with_system_method(
            s.builtins.Tuple,
            "to_s"@,
            positional(Seq::empty()),
            MethodReceiver::Instance,
            SystemMethod::Builtin(Builtin::TupleToS),
        );
        s
    }

    /// The state with the methods of `Method` and `IO`.
    pub open spec fn stdlib_io(self) -> RuntimeModel {
        let s = self;
        let s = s.with_system_method(
            s.builtins.Method,
            "__call__"@,
            vararg("args"@),
            MethodReceiver::Instance,
            SystemMethod::BoundCall,
        );
        let s = s.with_system_method(
            s.builtins.IO,
            "print"@,
            vararg("args"@),
            MethodReceiver::Class,
            SystemMethod::Host(function::IO_PRINT),
        );
        let s = s.with_system_method(
            s.builtins.IO,
            "println"@,
            vararg("args"@),
            MethodReceiver::Class,
            SystemMethod::Host(function::IO_PRINTLN),
        );
        let s = s.with_system_method(
            s.builtins.IO,
            "debug"@,
            vararg("args"@),
            MethodReceiver::Class,
            SystemMethod::Host(function::IO_DEBUG),
        );
        s
    }

    /// The state with the standard library: every built-in class with its
    /// methods.
    pub open spec fn bootstrap_stdlib(self) -> RuntimeModel {
        self.stdlib_number().stdlib_string().stdlib_object().stdlib_nil().stdlib_bool().stdlib_array().stdlib_array_iter().stdlib_class().stdlib_dictionary().stdlib_tuple().stdlib_io()
    }
}

impl Runtime {
    fn register(
        &mut self,
        class: ObjectRef,
        name: &str,
        params: Vec<Param>,
        receiver: MethodReceiver,
        body: SystemMethod,
    )
        requires
            old(self).wf(),
            old(self)@.contains(class),
        ensures
            final(self).wf(),
            old(self)@.grows_to(final(self)@),
            final(self)@ == old(self)@.with_system_method(
                class,
                name@,
                params_view(params@),
                receiver,
                body,
            ),
    {
        let _ = self.define_method(
            class,
            receiver,
            name.to_owned(),
            params,
            MethodBody::System(body),
        );
    }

    fn stdlib_number(&mut self)
        requires
            old(self).wf(),
        ensures
            final(self).wf(),
            final(self)@ == old(self)@.stdlib_number(),
    {
        self.register(
            self.builtins().Number,
            "init",
            no_params(),
            MethodReceiver::Instance,
            SystemMethod::Host(function::NUMBER_INIT),
        );
        self.register(
            self.builtins().Number,
            "__eq__",
            one_param("other"),
            MethodReceiver::Instance,
            SystemMethod::Host(function::NUMBER_EQ),
        );
        self.register(
            self.builtins().Number,
            "__neq__",
            one_param("other"),
            MethodReceiver::Instance,
            SystemMethod::Host(function::NUMBER_NEQ),
        );
        self.register(
            self.builtins().Number,
            "__lt__",
            one_param("other"),
            MethodReceiver::Instance,
            SystemMethod::Host(function::NUMBER_LT),
        );
        self.register(
            self.builtins().Number,
            "__lte__",
            one_param("other"),
            MethodReceiver::Instance,
            SystemMethod::Host(function::NUMBER_LTE),
        );
        self.register(
            self.builtins().Number,
            "__gt__",
            one_param("other"),
            MethodReceiver::Instance,
            SystemMethod::Host(function::NUMBER_GT),
        );
        self.register(
            self.builtins().Number,
            "__gte__",
            one_param("other"),
            MethodReceiver::Instance,
            SystemMethod::Host(function::NUMBER_GTE),
        );
        self.register(
            self.builtins().Number,
            "__add__",
            one_param("other"),
            MethodReceiver::Instance,
            SystemMethod::Host(function::NUMBER_ADD),
        );
        self.register(
            self.builtins().Number,
            "__sub__",
            one_param("other"),
            MethodReceiver::Instance,
            SystemMethod::Host(function::NUMBER_SUB),
        );
        self.register(
            self.builtins().Number,
            "__mul__",
            one_param("other"),
            MethodReceiver::Instance,
            SystemMethod::Host(function::NUMBER_MUL),
        );
        self.register(
            self.builtins().Number,
            "__div__",
            one_param("other"),
            MethodReceiver::Instance,
            SystemMethod::Host(function::NUMBER_DIV),
        );
        self.register(
            self.builtins().Number,
            "__neg__",
            no_params(),
            MethodReceiver::Instance,
            SystemMethod::Host(function::NUMBER_NEG),
        );
        self.register(
            self.builtins().Number,
            "round",
            no_params(),
            MethodReceiver::Instance,
            SystemMethod::Host(function::NUMBER_ROUND),
        );
        self.register(
            self.builtins().Number,
            "ceil",
            no_params(),
            MethodReceiver::Instance,
            SystemMethod::Host(function::NUMBER_CEIL),
        );
        self.register(
            self.builtins().Number,
            "floor",
            no_params(),
            MethodReceiver::Instance,
            SystemMethod::Host(function::NUMBER_FLOOR),
        );
        self.register(
            self.builtins().Number,
            "pow",
            one_param("power"),
            MethodReceiver::Instance,
            SystemMethod::Host(function::NUMBER_POW),
        );
        self.register(
            self.builtins().Number,
            "to_s",
            no_params(),
            MethodReceiver::Instance,
            SystemMethod::Host(function::NUMBER_TO_S),
        );
    }

    fn stdlib_string(&mut self)
        requires
            old(self).wf(),
        ensures
            final(self).wf(),
            final(self)@ == old(self)@.stdlib_string(),
    {
        self.register(
            self.builtins().String,
            "init",
            no_params(),
            MethodReceiver::Instance,
            SystemMethod::Builtin(Builtin::StringInit),
        );
        self.register(
            self.builtins().String,
            "trim",
            no_params(),
            MethodReceiver::Instance,
            SystemMethod::Builtin(Builtin::StringTrim),
        );
        self.register(
            self.builtins().String,
            "__eq__",
            one_param("other"),
            MethodReceiver::Instance,
            SystemMethod::Builtin(Builtin::StringEq),
        );
        self.register(
            self.builtins().String,
            "__neq__",
            one_param("other"),
            MethodReceiver::Instance,
            SystemMethod::Builtin(Builtin::StringNeq),
        );
        self.register(
            self.builtins().String,
            "__add__",
            one_param("other"),
            MethodReceiver::Instance,
            SystemMethod::Builtin(Builtin::StringAdd),
        );
        self.register(
            self.builtins().String,
            "to_s",
            no_params(),
            MethodReceiver::Instance,
            SystemMethod::Builtin(Builtin::StringToS),
        );
    }

    fn stdlib_object(&mut self)
        requires
            old(self).wf(),
        ensures
            final(self).wf(),
            final(self)@ == old(self)@.stdlib_object(),
    {
        self.register(
            self.builtins().Object,
            "__debug__",
            no_params(),
            MethodReceiver::Instance,
            SystemMethod::Builtin(Builtin::ObjectDebug),
        );
        self.register(
            self.builtins().Object,
            "__eq__",
            one_param("other"),
            MethodReceiver::Instance,
            SystemMethod::Builtin(Builtin::ObjectEq),
        );
        self.register(
            self.builtins().Object,
            "__neq__",
            one_param("other"),
            MethodReceiver::Instance,
            SystemMethod::Builtin(Builtin::ObjectNeq),
        );
        self.register(
            self.builtins().Object,
            "to_s",
            no_params(),
            MethodReceiver::Instance,
            SystemMethod::Builtin(Builtin::ObjectToS),
        );
    }

    fn stdlib_nil(&mut self)
        requires
            old(self).wf(),
        ensures
            final(self).wf(),
            final(self)@ == old(self)@.stdlib_nil(),
    {
        self.register(
            self.builtins().NilClass,
            "init",
            no_params(),
            MethodReceiver::Instance,
            SystemMethod::Builtin(Builtin::NilInit),
        );
        self.register(
            self.builtins().NilClass,
            "to_s",
            no_params(),
            MethodReceiver::Instance,
            SystemMethod::Builtin(Builtin::NilToS),
        );
    }

    fn stdlib_bool(&mut self)
        requires
            old(self).wf(),
        ensures
            final(self).wf(),
            final(self)@ == old(self)@.stdlib_bool(),
    {
        self.register(
            self.builtins().Bool,
            "__not__",
            no_params(),
            MethodReceiver::Instance,
            SystemMethod::Builtin(Builtin::BoolNot),
        );
        self.register(
            self.builtins().Bool,
            "init",
            no_params(),
            MethodReceiver::Instance,
            SystemMethod::Builtin(Builtin::BoolInit),
        );
        self.register(
            self.builtins().Bool,
            "to_s",
            no_params(),
            MethodReceiver::Instance,
            SystemMethod::Builtin(Builtin::BoolToS),
        );
    }

    fn stdlib_array(&mut self)
        requires
            old(self).wf(),
        ensures
            final(self).wf(),
            final(self)@ == old(self)@.stdlib_array(),
    {
        self.register(
            self.builtins().Array,
            "to_s",
            no_params(),
            MethodReceiver::Instance,
            SystemMethod::Builtin(Builtin::ArrayToS),
        );
        self.register(
            self.builtins().Array,
            "__index__",
            one_param("index"),
            MethodReceiver::Instance,
            SystemMethod::Host(function::ARRAY_INDEX),
        );
        self.register(
            self.builtins().Array,
            "__add__",
            one_param("other"),
            MethodReceiver::Instance,
            SystemMethod::Builtin(Builtin::ArrayAdd),
        );
        self.register(
            self.builtins().Array,
            "init",
            no_params(),
            MethodReceiver::Instance,
            SystemMethod::Builtin(Builtin::ArrayInit),
        );
        self.register(
            self.builtins().Array,
            "push",
            one_param("element"),
            MethodReceiver::Instance,
            SystemMethod::Builtin(Builtin::ArrayPush),
        );
        self.register(
            self.builtins().Array,
            "pop",
            no_params(),
            MethodReceiver::Instance,
            SystemMethod::Builtin(Builtin::ArrayPop),
        );
        self.register(
            self.builtins().Array,
            "len",
            no_params(),
            MethodReceiver::Instance,
            SystemMethod::Host(function::ARRAY_LEN),
        );
        self.register(
            self.builtins().Array,
            "iter",
            no_params(),
            MethodReceiver::Instance,
            SystemMethod::Builtin(Builtin::ArrayIter),
        );
    }

    fn stdlib_array_iter(&mut self)
        requires
            old(self).wf(),
        ensures
            final(self).wf(),
            final(self)@ == old(self)@.stdlib_array_iter(),
    {
        self.register(
            self.builtins().ArrayIter,
            "next",
            no_params(),
            MethodReceiver::Instance,
            SystemMethod::Builtin(Builtin::ArrayIterNext),
        );
    }

    fn stdlib_class(&mut self)
        requires
            old(self).wf(),
        ensures
            final(self).wf(),
            final(self)@ == old(self)@.stdlib_class(),
    {
        self.register(
            self.builtins().Class,
            "to_s",
            no_params(),
            MethodReceiver::Instance,
            SystemMethod::Builtin(Builtin::ClassToS),
        );
    }

    fn stdlib_dictionary(&mut self)
        requires
            old(self).wf(),
        ensures
            final(self).wf(),
            final(self)@ == old(self)@.stdlib_dictionary(),
    {
        self.register(
            self.builtins().Dictionary,
            "init",
            no_params(),
            MethodReceiver::Instance,
            SystemMethod::Builtin(Builtin::DictionaryInit),
        );
        self.register(
            self.builtins().Dictionary,
            "__index__",
            one_param("key"),
            MethodReceiver::Instance,
            SystemMethod::Builtin(Builtin::DictionaryIndex),
        );
        self.register(
            self.builtins().Dictionary,
            "__set_index__",
            two_params("key", "value"),
            MethodReceiver::Instance,
            SystemMethod::Builtin(Builtin::DictionarySetIndex),
        );
        self.register(
            self.builtins().Dictionary,
            "to_s",
            no_params(),
            MethodReceiver::Instance,
            SystemMethod::Builtin(Builtin::DictionaryToS),
        );
    }

    fn stdlib_tuple(&mut self)
        requires
            old(self).wf(),
        ensures
            final(self).wf(),
            final(self)@ == old(self)@.stdlib_tuple(),
    {
        self.register(
            self.builtins().Tuple,
            "to_s",
            no_params(),
            MethodReceiver::Instance,
            SystemMethod::Builtin(Builtin::TupleToS),
        );
    }

    fn stdlib_io(&mut self)
        requires
            old(self).wf(),
        ensures
            final(self).wf(),
            final(self)@ == old(self)@.stdlib_io(),
    {
        self.register(
            self.builtins().Method,
            "__call__",
            vararg_param("args"),
            MethodReceiver::Instance,
            SystemMethod::BoundCall,
        );
        self.register(
            self.builtins().IO,
            "print",
            vararg_param("args"),
            MethodReceiver::Class,
            SystemMethod::Host(function::IO_PRINT),
        );
        self.register(
            self.builtins().IO,
            "println",
            vararg_param("args"),
            MethodReceiver::Class,
            SystemMethod::Host(function::IO_PRINTLN),
        );
        self.register(
            self.builtins().IO,
            "debug",
            vararg_param("args"),
            MethodReceiver::Class,
            SystemMethod::Host(function::IO_DEBUG),
        );
    }

    /// Gives the built-in classes their methods.
    pub(crate) fn bootstrap_stdlib(&mut self)
        requires
            old(self).wf(),
        ensures
            final(self).wf(),
            final(self)@ == old(self)@.bootstrap_stdlib(),
    {
        self.stdlib_number();
        self.stdlib_string();
        self.stdlib_object();
        self.stdlib_nil();
        self.stdlib_bool();
        self.stdlib_array();
        self.stdlib_array_iter();
        self.stdlib_class();
        self.stdlib_dictionary();
        self.stdlib_tuple();
        self.stdlib_io();
    }
}

} // verus!
