//! The evaluator: runs statements and evaluates expressions against the
//! runtime's objects and scopes.

use crate::runtime::builtin;
use crate::runtime::closure::{
    closed_vars_in_block, find_closed_vars_in_block, names_view, variable_names,
};
use crate::runtime::error::{unit_outcome, Error, ErrorModel, Outcome};
use crate::runtime::host::{done_ok, error_ok, outcome, outcome_ok, SystemHost};
use crate::runtime::model::{
    entries_map, entries_ok, lemma_entries_map_ok, map_ok, ref_ok, FrameModel, RuntimeModel,
};
use crate::runtime::object::{
    method_view, params_view, MethodBody, MethodModel, MethodReceiver, MethodRef, ObjectRef,
    Param, SystemMethod,
};
use crate::runtime::semantics;
use crate::runtime::{entries_view, Runtime, StackFrame};
use crate::text::{decimal, join3, same_text};
use crate::types::{
    Access, Assignment, Binary, Binding, Block, Call, ClassDefinition, Closure, Expression, ForIn,
    Ident, IfElse, Index, LValue, Literal, MaybeNodeMeta, MethodDefinition, Node, NodeMeta,
    Operator, Path, Program, Return, Statement, Unary, Use, Variable, WhileLoop,
};
use std::ops::ControlFlow;
use std::rc::Rc;
use vstd::hash_map::StringHashMap;
use vstd::prelude::*;
use vstd::string::StringExecFns;

verus! {

impl Runtime {
    /// The text that diagnostics show for `object`.
    pub fn debug_text(&self, object: ObjectRef) -> (r: String)
        requires
            self.wf(),
            self@.contains(object),
        ensures
            r@ == semantics::debug_text(self@, object),
    {
        let class = self.class_of(object);
        let mut r = join3("#<", self.display_name(class).as_str(), " ");
        r.append(decimal(object.id).as_str());
        r.append(">");
        r
    }

    /// The method that makes `object` callable: its own `__call__`, or else
    /// the one that its class resolves.
    pub fn resolve_callable(&self, object: ObjectRef) -> (r: Option<MethodRef>)
        requires
            self.wf(),
            self@.contains(object),
        ensures
            method_view(r) == self@.resolve_callable(object),
            r matches Some(method) ==> self@.contains(method.class),
    {
        match self.resolve_method(object, builtin::op::__call__) {
            Some(method) => Some(method),
            None => self.resolve_method(self.class_of(object), builtin::op::__call__),
        }
    }

    /// Makes the string objects for the names of `variables`, in order.
    fn intern_all(&mut self, variables: &Vec<Node<Variable>>) -> (r: Vec<ObjectRef>)
        requires
            old(self).wf(),
        ensures
            final(self).wf(),
            old(self)@.grows_to(final(self)@),
            final(self)@.contains_all(r@),
            (final(self)@, r@) == old(self)@.intern_all(
                variable_names(variables@),
                0,
                Seq::empty(),
            ),
    {
        let mut done: Vec<ObjectRef> = Vec::new();
        let mut i: usize = 0;
        while i < variables.len()
            invariant
                self.wf(),
                i <= variables.len(),
                old(self)@.grows_to(self@),
                self@.contains_all(done@),
                self@.intern_all(variable_names(variables@), i as nat, done@) == old(self)@.intern_all(
                    variable_names(variables@),
                    0,
                    Seq::empty(),
                ),
            decreases variables.len() - i,
        {
            let r = self.create_string(variables[i].v.ident.v.name.as_str());
            done.push(r);
            i = i + 1;
        }
        done
    }

    /// Copies into `object` the current value of each of `names` that
    /// resolves.
    fn capture(&mut self, object: ObjectRef, names: &Vec<String>)
        requires
            old(self).wf(),
            old(self)@.contains(object),
        ensures
            final(self).wf(),
            old(self)@.grows_to(final(self)@),
            final(self)@ == old(self)@.capture(object, names_view(names@), 0),
    {
        let mut i: usize = 0;
        while i < names.len()
            invariant
                self.wf(),
                i <= names.len(),
                old(self)@.grows_to(self@),
                self@.contains(object),
                self@.capture(object, names_view(names@), i as nat) == old(self)@.capture(
                    object,
                    names_view(names@),
                    0,
                ),
            decreases names.len() - i,
        {
            if let Some(value) = self.resolve_variable(names[i].as_str()) {
                self.set_property(object, names[i].clone(), value);
            }
            i = i + 1;
        }
    }

    /// Attaches a method definition to `class`.
    fn exec_method_def(&mut self, class: ObjectRef, definition: &MethodDefinition) -> (r: Result<
        (),
        Error,
    >)
        requires
            old(self).wf(),
            old(self)@.contains(class),
        ensures
            final(self).wf(),
            old(self)@.grows_to(final(self)@),
            (final(self)@, unit_outcome(r)) == old(self)@.exec_method_def(class, *definition),
    {
        let mut params: Vec<Param> = Vec::new();
        let mut i: usize = 0;
        while i < definition.parameters.len()
            invariant
                i <= definition.parameters.len(),
                params.len() == i,
                params_view(params@) == semantics::declared_params(
                    definition.parameters@,
                ).take(i as int),
            decreases definition.parameters.len() - i,
        {
            let ghost before = params@;
            params.push(Param::Positional(definition.parameters[i].v.name.v.name.clone()));
            proof {
                let declared = semantics::declared_params(definition.parameters@);
                assert forall|k: int| 0 <= k < i + 1 implies params_view(params@)[k] == declared.take(
                    i + 1,
                )[k] by {
                    if k < i {
                        assert(params_view(before)[k] == declared.take(i as int)[k]);
                    }
                }
                assert(params_view(params@) =~= declared.take(i + 1));
            }
            i = i + 1;
        }
        proof {
            assert(semantics::declared_params(definition.parameters@).take(i as int)
                =~= semantics::declared_params(definition.parameters@));
        }
        let receiver = if definition.is_class_method || self.current_class()
            == self.builtins().Main {
            MethodReceiver::Class
        } else {
            MethodReceiver::Instance
        };
        self.define_method(
            class,
            receiver,
            definition.name.v.name.clone(),
            params,
            MethodBody::User(Rc::clone(&definition.body)),
        )
    }

    /// The items of `object` if it holds a list.
    pub fn array_items(&self, object: ObjectRef) -> (r: Option<Vec<ObjectRef>>)
        requires
            self.wf(),
            self@.contains(object),
        ensures
            r is Some == self@.object(object).array() is Some,
            r is Some ==> r.unwrap()@ == self@.object(object).array().unwrap() && self@.contains_all(
                r.unwrap()@,
            ),
    {
        proof {
            self@.lemma_object_ok(object);
        }
        match self.object(object).array() {
            Some(items) => {
                let mut copy: Vec<ObjectRef> = Vec::new();
                let mut i: usize = 0;
                while i < items.len()
                    invariant
                        i <= items.len(),
                        copy@ == items@.take(i as int),
                    decreases items.len() - i,
                {
                    copy.push(items[i]);
                    proof {
                        assert(copy@ =~= items@.take(i + 1));
                    }
                    i = i + 1;
                }
                proof {
                    assert(items@.take(i as int) =~= items@);
                }
                Some(copy)
            },
            None => None,
        }
    }

    /// The entries of the dictionary that `object` holds, in the order in
    /// which their names came.
    pub fn dictionary_entries(&self, object: ObjectRef) -> (r: Option<Vec<(String, Option<ObjectRef>)>>)
        requires
            self.wf(),
            self@.contains(object),
        ensures
            r is Some == self@.object(object).dictionary() is Some,
            r matches Some(entries) ==> {
                let table = self@.object(object).dictionary().unwrap();
                &&& entries.len() == table.names.len()
                &&& forall|k: int|
                    0 <= k < entries.len() ==> (#[trigger] entries@[k]).0@ == table.names[k]
                        && table.get(table.names[k]) == entries@[k].1 && (entries@[k].1 matches Some(
                        value,
                    ) ==> self@.contains(value))
            },
    {
        proof {
            self@.lemma_object_ok(object);
        }
        match self.object(object).dictionary() {
            Some(table) => {
                let mut entries: Vec<(String, Option<ObjectRef>)> = Vec::new();
                let mut i: usize = 0;
                while i < table.len()
                    invariant
                        i <= table@.names.len(),
                        entries.len() == i,
                        map_ok(table@.entries, self@.heap.len()),
                        forall|k: int|
                            0 <= k < i ==> (#[trigger] entries@[k]).0@ == table@.names[k] && table@.get(
                                table@.names[k],
                            ) == entries@[k].1 && (entries@[k].1 matches Some(value)
                                ==> self@.contains(value)),
                    decreases table@.names.len() - i,
                {
                    let name = table.name_at(i);
                    let value = table.get(name.as_str());
                    entries.push((name.clone(), value));
                    i = i + 1;
                }
                Some(entries)
            },
            None => None,
        }
    }

    /// Makes a closure object.
    fn create_closure(&mut self, closure: &Closure) -> (r: Result<ObjectRef, Error>)
        requires
            old(self).wf(),
        ensures
            final(self).wf(),
            old(self)@.grows_to(final(self)@),
            outcome_ok(final(self)@, outcome(r)),
            (final(self)@, outcome(r)) == old(self)@.create_closure(*closure),
    {
        let object = self.create_object(self.builtins().Closure);
        let names = self.intern_all(&closure.binding);
        let binding = self.create_tuple(names);
        let closed = find_closed_vars_in_block(&closure.body.v);
        self.capture(object, &closed);
        self.set_property(object, builtin::property::__binding__.to_owned(), binding);
        let mut params: Vec<Param> = Vec::new();
        let mut i: usize = 0;
        while i < closure.binding.len()
            invariant
                i <= closure.binding.len(),
                params.len() == i,
                params_view(params@) == semantics::binding_params(closure.binding@).take(i as int),
            decreases closure.binding.len() - i,
        {
            let ghost before = params@;
            params.push(Param::Positional(closure.binding[i].v.ident.v.name.clone()));
            proof {
                let declared = semantics::binding_params(closure.binding@);
                assert forall|k: int| 0 <= k < i + 1 implies params_view(params@)[k] == declared.take(
                    i + 1,
                )[k] by {
                    if k < i {
                        assert(params_view(before)[k] == declared.take(i as int)[k]);
                    }
                }
                assert(params_view(params@) =~= declared.take(i + 1));
            }
            i = i + 1;
        }
        proof {
            assert(semantics::binding_params(closure.binding@).take(i as int)
                =~= semantics::binding_params(closure.binding@));
        }
        match self.define_method(
            object,
            MethodReceiver::Instance,
            builtin::op::__call__.to_owned(),
            params,
            MethodBody::User(Rc::clone(&closure.body)),
        ) {
            Ok(()) => Ok(object),
            Err(error) => Err(error),
        }
    }

    /// The class that the first `n` components of a path name.
    fn resolve_class_from_path(
        &mut self,
        path: &Node<Path>,
        n: usize,
    ) -> (r: Result<ObjectRef, Error>)
        requires
            old(self).wf(),
        ensures
            final(self).wf(),
            old(self)@.grows_to(final(self)@),
            outcome_ok(final(self)@, outcome(r)),
            (final(self)@, outcome(r)) == old(self)@.resolve_class_from_path(*path, n as nat),
    {
        if n == 0 || n > path.v.components.len() {
            return Err(
                Error::SyntaxError {
                    reason: semantics::EMPTY_PATH,
                    node: MaybeNodeMeta(Some(path.meta.clone())),
                },
            );
        }
        let first = &path.v.components[0];
        let mut receiver = match self.resolve_variable(first.v.ident.v.name.as_str()) {
            Some(receiver) => receiver,
            None => {
                return Err(
                    Error::NoSuchVariable {
                        name: first.v.ident.v.name.clone(),
                        node: first.meta.clone(),
                    },
                );
            },
        };
        let ghost start = receiver;
        let mut i: usize = 1;
        while i < n
            invariant
                self.wf(),
                1 <= i <= n <= path.v.components.len(),
                self@.contains(receiver),
                old(self)@.grows_to(self@),
                old(self)@.resolve_variable(
                    path.v.components[0].v.ident.v.name@,
                ) == (self@, Some(start)),
                self@.walk_path(*path, receiver, i as nat, n as nat) == self@.walk_path(
                    *path,
                    start,
                    1,
                    n as nat,
                ),
            decreases n - i,
        {
            let member = &path.v.components[i].v.ident.v.name;
            match self.get_property(receiver, member.as_str()) {
                None => {
                    return Err(
                        Error::UndefinedProperty {
                            target: self.debug_text(receiver),
                            member: member.clone(),
                            node: path.meta.clone(),
                        },
                    );
                },
                Some(child) => {
                    if !self.is_class(child) {
                        return Err(
                            Error::BadPath { non_class: member.clone(), path: path.meta.clone() },
                        );
                    }
                    receiver = child;
                },
            }
            i = i + 1;
        }
        Ok(receiver)
    }

    /// Binds each of the variables to the item at its place.
    fn define_all(&mut self, variables: &Vec<Node<Variable>>, items: &Vec<ObjectRef>)
        requires
            old(self).wf(),
            old(self)@.contains_all(items@),
            items.len() == variables.len(),
        ensures
            final(self).wf(),
            old(self)@.grows_to(final(self)@),
            final(self)@ == old(self)@.define_all(variable_names(variables@), items@, 0),
    {
        let mut i: usize = 0;
        while i < variables.len()
            invariant
                self.wf(),
                i <= variables.len(),
                items.len() == variables.len(),
                old(self)@.grows_to(self@),
                self@.contains_all(items@),
                self@.define_all(variable_names(variables@), items@, i as nat) == old(self)@.define_all(
                    variable_names(variables@),
                    items@,
                    0,
                ),
            decreases variables.len() - i,
        {
            self.define_variable(variables[i].v.ident.v.name.clone(), items[i]);
            i = i + 1;
        }
    }

    /// Assigns to each of the variables the item at its place.
    fn assign_all(&mut self, variables: &Vec<Node<Variable>>, items: &Vec<ObjectRef>)
        requires
            old(self).wf(),
            old(self)@.contains_all(items@),
            items.len() == variables.len(),
        ensures
            final(self).wf(),
            old(self)@.grows_to(final(self)@),
            final(self)@ == old(self)@.assign_all(variable_names(variables@), items@, 0),
    {
        let mut i: usize = 0;
        while i < variables.len()
            invariant
                self.wf(),
                i <= variables.len(),
                items.len() == variables.len(),
                old(self)@.grows_to(self@),
                self@.contains_all(items@),
                self@.assign_all(variable_names(variables@), items@, i as nat) == old(self)@.assign_all(
                    variable_names(variables@),
                    items@,
                    0,
                ),
            decreases variables.len() - i,
        {
            self.assign_variable(variables[i].v.ident.v.name.clone(), items[i]);
            i = i + 1;
        }
    }

    /// Binds the loop variables of a `for` loop to an item.
    fn bind_item(&mut self, for_in: &Node<ForIn>, item: ObjectRef) -> (r: Result<(), Error>)
        requires
            old(self).wf(),
            old(self)@.contains(item),
        ensures
            final(self).wf(),
            old(self)@.grows_to(final(self)@),
            done_ok(final(self)@, unit_outcome(r)),
            (final(self)@, unit_outcome(r)) == semantics::bind_item(old(self)@, *for_in, item),
    {
        if for_in.v.binding.len() == 1 {
            self.define_variable(for_in.v.binding[0].v.ident.v.name.clone(), item);
            return Ok(());
        }
        if self.class_of(item) == self.builtins().Tuple {
            if let Some(items) = self.array_items(item) {
                if items.len() != for_in.v.binding.len() {
                    return Err(
                        Error::BadIterator {
                            reason: semantics::BINDING_ARITY,
                            node: for_in.meta.clone(),
                        },
                    );
                }
                self.define_all(&for_in.v.binding, &items);
                return Ok(());
            }
        }
        Err(Error::BadIterator { reason: semantics::UNBINDABLE, node: for_in.meta.clone() })
    }

    /// The local variables of a call: each parameter bound to its argument.
    fn bind_arguments(
        params: &Vec<Param>,
        arguments: &Vec<ObjectRef>,
    ) -> (r: StringHashMap<ObjectRef>)
        requires
            params.len() == arguments.len(),
        ensures
            r@ == semantics::bind_params(params_view(params@), arguments@),
    {
        let mut variables: StringHashMap<ObjectRef> = StringHashMap::new();
        let ghost pairs = Seq::new(
            params.len() as nat,
            |i: int| (params_view(params@)[i].name(), arguments@[i]),
        );
        let mut i: usize = 0;
        while i < params.len()
            invariant
                i <= params.len(),
                params.len() == arguments.len(),
                pairs == Seq::new(
                    params.len() as nat,
                    |i: int| (params_view(params@)[i].name(), arguments@[i]),
                ),
                variables@ == entries_map(pairs.take(i as int)),
            decreases params.len() - i,
        {
            variables.insert(params[i].name().clone(), arguments[i]);
            proof {
                assert(pairs.take(i + 1).drop_last() =~= pairs.take(i as int));
                assert(pairs.take(i + 1).last() == pairs[i as int]);
            }
            i = i + 1;
        }
        proof {
            assert(pairs.take(i as int) =~= pairs);
        }
        variables
    }

    /// What a call of a user method yields, given what its body came to.
    fn call_result(&self, is_init: bool, receiver: ObjectRef, body: Result<ObjectRef, Error>) -> (r:
        Result<ObjectRef, Error>)
        ensures
            outcome(r) == semantics::call_result(self@, is_init, receiver, outcome(body)),
    {
        if is_init {
            match body {
                Ok(_) => Ok(receiver),
                Err(Error::ReturnFromMethod { retval: None, .. }) => Ok(receiver),
                Err(Error::ReturnFromMethod { retval: Some(_), node }) => Err(
                    Error::ReturnFromInitializer { node },
                ),
                Err(error) => Err(error),
            }
        } else {
            match body {
                Err(Error::ReturnFromMethod { retval: Some(value), .. }) => Ok(value),
                Err(Error::ReturnFromMethod { retval: None, .. }) => Ok(self.nil()),
                other => other,
            }
        }
    }

    /// The error of a call that finds no method.
    fn no_such_method(&self, class: ObjectRef, name: &str, node: Option<NodeMeta>) -> (e: Error)
        requires
            self.wf(),
            self@.contains(class),
        ensures
            e@ == semantics::no_such_method(self@, class, name@, node),
    {
        Error::NoSuchMethod {
            node: MaybeNodeMeta(node),
            search: join3(self.display_name(class).as_str(), ".", name),
        }
    }

    /// Calls `method` on `receiver`.
    ///
    /// The receiver must be of the method's kind. For a user body the
    /// number of arguments must be the number of parameters; the body runs
    /// in a new frame that holds the receiver and the arguments. A
    /// constructor yields the receiver; another method yields what its body
    /// returns, or `nil`. A system body gets the arguments as they are.
    /// The frame of the call is gone when the call ends, however it ends. A
    /// call that needs more than `budget` fails with `BudgetExhausted`.
    pub fn call_method<H: SystemHost>(
        &mut self,
        host: &H,
        receiver: ObjectRef,
        method: MethodRef,
        arguments: Vec<ObjectRef>,
        budget: usize,
    ) -> (r: Result<ObjectRef, Error>)
        requires
            old(self).wf(),
            old(self)@.contains(receiver),
            old(self)@.contains(method.class),
            old(self)@.contains_all(arguments@),
        ensures
            final(self).wf(),
            old(self)@.grows_to(final(self)@),
            outcome_ok(final(self)@, outcome(r)),
            (final(self)@, outcome(r)) == semantics::call_method(
                *host,
                old(self)@,
                receiver,
                method@,
                arguments@,
                budget as nat,
            ),
        decreases budget, 0nat, 0nat,
    {
        if budget == 0 {
            return Err(Error::BudgetExhausted);
        }
        let kind = if self.is_class(receiver) {
            MethodReceiver::Class
        } else {
            MethodReceiver::Instance
        };
        if kind != method.receiver {
            return Err(
                Error::NotAClassMethod {
                    class_name: self.display_name(method.class),
                    method_name: method.name.clone(),
                },
            );
        }
        match &method.body {
            MethodBody::User(body) => {
                if arguments.len() != method.params.len() {
                    return Err(
                        Error::ArityMismatch {
                            class_name: self.display_name(method.class),
                            method_name: method.name.clone(),
                            expected: method.params.len(),
                            actual: arguments.len(),
                        },
                    );
                }
                let variables = Self::bind_arguments(&method.params, &arguments);
                proof {
                    let pairs = Seq::new(
                        method.params.len() as nat,
                        |i: int| (params_view(method.params@)[i].name(), arguments@[i]),
                    );
                    assert(entries_ok(pairs, self@.heap.len()));
                    lemma_entries_map_ok(pairs, self@.heap.len());
                }
                self.push_stack_frame(StackFrame::of_call(receiver, variables));
                let body = Rc::clone(body);
                let result = self.eval_block(host, &body, budget - 1);
                self.pop_stack_frame();
                let is_init = same_text(method.name.as_str(), builtin::method::init);
                self.call_result(is_init, receiver, result)
            },
            MethodBody::System(SystemMethod::DefaultInit) => Ok(receiver),
            MethodBody::System(SystemMethod::BoundCall) => self.bound_call(
                host,
                receiver,
                arguments,
                budget - 1,
            ),
            MethodBody::System(SystemMethod::Builtin(function)) => self.call_builtin(
                host,
                *function,
                receiver,
                method.name.clone(),
                arguments,
                budget - 1,
            ),
            MethodBody::System(SystemMethod::Host(function)) => host.call_system(
                self,
                *function,
                receiver,
                method.name.clone(),
                arguments,
                budget - 1,
            ),
        }
    }

    /// Calls the method that a method object stands for.
    fn bound_call<H: SystemHost>(
        &mut self,
        host: &H,
        method_object: ObjectRef,
        arguments: Vec<ObjectRef>,
        budget: usize,
    ) -> (r: Result<ObjectRef, Error>)
        requires
            old(self).wf(),
            old(self)@.contains(method_object),
            old(self)@.contains_all(arguments@),
        ensures
            final(self).wf(),
            old(self)@.grows_to(final(self)@),
            outcome_ok(final(self)@, outcome(r)),
            (final(self)@, outcome(r)) == semantics::bound_call(
                *host,
                old(self)@,
                method_object,
                arguments@,
                budget as nat,
            ),
        decreases budget, 1nat, 0nat,
    {
        let target = self.get_property(method_object, builtin::property::__receiver__);
        let name = self.name_of(method_object);
        match (target, name) {
            (Some(target), Some(name)) => match self.resolve_method(target, name.as_str()) {
                Some(method) => self.call_method(host, target, method, arguments, budget),
                None => Err(self.no_such_method(target, name.as_str(), None)),
            },
            _ => Err(Error::ObjectNotCallable { node: MaybeNodeMeta(None) }),
        }
    }

    /// Calls a closure object with arguments. Fails with
    /// `ObjectNotCallable` where the object itself resolves no `__call__`.
    pub fn call_closure<H: SystemHost>(
        &mut self,
        host: &H,
        closure: ObjectRef,
        arguments: Vec<ObjectRef>,
        budget: usize,
    ) -> (r: Result<ObjectRef, Error>)
        requires
            old(self).wf(),
            old(self)@.contains(closure),
            old(self)@.contains_all(arguments@),
        ensures
            final(self).wf(),
            old(self)@.grows_to(final(self)@),
            outcome_ok(final(self)@, outcome(r)),
            (final(self)@, outcome(r)) == semantics::call_closure(
                *host,
                old(self)@,
                closure,
                arguments@,
                budget as nat,
            ),
        decreases budget, 1nat, 0nat,
    {
        match self.resolve_method(closure, builtin::op::__call__) {
            Some(method) => self.call_method(host, closure, method, arguments, budget),
            None => Err(Error::ObjectNotCallable { node: MaybeNodeMeta(None) }),
        }
    }

    /// Calls the instance method `method_name` that the class of
    /// `receiver` resolves. Fails with `NoSuchMethod` where the class
    /// resolves none, or one for class receivers.
    pub fn call_instance_method<H: SystemHost>(
        &mut self,
        host: &H,
        receiver: ObjectRef,
        method_name: &str,
        arguments: Vec<ObjectRef>,
        node: Option<NodeMeta>,
        budget: usize,
    ) -> (r: Result<ObjectRef, Error>)
        requires
            old(self).wf(),
            old(self)@.contains(receiver),
            old(self)@.contains_all(arguments@),
        ensures
            final(self).wf(),
            old(self)@.grows_to(final(self)@),
            outcome_ok(final(self)@, outcome(r)),
            (final(self)@, outcome(r)) == semantics::call_instance_method(
                *host,
                old(self)@,
                receiver,
                method_name@,
                arguments@,
                node,
                budget as nat,
            ),
        decreases budget, 1nat, 0nat,
    {
        let class = self.class_of(receiver);
        match self.resolve_method(class, method_name) {
            Some(method) => {
                if method.receiver == MethodReceiver::Instance {
                    self.call_method(host, receiver, method, arguments, budget)
                } else {
                    Err(self.no_such_method(class, method_name, node))
                }
            },
            None => Err(self.no_such_method(class, method_name, node)),
        }
    }

    /// Evaluates the expressions in order. The first error ends it.
    fn eval_expr_list<H: SystemHost>(&mut self, host: &H, exprs: &Vec<Node<Expression>>, budget: usize) -> (r:
        Result<Vec<ObjectRef>, Error>)
        requires
            old(self).wf(),
        ensures
            final(self).wf(),
            old(self)@.grows_to(final(self)@),
            match r {
                Ok(values) => final(self)@.contains_all(values@) && semantics::eval_expr_list(
                    *host,
                    old(self)@,
                    exprs@,
                    0,
                    Seq::empty(),
                    budget as nat,
                ) == (final(self)@, Ok::<Seq<ObjectRef>, ErrorModel>(values@)),
                Err(error) => error_ok(final(self)@, error@) && semantics::eval_expr_list(
                    *host,
                    old(self)@,
                    exprs@,
                    0,
                    Seq::empty(),
                    budget as nat,
                ) == (final(self)@, Err::<Seq<ObjectRef>, ErrorModel>(error@)),
            },
        decreases budget, 1nat, exprs.len(),
    {
        let mut done: Vec<ObjectRef> = Vec::new();
        let mut i: usize = 0;
        while i < exprs.len()
            invariant
                self.wf(),
                i <= exprs.len(),
                old(self)@.grows_to(self@),
                self@.contains_all(done@),
                semantics::eval_expr_list(*host, self@, exprs@, i as nat, done@, budget as nat)
                    == semantics::eval_expr_list(
                    *host,
                    old(self)@,
                    exprs@,
                    0,
                    Seq::empty(),
                    budget as nat,
                ),
            decreases exprs.len() - i,
        {
            match self.eval(host, &exprs[i], budget) {
                Ok(value) => {
                    done.push(value);
                },
                Err(error) => {
                    return Err(error);
                },
            }
            i = i + 1;
        }
        Ok(done)
    }

    /// Evaluates the values of the entries in order.
    fn eval_entries<H: SystemHost>(
        &mut self,
        host: &H,
        entries: &Vec<(Node<Ident>, Node<Expression>)>,
        budget: usize,
    ) -> (r: Result<Vec<(String, ObjectRef)>, Error>)
        requires
            old(self).wf(),
        ensures
            final(self).wf(),
            old(self)@.grows_to(final(self)@),
            match r {
                Ok(values) => entries_ok(entries_view(values@), final(self)@.heap.len())
                    && semantics::eval_entries(
                    *host,
                    old(self)@,
                    entries@,
                    0,
                    Seq::empty(),
                    budget as nat,
                ) == (
                    final(self)@,
                    Ok::<Seq<(Seq<char>, ObjectRef)>, ErrorModel>(entries_view(values@)),
                ),
                Err(error) => error_ok(final(self)@, error@) && semantics::eval_entries(
                    *host,
                    old(self)@,
                    entries@,
                    0,
                    Seq::empty(),
                    budget as nat,
                ) == (final(self)@, Err::<Seq<(Seq<char>, ObjectRef)>, ErrorModel>(error@)),
            },
        decreases budget, 1nat, entries.len(),
    {
        let mut done: Vec<(String, ObjectRef)> = Vec::new();
        let mut i: usize = 0;
        proof {
            assert(entries_view(done@) =~= Seq::<(Seq<char>, ObjectRef)>::empty());
        }
        while i < entries.len()
            invariant
                self.wf(),
                i <= entries.len(),
                old(self)@.grows_to(self@),
                entries_ok(entries_view(done@), self@.heap.len()),
                semantics::eval_entries(
                    *host,
                    self@,
                    entries@,
                    i as nat,
                    entries_view(done@),
                    budget as nat,
                ) == semantics::eval_entries(
                    *host,
                    old(self)@,
                    entries@,
                    0,
                    Seq::empty(),
                    budget as nat,
                ),
            decreases entries.len() - i,
        {
            let ghost before = done@;
            let ghost state = self@;
            match self.eval(host, &entries[i].1, budget) {
                Ok(value) => {
                    done.push((entries[i].0.v.name.clone(), value));
                    proof {
                        assert(entries_view(done@) =~= entries_view(before).push(
                            (entries[i as int].0.v.name@, value),
                        ));
                        assert forall|k: int| 0 <= k < entries_view(done@).len() implies
                            ref_ok(
                            (#[trigger] entries_view(done@)[k]).1,
                            self@.heap.len(),
                        ) by {
                            if k < before.len() {
                                assert(ref_ok(
                                    entries_view(before)[k].1,
                                    state.heap.len(),
                                ));
                            }
                        }
                    }
                },
                Err(error) => {
                    return Err(error);
                },
            }
            i = i + 1;
        }
        Ok(done)
    }

    /// Evaluates a literal.
    fn eval_literal<H: SystemHost>(&mut self, host: &H, literal: &Literal, budget: usize) -> (r: Result<
        ObjectRef,
        Error,
    >)
        requires
            old(self).wf(),
        ensures
            final(self).wf(),
            old(self)@.grows_to(final(self)@),
            outcome_ok(final(self)@, outcome(r)),
            (final(self)@, outcome(r)) == semantics::eval_literal(
                *host,
                old(self)@,
                *literal,
                budget as nat,
            ),
        decreases budget, 2nat, 0nat,
    {
        match literal {
            Literal::StringLit(string) => Ok(self.create_string(string.v.value.as_str())),
            Literal::Number(number) => Ok(self.create_number(number.v.value)),
            Literal::Boolean(boolean) => Ok(self.create_bool(boolean.v.value)),
            Literal::Nil(_) => Ok(self.nil()),
            Literal::Array(array) => match self.eval_expr_list(host, &array.v.elements, budget) {
                Ok(elements) => Ok(self.create_array(elements)),
                Err(error) => Err(error),
            },
            Literal::Tuple(tuple) => match self.eval_expr_list(host, &tuple.v.items, budget) {
                Ok(items) => Ok(self.create_tuple(items)),
                Err(error) => Err(error),
            },
            Literal::Dictionary(dictionary) => match self.eval_entries(
                host,
                &dictionary.v.entries,
                budget,
            ) {
                Ok(entries) => Ok(self.create_dictionary(entries)),
                Err(error) => Err(error),
            },
        }
    }

    /// Evaluates the arguments and calls `method` on `receiver`.
    fn call_with<H: SystemHost>(
        &mut self,
        host: &H,
        receiver: ObjectRef,
        method: MethodRef,
        arguments: &Vec<Node<Expression>>,
        budget: usize,
    ) -> (r: Result<ObjectRef, Error>)
        requires
            old(self).wf(),
            old(self)@.contains(receiver),
            old(self)@.contains(method.class),
        ensures
            final(self).wf(),
            old(self)@.grows_to(final(self)@),
            outcome_ok(final(self)@, outcome(r)),
            (final(self)@, outcome(r)) == semantics::call_with(
                *host,
                old(self)@,
                receiver,
                method@,
                arguments@,
                budget as nat,
            ),
        decreases budget, 2nat, 0nat,
    {
        match self.eval_expr_list(host, arguments, budget) {
            Ok(values) => self.call_method(host, receiver, method, values, budget),
            Err(error) => Err(error),
        }
    }

    /// Makes a new instance of `class` and calls its constructor.
    fn construct<H: SystemHost>(
        &mut self,
        host: &H,
        class: ObjectRef,
        arguments: &Vec<Node<Expression>>,
        budget: usize,
    ) -> (r: Result<ObjectRef, Error>)
        requires
            old(self).wf(),
            old(self)@.contains(class),
        ensures
            final(self).wf(),
            old(self)@.grows_to(final(self)@),
            outcome_ok(final(self)@, outcome(r)),
            (final(self)@, outcome(r)) == semantics::construct(
                *host,
                old(self)@,
                class,
                arguments@,
                budget as nat,
            ),
        decreases budget, 3nat, 0nat,
    {
        let instance = self.create_object(class);
        match self.resolve_method(class, builtin::method::init) {
            Some(method) => self.call_with(host, instance, method, arguments, budget),
            None => match self.eval_expr_list(host, arguments, budget) {
                Ok(_) => Ok(instance),
                Err(error) => Err(error),
            },
        }
    }

    /// Calls an object that is not a class.
    fn call_object<H: SystemHost>(
        &mut self,
        host: &H,
        callable: ObjectRef,
        arguments: &Vec<Node<Expression>>,
        node: &NodeMeta,
        budget: usize,
    ) -> (r: Result<ObjectRef, Error>)
        requires
            old(self).wf(),
            old(self)@.contains(callable),
        ensures
            final(self).wf(),
            old(self)@.grows_to(final(self)@),
            outcome_ok(final(self)@, outcome(r)),
            (final(self)@, outcome(r)) == semantics::call_object(
                *host,
                old(self)@,
                callable,
                arguments@,
                *node,
                budget as nat,
            ),
        decreases budget, 3nat, 0nat,
    {
        match self.resolve_callable(callable) {
            Some(method) => self.call_with(host, callable, method, arguments, budget),
            None => Err(Error::ObjectNotCallable { node: MaybeNodeMeta(Some(node.clone())) }),
        }
    }

    /// The receiver and the method of a call of `name` without a receiver,
    /// where `name` is no variable.
    fn implicit_receiver(&self, name: &str) -> (r: Option<(ObjectRef, MethodRef)>)
        requires
            self.wf(),
        ensures
            match r {
                Some((receiver, method)) => semantics::implicit_receiver(self@, name@) == Some(
                    (receiver, method@),
                ) && self@.contains(receiver) && self@.contains(method.class),
                None => semantics::implicit_receiver(self@, name@) is None,
            },
    {
        if let Some(instance) = self.current_instance() {
            if let Some(method) = self.resolve_method(self.class_of(instance), name) {
                return Some((instance, method));
            }
        }
        self.open_method(name)
    }

    /// Evaluates a call of a name.
    fn call_variable<H: SystemHost>(
        &mut self,
        host: &H,
        call: &Node<Call>,
        var: &Node<Variable>,
        budget: usize,
    ) -> (r: Result<ObjectRef, Error>)
        requires
            old(self).wf(),
        ensures
            final(self).wf(),
            old(self)@.grows_to(final(self)@),
            outcome_ok(final(self)@, outcome(r)),
            (final(self)@, outcome(r)) == semantics::call_variable(
                *host,
                old(self)@,
                *call,
                *var,
                budget as nat,
            ),
        decreases budget, 4nat, 0nat,
    {
        let name = &var.v.ident.v.name;
        match self.resolve_variable(name.as_str()) {
            Some(variable) => {
                if self.is_class(variable) {
                    self.construct(host, variable, &call.v.arguments, budget)
                } else {
                    self.call_object(host, variable, &call.v.arguments, &var.meta, budget)
                }
            },
            None => match self.implicit_receiver(name.as_str()) {
                Some((receiver, method)) => self.call_with(
                    host,
                    receiver,
                    method,
                    &call.v.arguments,
                    budget,
                ),
                None => Err(
                    Error::NoSuchMethod {
                        node: MaybeNodeMeta(Some(call.meta.clone())),
                        search: name.clone(),
                    },
                ),
            },
        }
    }

    /// Evaluates a call of a path.
    fn call_path<H: SystemHost>(
        &mut self,
        host: &H,
        call: &Node<Call>,
        path: &Node<Path>,
        budget: usize,
    ) -> (r: Result<ObjectRef, Error>)
        requires
            old(self).wf(),
        ensures
            final(self).wf(),
            old(self)@.grows_to(final(self)@),
            outcome_ok(final(self)@, outcome(r)),
            (final(self)@, outcome(r)) == semantics::call_path(
                *host,
                old(self)@,
                *call,
                *path,
                budget as nat,
            ),
        decreases budget, 4nat, 0nat,
    {
        let n = path.v.components.len();
        let prefix = if n == 0 {
            0
        } else {
            n - 1
        };
        let class = match self.resolve_class_from_path(path, prefix) {
            Ok(class) => class,
            Err(error) => {
                return Err(error);
            },
        };
        let name = &path.v.components[n - 1].v.ident.v.name;
        if let Some(property) = self.get_property(class, name.as_str()) {
            if self.is_class(property) {
                return self.construct(host, property, &call.v.arguments, budget);
            }
        }
        match self.resolve_method(class, name.as_str()) {
            Some(method) => self.call_with(host, class, method, &call.v.arguments, budget),
            None => Err(
                Error::NoSuchMethod {
                    node: MaybeNodeMeta(Some(call.meta.clone())),
                    search: join3(self.display_name(class).as_str(), "::", name.as_str()),
                },
            ),
        }
    }

    /// Evaluates a call.
    fn eval_call_expr<H: SystemHost>(&mut self, host: &H, call: &Node<Call>, budget: usize) -> (r: Result<
        ObjectRef,
        Error,
    >)
        requires
            old(self).wf(),
        ensures
            final(self).wf(),
            old(self)@.grows_to(final(self)@),
            outcome_ok(final(self)@, outcome(r)),
            (final(self)@, outcome(r)) == semantics::eval_call_expr(
                *host,
                old(self)@,
                *call,
                budget as nat,
            ),
        decreases budget, 5nat, 0nat,
    {
        match &call.v.target.v {
            Expression::Variable(var) => self.call_variable(host, call, var, budget),
            Expression::Path(path) => self.call_path(host, call, path, budget),
            _ => match self.eval(host, &call.v.target, budget) {
                Ok(callable) => self.call_object(
                    host,
                    callable,
                    &call.v.arguments,
                    &call.v.target.meta,
                    budget,
                ),
                Err(error) => Err(error),
            },
        }
    }

    /// Evaluates a member access.
    fn eval_access<H: SystemHost>(&mut self, host: &H, access: &Node<Access>, budget: usize) -> (r: Result<
        ObjectRef,
        Error,
    >)
        requires
            old(self).wf(),
        ensures
            final(self).wf(),
            old(self)@.grows_to(final(self)@),
            outcome_ok(final(self)@, outcome(r)),
            (final(self)@, outcome(r)) == semantics::eval_access(
                *host,
                old(self)@,
                *access,
                budget as nat,
            ),
        decreases budget, 2nat, 0nat,
    {
        let target = match self.eval(host, &access.v.target, budget) {
            Ok(target) => target,
            Err(error) => {
                return Err(error);
            },
        };
        match &access.v.member.v {
            Expression::Variable(var) => {
                let member = &var.v.ident.v.name;
                match self.get_property(target, member.as_str()) {
                    Some(value) => Ok(value),
                    None => Err(
                        Error::UndefinedProperty {
                            target: self.debug_text(target),
                            member: member.clone(),
                            node: access.meta.clone(),
                        },
                    ),
                }
            },
            Expression::Call(call) => {
                let arguments = match self.eval_expr_list(host, &call.v.arguments, budget) {
                    Ok(arguments) => arguments,
                    Err(error) => {
                        return Err(error);
                    },
                };
                match &call.v.target.v {
                    Expression::Variable(var) => self.call_instance_method(
                        host,
                        target,
                        var.v.ident.v.name.as_str(),
                        arguments,
                        Some(call.meta.clone()),
                        budget,
                    ),
                    _ => Err(Error::NotCallable { node: call.v.target.meta.clone() }),
                }
            },
            _ => Err(Error::InvalidMember { node: access.v.member.meta.clone() }),
        }
    }

    /// Evaluates a variable.
    fn eval_variable(&mut self, var: &Node<Variable>) -> (r: Result<ObjectRef, Error>)
        requires
            old(self).wf(),
        ensures
            final(self).wf(),
            old(self)@.grows_to(final(self)@),
            outcome_ok(final(self)@, outcome(r)),
            (final(self)@, outcome(r)) == semantics::eval_variable(old(self)@, *var),
    {
        match self.resolve_variable(var.v.ident.v.name.as_str()) {
            Some(value) => Ok(value),
            None => Err(
                Error::NoSuchVariable { name: var.v.ident.v.name.clone(), node: var.meta.clone() },
            ),
        }
    }

    /// Evaluates a conditional.
    fn eval_if_else<H: SystemHost>(&mut self, host: &H, if_else: &Node<IfElse>, budget: usize) -> (r:
        Result<ObjectRef, Error>)
        requires
            old(self).wf(),
        ensures
            final(self).wf(),
            old(self)@.grows_to(final(self)@),
            outcome_ok(final(self)@, outcome(r)),
            (final(self)@, outcome(r)) == semantics::eval_if_else(
                *host,
                old(self)@,
                *if_else,
                budget as nat,
            ),
        decreases budget, 2nat, 0nat,
    {
        let condition = match self.eval(host, &if_else.v.condition, budget) {
            Ok(condition) => condition,
            Err(error) => {
                return Err(error);
            },
        };
        if self.is_falsy(condition) {
            match &if_else.v.else_body {
                Some(else_body) => self.eval_block(host, else_body, budget),
                None => Ok(self.nil()),
            }
        } else {
            self.eval_block(host, &if_else.v.then_body, budget)
        }
    }

    /// Evaluates a binary operation.
    fn eval_binary<H: SystemHost>(&mut self, host: &H, binary: &Node<Binary>, budget: usize) -> (r:
        Result<ObjectRef, Error>)
        requires
            old(self).wf(),
        ensures
            final(self).wf(),
            old(self)@.grows_to(final(self)@),
            outcome_ok(final(self)@, outcome(r)),
            (final(self)@, outcome(r)) == semantics::eval_binary(
                *host,
                old(self)@,
                *binary,
                budget as nat,
            ),
        decreases budget, 2nat, 0nat,
    {
        let lhs = match self.eval(host, &binary.v.lhs, budget) {
            Ok(lhs) => lhs,
            Err(error) => {
                return Err(error);
            },
        };
        match binary.v.op.v {
            Operator::LogicalOr => {
                if self.is_truthy(lhs) {
                    Ok(lhs)
                } else {
                    self.eval(host, &binary.v.rhs, budget)
                }
            },
            Operator::LogicalAnd => {
                if self.is_falsy(lhs) {
                    Ok(lhs)
                } else {
                    self.eval(host, &binary.v.rhs, budget)
                }
            },
            op => {
                let rhs = match self.eval(host, &binary.v.rhs, budget) {
                    Ok(rhs) => rhs,
                    Err(error) => {
                        return Err(error);
                    },
                };
                match builtin::op::method_for_binary_op(&op) {
                    Some(name) => {
                        let mut arguments: Vec<ObjectRef> = Vec::new();
                        arguments.push(rhs);
                        proof {
                            assert(arguments@ =~= seq![rhs]);
                        }
                        self.call_instance_method(
                            host,
                            lhs,
                            name,
                            arguments,
                            Some(binary.meta.clone()),
                            budget,
                        )
                    },
                    None => Err(
                        Error::SyntaxError {
                            reason: semantics::NOT_BINARY,
                            node: MaybeNodeMeta(Some(binary.meta.clone())),
                        },
                    ),
                }
            },
        }
    }

    /// Evaluates an indexing.
    fn eval_index<H: SystemHost>(&mut self, host: &H, index: &Node<Index>, budget: usize) -> (r:
        Result<ObjectRef, Error>)
        requires
            old(self).wf(),
        ensures
            final(self).wf(),
            old(self)@.grows_to(final(self)@),
            outcome_ok(final(self)@, outcome(r)),
            (final(self)@, outcome(r)) == semantics::eval_index(
                *host,
                old(self)@,
                *index,
                budget as nat,
            ),
        decreases budget, 2nat, 0nat,
    {
        let target = match self.eval(host, &index.v.target, budget) {
            Ok(target) => target,
            Err(error) => {
                return Err(error);
            },
        };
        let place = match self.eval(host, &index.v.index, budget) {
            Ok(place) => place,
            Err(error) => {
                return Err(error);
            },
        };
        let mut arguments: Vec<ObjectRef> = Vec::new();
        arguments.push(place);
        proof {
            assert(arguments@ =~= seq![place]);
        }
        self.call_instance_method(
            host,
            target,
            builtin::op::__index__,
            arguments,
            Some(index.meta.clone()),
            budget,
        )
    }

    /// Evaluates a unary operation.
    fn eval_unary<H: SystemHost>(&mut self, host: &H, unary: &Node<Unary>, budget: usize) -> (r:
        Result<ObjectRef, Error>)
        requires
            old(self).wf(),
        ensures
            final(self).wf(),
            old(self)@.grows_to(final(self)@),
            outcome_ok(final(self)@, outcome(r)),
            (final(self)@, outcome(r)) == semantics::eval_unary(
                *host,
                old(self)@,
                *unary,
                budget as nat,
            ),
        decreases budget, 2nat, 0nat,
    {
        let rhs = match self.eval(host, &unary.v.rhs, budget) {
            Ok(rhs) => rhs,
            Err(error) => {
                return Err(error);
            },
        };
        match builtin::op::method_for_unary_op(&unary.v.op.v) {
            Some(name) => self.call_instance_method(
                host,
                rhs,
                name,
                Vec::new(),
                Some(unary.meta.clone()),
                budget,
            ),
            None => Err(
                Error::SyntaxError {
                    reason: semantics::NOT_UNARY,
                    node: MaybeNodeMeta(Some(unary.meta.clone())),
                },
            ),
        }
    }

    /// Evaluates an expression.
    ///
    /// Operands are evaluated from left to right. `&&` and `||` do not
    /// evaluate the right operand where the left one decides; every other
    /// operator is a call of its method on the left operand. The falsy
    /// objects are `false` and `nil`. An evaluation that needs more nested
    /// steps than `budget`, or a loop that needs more rounds, fails with
    /// `BudgetExhausted`.
    pub fn eval<H: SystemHost>(&mut self, host: &H, expression: &Node<Expression>, budget: usize) -> (r:
        Result<ObjectRef, Error>)
        requires
            old(self).wf(),
        ensures
            final(self).wf(),
            old(self)@.grows_to(final(self)@),
            outcome_ok(final(self)@, outcome(r)),
            (final(self)@, outcome(r)) == semantics::eval(
                *host,
                old(self)@,
                *expression,
                budget as nat,
            ),
        decreases budget, 0nat, 0nat,
    {
        if budget == 0 {
            return Err(Error::BudgetExhausted);
        }
        let b = budget - 1;
        match &expression.v {
            Expression::Variable(var) => self.eval_variable(var),
            Expression::Call(call) => self.eval_call_expr(host, call, b),
            Expression::Literal(literal) => self.eval_literal(host, &literal.v, b),
            Expression::Access(access) => self.eval_access(host, access, b),
            Expression::IfElse(if_else) => self.eval_if_else(host, if_else, b),
            Expression::Binary(binary) => self.eval_binary(host, binary, b),
            Expression::Index(index) => self.eval_index(host, index, b),
            Expression::Unary(unary) => self.eval_unary(host, unary, b),
            Expression::Path(path) => self.resolve_class_from_path(path, path.v.components.len()),
            Expression::Closure(closure) => self.create_closure(&closure.v),
        }
    }

    /// Evaluates a block: runs its statements in order. The block yields
    /// what its last statement yields if that is an expression, and `nil`
    /// otherwise.
    pub fn eval_block<H: SystemHost>(&mut self, host: &H, block: &Node<Block>, budget: usize) -> (r: Result<
        ObjectRef,
        Error,
    >)
        requires
            old(self).wf(),
        ensures
            final(self).wf(),
            old(self)@.grows_to(final(self)@),
            outcome_ok(final(self)@, outcome(r)),
            (final(self)@, outcome(r)) == semantics::eval_block(
                *host,
                old(self)@,
                *block,
                budget as nat,
            ),
        decreases budget, 0nat, 0nat,
    {
        if budget == 0 {
            return Err(Error::BudgetExhausted);
        }
        let b = budget - 1;
        let statements = &block.v.statements;
        let mut i: usize = 0;
        while i < statements.len()
            invariant
                self.wf(),
                i <= statements.len(),
                budget > 0,
                b == budget - 1,
                statements == &block.v.statements,
                old(self)@.grows_to(self@),
                semantics::eval_block_from(*host, self@, statements@, i as nat, b as nat)
                    == semantics::eval_block_from(*host, old(self)@, statements@, 0, b as nat),
            decreases statements.len() - i,
        {
            match &statements[i].v {
                Statement::Expression(expression) if i == statements.len() - 1 => {
                    return self.eval(host, expression, b);
                },
                _ => {
                    match self.exec(host, &statements[i], b) {
                        Ok(()) => {},
                        Err(error) => {
                            return Err(error);
                        },
                    }
                },
            }
            i = i + 1;
        }
        Ok(self.nil())
    }

    /// Runs the statements in order. The first error ends it.
    fn exec_all<H: SystemHost>(&mut self, host: &H, statements: &Vec<Node<Statement>>, budget: usize) -> (r:
        Result<(), Error>)
        requires
            old(self).wf(),
        ensures
            final(self).wf(),
            old(self)@.grows_to(final(self)@),
            done_ok(final(self)@, unit_outcome(r)),
            (final(self)@, unit_outcome(r)) == semantics::exec_all(
                *host,
                old(self)@,
                statements@,
                0,
                budget as nat,
            ),
        decreases budget, 1nat, statements.len(),
    {
        let mut i: usize = 0;
        while i < statements.len()
            invariant
                self.wf(),
                i <= statements.len(),
                old(self)@.grows_to(self@),
                semantics::exec_all(*host, self@, statements@, i as nat, budget as nat)
                    == semantics::exec_all(*host, old(self)@, statements@, 0, budget as nat),
            decreases statements.len() - i,
        {
            match self.exec(host, &statements[i], budget) {
                Ok(()) => {},
                Err(error) => {
                    return Err(error);
                },
            }
            i = i + 1;
        }
        Ok(())
    }

    /// What a loop does after a round of its body: `None` to go on, or the
    /// result to stop with.
    fn after_round(body: Result<ObjectRef, Error>) -> (r: Option<Result<(), Error>>)
        ensures
            match r {
                None => semantics::after_round(outcome(body)) == semantics::Round::Next,
                Some(done) => semantics::after_round(outcome(body)) == semantics::Round::Stop(
                    unit_outcome(done),
                ),
            },
    {
        match body {
            Ok(_) => None,
            Err(Error::ControlFlow(ControlFlow::Continue(()))) => None,
            Err(Error::ControlFlow(ControlFlow::Break(()))) => Some(Ok(())),
            Err(error) => Some(Err(error)),
        }
    }

    /// Runs a `while` loop.
    fn exec_while<H: SystemHost>(&mut self, host: &H, while_loop: &WhileLoop, budget: usize) -> (r:
        Result<(), Error>)
        requires
            old(self).wf(),
        ensures
            final(self).wf(),
            old(self)@.grows_to(final(self)@),
            done_ok(final(self)@, unit_outcome(r)),
            (final(self)@, unit_outcome(r)) == semantics::exec_while(
                *host,
                old(self)@,
                *while_loop,
                budget as nat,
            ),
        decreases budget, 2nat, 0nat,
    {
        self.push_stack_frame(StackFrame::new());
        let ghost start = self@;
        let mut rounds = budget;
        let mut result: Result<(), Error> = Ok(());
        loop
            invariant_except_break
                semantics::while_rounds(*host, self@, *while_loop, rounds as nat, budget as nat)
                    == semantics::while_rounds(
                        *host,
                        start,
                        *while_loop,
                        budget as nat,
                        budget as nat,
                    ),
            invariant
                self.wf(),
                start.grows_to(self@),
            ensures
                done_ok(self@, unit_outcome(result)),
                (self@, unit_outcome(result)) == semantics::while_rounds(
                    *host,
                    start,
                    *while_loop,
                    budget as nat,
                    budget as nat,
                ),
            decreases rounds,
        {
            if rounds == 0 {
                result = Err(Error::BudgetExhausted);
                break ;
            }
            match self.eval(host, &while_loop.condition, budget) {
                Err(error) => {
                    result = Err(error);
                    break ;
                },
                Ok(condition) => {
                    if self.is_falsy(condition) {
                        result = Ok(());
                        break ;
                    }
                },
            }
            let body = self.eval_block(host, &while_loop.body, budget);
            match Self::after_round(body) {
                None => {},
                Some(done) => {
                    result = done;
                    break ;
                },
            }
            rounds = rounds - 1;
        }
        self.pop_stack_frame();
        result
    }

    /// Runs a `for` loop.
    fn exec_for_in<H: SystemHost>(&mut self, host: &H, for_in: &Node<ForIn>, budget: usize) -> (r: Result<
        (),
        Error,
    >)
        requires
            old(self).wf(),
        ensures
            final(self).wf(),
            old(self)@.grows_to(final(self)@),
            done_ok(final(self)@, unit_outcome(r)),
            (final(self)@, unit_outcome(r)) == semantics::exec_for_in(
                *host,
                old(self)@,
                *for_in,
                budget as nat,
            ),
        decreases budget, 2nat, 0nat,
    {
        let iterable = match self.eval(host, &for_in.v.iterable, budget) {
            Ok(iterable) => iterable,
            Err(error) => {
                return Err(error);
            },
        };
        let iter = match self.resolve_method(self.class_of(iterable), builtin::method::iter) {
            Some(iter) => iter,
            None => {
                return Err(
                    Error::BadIterator {
                        reason: semantics::NO_ITER,
                        node: for_in.v.iterable.meta.clone(),
                    },
                );
            },
        };
        let iterator = match self.call_method(host, iterable, iter, Vec::new(), budget) {
            Ok(iterator) => iterator,
            Err(error) => {
                return Err(error);
            },
        };
        let next = match self.resolve_method(self.class_of(iterator), builtin::method::next) {
            Some(next) => next,
            None => {
                return Err(
                    Error::BadIterator {
                        reason: semantics::NO_NEXT,
                        node: for_in.v.iterable.meta.clone(),
                    },
                );
            },
        };
        self.push_stack_frame(StackFrame::new());
        let ghost start = self@;
        let mut rounds = budget;
        let mut result: Result<(), Error> = Ok(());
        loop
            invariant_except_break
                semantics::for_rounds(
                    *host,
                    self@,
                    *for_in,
                    iterator,
                    next@,
                    rounds as nat,
                    budget as nat,
                ) == semantics::for_rounds(
                    *host,
                    start,
                    *for_in,
                    iterator,
                    next@,
                    budget as nat,
                    budget as nat,
                ),
            invariant
                self.wf(),
                start.grows_to(self@),
                start.contains(iterator),
                start.contains(next.class),
            ensures
                done_ok(self@, unit_outcome(result)),
                (self@, unit_outcome(result)) == semantics::for_rounds(
                    *host,
                    start,
                    *for_in,
                    iterator,
                    next@,
                    budget as nat,
                    budget as nat,
                ),
            decreases rounds,
        {
            if rounds == 0 {
                result = Err(Error::BudgetExhausted);
                break ;
            }
            let item = match self.call_method(host, iterator, Rc::clone(&next), Vec::new(), budget) {
                Ok(item) => item,
                Err(error) => {
                    result = Err(error);
                    break ;
                },
            };
            if item == self.nil() {
                result = Ok(());
                break ;
            }
            match self.bind_item(for_in, item) {
                Ok(()) => {},
                Err(error) => {
                    result = Err(error);
                    break ;
                },
            }
            let body = self.eval_block(host, &for_in.v.body, budget);
            match Self::after_round(body) {
                None => {},
                Some(done) => {
                    result = done;
                    break ;
                },
            }
            rounds = rounds - 1;
        }
        self.pop_stack_frame();
        result
    }

    /// Stores `value` in the variables of a binding.
    fn assign_binding<H: SystemHost>(
        &mut self,
        host: &H,
        assignment: &Node<Assignment>,
        binding: &Node<Binding>,
        value: ObjectRef,
        budget: usize,
    ) -> (r: Result<(), Error>)
        requires
            old(self).wf(),
            old(self)@.contains(value),
        ensures
            final(self).wf(),
            old(self)@.grows_to(final(self)@),
            done_ok(final(self)@, unit_outcome(r)),
            (final(self)@, unit_outcome(r)) == semantics::assign_binding(
                *host,
                old(self)@,
                *assignment,
                *binding,
                value,
                budget as nat,
            ),
        decreases budget, 2nat, 0nat,
    {
        let op = builtin::op::method_for_assignment_op(&assignment.v.op.v);
        let variables = &binding.v.variables;
        if variables.len() == 1 {
            let name = &variables[0].v.ident.v.name;
            match op {
                None => {
                    self.assign_variable(name.clone(), value);
                    Ok(())
                },
                Some(method) => {
                    let current = match self.resolve_variable(name.as_str()) {
                        Some(current) => current,
                        None => {
                            return Err(
                                Error::NoSuchVariable {
                                    name: name.clone(),
                                    node: variables[0].meta.clone(),
                                },
                            );
                        },
                    };
                    let mut arguments: Vec<ObjectRef> = Vec::new();
                    arguments.push(value);
                    proof {
                        assert(arguments@ =~= seq![value]);
                    }
                    match self.call_instance_method(
                        host,
                        current,
                        method,
                        arguments,
                        Some(assignment.meta.clone()),
                        budget,
                    ) {
                        Ok(result) => {
                            self.assign_variable(name.clone(), result);
                            Ok(())
                        },
                        Err(error) => Err(error),
                    }
                },
            }
        } else if op.is_some() {
            Err(Error::IllegalAssignmentOperator { node: assignment.v.op.meta.clone() })
        } else {
            if self.class_of(value) == self.builtins().Tuple {
                if let Some(items) = self.array_items(value) {
                    if items.len() == variables.len() {
                        self.assign_all(variables, &items);
                        return Ok(());
                    }
                }
            }
            Err(Error::AssignmentRhsMustBeTuple { node: assignment.v.value.meta.clone() })
        }
    }

    /// Stores `value` under a property of the object that the target of an
    /// access names.
    fn assign_access<H: SystemHost>(
        &mut self,
        host: &H,
        assignment: &Node<Assignment>,
        access: &Node<Access>,
        value: ObjectRef,
        budget: usize,
    ) -> (r: Result<(), Error>)
        requires
            old(self).wf(),
            old(self)@.contains(value),
        ensures
            final(self).wf(),
            old(self)@.grows_to(final(self)@),
            done_ok(final(self)@, unit_outcome(r)),
            (final(self)@, unit_outcome(r)) == semantics::assign_access(
                *host,
                old(self)@,
                *assignment,
                *access,
                value,
                budget as nat,
            ),
        decreases budget, 2nat, 0nat,
    {
        let op = builtin::op::method_for_assignment_op(&assignment.v.op.v);
        let target = match self.eval(host, &access.v.target, budget) {
            Ok(target) => target,
            Err(error) => {
                return Err(error);
            },
        };
        match &access.v.member.v {
            Expression::Variable(member) => {
                let name = &member.v.ident.v.name;
                match op {
                    None => {
                        self.set_property(target, name.clone(), value);
                        Ok(())
                    },
                    Some(method) => {
                        let current = match self.get_property(target, name.as_str()) {
                            Some(current) => current,
                            None => {
                                return Err(
                                    Error::NoSuchProperty {
                                        name: name.clone(),
                                        node: assignment.meta.clone(),
                                    },
                                );
                            },
                        };
                        let mut arguments: Vec<ObjectRef> = Vec::new();
                        arguments.push(value);
                        proof {
                            assert(arguments@ =~= seq![value]);
                        }
                        match self.call_instance_method(
                            host,
                            current,
                            method,
                            arguments,
                            Some(assignment.meta.clone()),
                            budget,
                        ) {
                            Ok(result) => {
                                self.set_property(target, name.clone(), result);
                                Ok(())
                            },
                            Err(error) => Err(error),
                        }
                    },
                }
            },
            _ => Err(Error::IllegalAssignmentTarget { node: access.meta.clone() }),
        }
    }

    /// The value that an assignment to an index stores.
    fn index_value<H: SystemHost>(
        &mut self,
        host: &H,
        assignment: &Node<Assignment>,
        index: &Node<Index>,
        target: ObjectRef,
        place: ObjectRef,
        value: ObjectRef,
        budget: usize,
    ) -> (r: Result<ObjectRef, Error>)
        requires
            old(self).wf(),
            old(self)@.contains(target),
            old(self)@.contains(place),
            old(self)@.contains(value),
        ensures
            final(self).wf(),
            old(self)@.grows_to(final(self)@),
            outcome_ok(final(self)@, outcome(r)),
            (final(self)@, outcome(r)) == semantics::index_value(
                *host,
                old(self)@,
                *assignment,
                *index,
                target,
                place,
                value,
                budget as nat,
            ),
        decreases budget, 2nat, 0nat,
    {
        match builtin::op::method_for_assignment_op(&assignment.v.op.v) {
            None => Ok(value),
            Some(method) => {
                let mut arguments: Vec<ObjectRef> = Vec::new();
                arguments.push(place);
                proof {
                    assert(arguments@ =~= seq![place]);
                }
                let current = match self.call_instance_method(
                    host,
                    target,
                    builtin::op::__index__,
                    arguments,
                    Some(index.meta.clone()),
                    budget,
                ) {
                    Ok(current) => current,
                    Err(error) => {
                        return Err(error);
                    },
                };
                let mut arguments: Vec<ObjectRef> = Vec::new();
                arguments.push(value);
                proof {
                    assert(arguments@ =~= seq![value]);
                }
                self.call_instance_method(
                    host,
                    current,
                    method,
                    arguments,
                    Some(assignment.meta.clone()),
                    budget,
                )
            },
        }
    }

    /// Stores under an index of `target` the value that the assignment
    /// stores.
    fn store_index<H: SystemHost>(
        &mut self,
        host: &H,
        assignment: &Node<Assignment>,
        index: &Node<Index>,
        target: ObjectRef,
        place: ObjectRef,
        value: ObjectRef,
        budget: usize,
    ) -> (r: Result<(), Error>)
        requires
            old(self).wf(),
            old(self)@.contains(target),
            old(self)@.contains(place),
            old(self)@.contains(value),
        ensures
            final(self).wf(),
            old(self)@.grows_to(final(self)@),
            done_ok(final(self)@, unit_outcome(r)),
            (final(self)@, unit_outcome(r)) == semantics::store_index(
                *host,
                old(self)@,
                *assignment,
                *index,
                target,
                place,
                value,
                budget as nat,
            ),
        decreases budget, 3nat, 0nat,
    {
        let result = match self.index_value(host, assignment, index, target, place, value, budget) {
            Ok(result) => result,
            Err(error) => {
                return Err(error);
            },
        };
        let mut arguments: Vec<ObjectRef> = Vec::new();
        arguments.push(place);
        arguments.push(result);
        proof {
            assert(arguments@ =~= seq![place, result]);
        }
        match self.call_instance_method(
            host,
            target,
            builtin::op::__set_index__,
            arguments,
            Some(index.meta.clone()),
            budget,
        ) {
            Ok(_) => Ok(()),
            Err(error) => Err(error),
        }
    }

    /// Stores `value` under an index.
    fn assign_index<H: SystemHost>(
        &mut self,
        host: &H,
        assignment: &Node<Assignment>,
        index: &Node<Index>,
        value: ObjectRef,
        budget: usize,
    ) -> (r: Result<(), Error>)
        requires
            old(self).wf(),
            old(self)@.contains(value),
        ensures
            final(self).wf(),
            old(self)@.grows_to(final(self)@),
            done_ok(final(self)@, unit_outcome(r)),
            (final(self)@, unit_outcome(r)) == semantics::assign_index(
                *host,
                old(self)@,
                *assignment,
                *index,
                value,
                budget as nat,
            ),
        decreases budget, 4nat, 0nat,
    {
        let target = match self.eval(host, &index.v.target, budget) {
            Ok(target) => target,
            Err(error) => {
                return Err(error);
            },
        };
        let place = match self.eval(host, &index.v.index, budget) {
            Ok(place) => place,
            Err(error) => {
                return Err(error);
            },
        };
        self.store_index(host, assignment, index, target, place, value, budget)
    }

    /// Runs an assignment.
    fn exec_assignment<H: SystemHost>(&mut self, host: &H, assignment: &Node<Assignment>, budget: usize) -> (r:
        Result<(), Error>)
        requires
            old(self).wf(),
        ensures
            final(self).wf(),
            old(self)@.grows_to(final(self)@),
            done_ok(final(self)@, unit_outcome(r)),
            (final(self)@, unit_outcome(r)) == semantics::exec_assignment(
                *host,
                old(self)@,
                *assignment,
                budget as nat,
            ),
        decreases budget, 5nat, 0nat,
    {
        let value = match self.eval(host, &assignment.v.value, budget) {
            Ok(value) => value,
            Err(error) => {
                return Err(error);
            },
        };
        match &assignment.v.target.v {
            LValue::Binding(binding) => self.assign_binding(
                host,
                assignment,
                binding,
                value,
                budget,
            ),
            LValue::Access(access) => self.assign_access(host, assignment, access, value, budget),
            LValue::Index(index) => self.assign_index(host, assignment, index, value, budget),
        }
    }

    /// Runs a class definition.
    fn exec_class_def<H: SystemHost>(
        &mut self,
        host: &H,
        definition: &Node<ClassDefinition>,
        budget: usize,
    ) -> (r: Result<(), Error>)
        requires
            old(self).wf(),
        ensures
            final(self).wf(),
            old(self)@.grows_to(final(self)@),
            done_ok(final(self)@, unit_outcome(r)),
            (final(self)@, unit_outcome(r)) == semantics::exec_class_def(
                *host,
                old(self)@,
                *definition,
                budget as nat,
            ),
        decreases budget, 2nat, 0nat,
    {
        let name = &definition.v.name.v.name;
        let class = match self.resolve_variable(name.as_str()) {
            Some(object) => {
                if self.is_class(object) {
                    object
                } else {
                    self.create_simple_class(name.clone())
                }
            },
            None => self.create_simple_class(name.clone()),
        };
        self.push_stack_frame(StackFrame::of_class(class));
        let result = self.exec_all(host, &definition.v.body.v.statements, budget);
        self.pop_stack_frame();
        result
    }

    /// Runs a `return`.
    fn exec_return<H: SystemHost>(&mut self, host: &H, return_stmt: &Node<Return>, budget: usize) -> (r:
        Result<(), Error>)
        requires
            old(self).wf(),
        ensures
            final(self).wf(),
            old(self)@.grows_to(final(self)@),
            done_ok(final(self)@, unit_outcome(r)),
            (final(self)@, unit_outcome(r)) == semantics::exec_return(
                *host,
                old(self)@,
                *return_stmt,
                budget as nat,
            ),
        decreases budget, 2nat, 0nat,
    {
        match &return_stmt.v.retval {
            Some(retval) => match self.eval(host, retval, budget) {
                Ok(value) => Err(
                    Error::ReturnFromMethod { retval: Some(value), node: return_stmt.meta.clone() },
                ),
                Err(error) => Err(error),
            },
            None => Err(Error::ReturnFromMethod { retval: None, node: return_stmt.meta.clone() }),
        }
    }

    /// Runs a `use`.
    fn exec_use(&mut self, use_stmt: &Node<Use>) -> (r: Result<(), Error>)
        requires
            old(self).wf(),
        ensures
            final(self).wf(),
            old(self)@.grows_to(final(self)@),
            done_ok(final(self)@, unit_outcome(r)),
            (final(self)@, unit_outcome(r)) == semantics::exec_use(old(self)@, *use_stmt),
    {
        let path = &use_stmt.v.path;
        match self.resolve_class_from_path(path, path.v.components.len()) {
            Ok(class) => {
                self.open_class(class);
                Ok(())
            },
            Err(error) => Err(error),
        }
    }

    /// Runs a statement.
    ///
    /// A class definition and a loop run in a frame of their own, which is
    /// gone when the statement ends, however it ends. `break`, `continue`
    /// and `return` end the statement with their signal, which the
    /// enclosing loop or call catches. A statement that needs more than
    /// `budget` fails with `BudgetExhausted`.
    pub fn exec<H: SystemHost>(&mut self, host: &H, statement: &Node<Statement>, budget: usize) -> (r: Result<
        (),
        Error,
    >)
        requires
            old(self).wf(),
        ensures
            final(self).wf(),
            old(self)@.grows_to(final(self)@),
            done_ok(final(self)@, unit_outcome(r)),
            (final(self)@, unit_outcome(r)) == semantics::exec(
                *host,
                old(self)@,
                *statement,
                budget as nat,
            ),
        decreases budget, 0nat, 0nat,
    {
        if budget == 0 {
            return Err(Error::BudgetExhausted);
        }
        let b = budget - 1;
        match &statement.v {
            Statement::Expression(expression) => match self.eval(host, expression, b) {
                Ok(_) => Ok(()),
                Err(error) => Err(error),
            },
            Statement::MethodDefinition(definition) => {
                let class = self.current_class();
                self.exec_method_def(class, &definition.v)
            },
            Statement::Assignment(assignment) => self.exec_assignment(host, assignment, b),
            Statement::ClassDefinition(definition) => self.exec_class_def(host, definition, b),
            Statement::ForIn(for_in) => self.exec_for_in(host, for_in, b),
            Statement::WhileLoop(while_loop) => self.exec_while(host, &while_loop.v, b),
            Statement::Break(_) => Err(Error::ControlFlow(ControlFlow::Break(()))),
            Statement::Continue(_) => Err(Error::ControlFlow(ControlFlow::Continue(()))),
            Statement::Use(use_stmt) => self.exec_use(use_stmt),
            Statement::Return(return_stmt) => self.exec_return(host, return_stmt, b),
        }
    }

    /// Runs a program: its statements in order. The first error ends it,
    /// and so does a `break`, a `continue` or a `return` that nothing caught,
    /// which comes out as the error that carries it. A run that needs more
    /// than `budget` fails with `BudgetExhausted`.
    pub fn exec_program<H: SystemHost>(&mut self, host: &H, program: &Node<Program>, budget: usize) -> (r:
        Result<(), Error>)
        requires
            old(self).wf(),
        ensures
            final(self).wf(),
            old(self)@.grows_to(final(self)@),
            (final(self)@, unit_outcome(r)) == semantics::exec_program(
                *host,
                old(self)@,
                *program,
                budget as nat,
            ),
    {
        self.exec_all(host, &program.v.body.v.statements, budget)
    }
}

} // verus!
