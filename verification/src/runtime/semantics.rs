//! What evaluation means: for each kind of statement and expression, the
//! state and the outcome that it leads to.
//!
//! Every function here takes a budget. An evaluation that needs more nested
//! steps than the budget, or a loop that needs more rounds, ends with
//! `BudgetExhausted`.

use crate::runtime::builtin;
use crate::runtime::builtin::op::{assignment_op_method, binary_op_method, unary_op_method};
use crate::runtime::closure::{closed_vars_in_block, variable_names};
use crate::runtime::error::{ErrorModel, Outcome};
use crate::runtime::host::SystemHost;
use crate::runtime::model::{entries_map, FrameModel, RuntimeModel};
use crate::runtime::object::{
    MethodBody, MethodModel, MethodReceiver, ObjectRef, ParamModel, SystemMethod,
};
use crate::runtime::stdlib::builtin_call;
use crate::text::decimal_text;
use crate::types::{
    Access, Assignment, Binary, Binding, Block, Call, ClassDefinition, Closure, Expression, ForIn,
    Ident, IfElse, Index, LValue, Literal, MaybeNodeMeta, MethodDefinition, Node, NodeMeta,
    Operator, Parameter, Path, Program, Return, Statement, Unary, Use, Variable, WhileLoop,
};
use std::ops::ControlFlow;
use vstd::prelude::*;

verus! {

/// The outcome of a statement.
pub type Done = Result<(), ErrorModel>;

/// The reason of the error of a binary operation whose operator has no
/// method.
pub const NOT_BINARY: &'static str = "operator does not combine two operands";

/// The reason of the error of a unary operation whose operator has no
/// method.
pub const NOT_UNARY: &'static str = "operator does not apply to one operand";

/// The reason of the error of a path without components.
pub const EMPTY_PATH: &'static str = "path has no components";

/// The reason of the error of a `for` loop over an object without `iter`.
pub const NO_ITER: &'static str = "iterable has no .iter() method";

/// The reason of the error of a `for` loop whose iterator has no `next`.
pub const NO_NEXT: &'static str = "iterator has no .next() method";

/// The reason of the error of a `for` loop whose item is a tuple of another
/// length than its variables.
pub const BINDING_ARITY: &'static str = "iterator binding arity mismatch";

/// The reason of the error of a `for` loop with several variables whose
/// item is no tuple.
pub const UNBINDABLE: &'static str = "iterator returned unbindable item";

/// The text that diagnostics show for an object: its class and its place in
/// the object table.
pub open spec fn debug_text(s: RuntimeModel, r: ObjectRef) -> Seq<char> {
    "#<"@ + s.display_name(s.class_of(r)) + " "@ + decimal_text(r.id as nat) + ">"@
}

/// The local variables of a call: each parameter bound to its argument.
pub open spec fn bind_params(params: Seq<ParamModel>, arguments: Seq<ObjectRef>) -> Map<
    Seq<char>,
    ObjectRef,
> {
    entries_map(Seq::new(params.len(), |i: int| (params[i].name(), arguments[i])))
}

/// The parameters that a definition declares.
pub open spec fn declared_params(parameters: Seq<Node<Parameter>>) -> Seq<ParamModel> {
    Seq::new(parameters.len(), |i: int| ParamModel::Positional(parameters[i].v.name.v.name@))
}

/// The parameters that a closure's binding declares.
pub open spec fn binding_params(binding: Seq<Node<Variable>>) -> Seq<ParamModel> {
    Seq::new(binding.len(), |i: int| ParamModel::Positional(binding[i].v.ident.v.name@))
}

/// The error of a call that finds no method.
pub open spec fn no_such_method(s: RuntimeModel, class: ObjectRef, name: Seq<char>, node: Option<NodeMeta>) -> ErrorModel {
    ErrorModel::NoSuchMethod { node: MaybeNodeMeta(node), search: s.display_name(
        class,
    ) + "."@ + name }
}

impl RuntimeModel {
    /// The method that makes `r` callable: its own `__call__`, or else the
    /// one that its class resolves.
    pub open spec fn resolve_callable(self, r: ObjectRef) -> Option<MethodModel> {
        match self.resolve_method(r, builtin::op::__call__@) {
            Some(method) => Some(method),
            None => self.resolve_method(self.class_of(r), builtin::op::__call__@),
        }
    }

    /// The first class, from open class `j` of frame `i` backward and then
    /// through the frames outward, that resolves `name` to a method for
    /// class receivers; with that method.
    pub open spec fn find_open_method(self, name: Seq<char>, i: int, j: int) -> Option<
        (ObjectRef, MethodModel),
    >
        decreases i + 1, j + 1,
    {
        if i < 0 {
            None
        } else if j < 0 || j >= self.stack[i].open_classes.len() {
            if i == 0 {
                None
            } else {
                self.find_open_method(name, i - 1, self.stack[i - 1].open_classes.len() - 1)
            }
        } else {
            let class = self.stack[i].open_classes[j];
            match self.resolve_method(class, name) {
                Some(method) => if method.receiver == MethodReceiver::Class {
                    Some((class, method))
                } else {
                    self.find_open_method(name, i, j - 1)
                },
                None => self.find_open_method(name, i, j - 1),
            }
        }
    }

    /// The open class that answers a call of `name` without a receiver.
    pub open spec fn open_method(self, name: Seq<char>) -> Option<(ObjectRef, MethodModel)> {
        let top = self.stack.len() - 1;
        self.find_open_method(name, top, self.stack[top].open_classes.len() - 1)
    }

    /// The string objects for `names` from place `i` on, made in order and
    /// added to `done`.
    pub open spec fn intern_all(self, names: Seq<Seq<char>>, i: nat, done: Seq<ObjectRef>) -> (
        RuntimeModel,
        Seq<ObjectRef>,
    )
        decreases names.len() - i,
    {
        if i >= names.len() {
            (self, done)
        } else {
            let (s, r) = self.create_string(names[i as int]);
            s.intern_all(names, i + 1, done.push(r))
        }
    }

    /// Copies into `object` the current value of each of `names`, from
    /// place `i` on, that resolves.
    pub open spec fn capture(self, object: ObjectRef, names: Seq<Seq<char>>, i: nat) -> RuntimeModel
        decreases names.len() - i,
    {
        if i >= names.len() {
            self
        } else {
            let (s, value) = self.resolve_variable(names[i as int]);
            match value {
                Some(value) => s.set_property(object, names[i as int], value).capture(
                    object,
                    names,
                    i + 1,
                ),
                None => s.capture(object, names, i + 1),
            }
        }
    }

    /// A new closure object: an instance of `Closure` that holds the
    /// current value of every variable that the body reads, the names of
    /// its parameters under `__binding__`, and the body as its own method
    /// `__call__`.
    pub open spec fn create_closure(self, closure: Closure) -> (RuntimeModel, Outcome) {
        let (s, object) = self.create_object(self.builtins.Closure);
        let (s, names) = s.intern_all(variable_names(closure.binding@), 0, Seq::empty());
        let (s, binding) = s.create_tuple(names);
        let s = s.capture(object, closed_vars_in_block(closure.body.v), 0);
        let s = s.set_property(object, builtin::property::__binding__@, binding);
        let (s, defined) = s.define_method(
            object,
            MethodReceiver::Instance,
            builtin::op::__call__@,
            binding_params(closure.binding@),
            MethodBody::User(closure.body),
        );
        match defined {
            Ok(()) => (s, Ok(object)),
            Err(error) => (s, Err(error)),
        }
    }

    /// The class that the components of a path from place `i` up to `n`
    /// lead to, starting from `receiver`. Each component names a property
    /// that is a class.
    pub open spec fn walk_path(
        self,
        path: Node<Path>,
        receiver: ObjectRef,
        i: nat,
        n: nat,
    ) -> Outcome
        decreases n - i,
    {
        if i >= n {
            Ok(receiver)
        } else {
            let member = path.v.components[i as int].v.ident.v.name@;
            match self.object(receiver).get_property(member) {
                None => Err(
                    ErrorModel::UndefinedProperty {
                        target: debug_text(self, receiver),
                        member,
                        node: path.meta,
                    },
                ),
                Some(child) => if !self.is_class(child) {
                    Err(ErrorModel::BadPath { non_class: member, path: path.meta })
                } else {
                    self.walk_path(path, child, i + 1, n)
                },
            }
        }
    }

    /// The class that the first `n` components of a path name: the first
    /// is a variable, each further one a property of the class before it.
    pub open spec fn resolve_class_from_path(self, path: Node<Path>, n: nat) -> (RuntimeModel, Outcome) {
        if n == 0 || n > path.v.components.len() {
            (
                self,
                Err(
                    ErrorModel::SyntaxError {
                        reason: EMPTY_PATH@,
                        node: MaybeNodeMeta(Some(path.meta)),
                    },
                ),
            )
        } else {
            let first = path.v.components[0];
            let name = first.v.ident.v.name@;
            let (s, start) = self.resolve_variable(name);
            match start {
                None => (s, Err(ErrorModel::NoSuchVariable { name, node: first.meta })),
                Some(receiver) => (s, s.walk_path(path, receiver, 1, n)),
            }
        }
    }

    /// Attaches a method definition to `class`. The method is for class
    /// receivers if the definition says so or the current class is `Main`.
    pub open spec fn exec_method_def(self, class: ObjectRef, definition: MethodDefinition) -> (
        RuntimeModel,
        Done,
    ) {
        let receiver = if definition.is_class_method || self.current_class() == self.builtins.Main {
            MethodReceiver::Class
        } else {
            MethodReceiver::Instance
        };
        self.define_method(
            class,
            receiver,
            definition.name.v.name@,
            declared_params(definition.parameters@),
            MethodBody::User(definition.body),
        )
    }

    /// Binds each of `names`, from place `i` on, to the item at its place.
    pub open spec fn define_all(
        self,
        names: Seq<Seq<char>>,
        items: Seq<ObjectRef>,
        i: nat,
    ) -> RuntimeModel
        decreases names.len() - i,
    {
        if i >= names.len() {
            self
        } else {
            self.define_variable(names[i as int], items[i as int]).define_all(names, items, i + 1)
        }
    }

    /// Assigns to each of `names`, from place `i` on, the item at its
    /// place.
    pub open spec fn assign_all(
        self,
        names: Seq<Seq<char>>,
        items: Seq<ObjectRef>,
        i: nat,
    ) -> RuntimeModel
        decreases names.len() - i,
    {
        if i >= names.len() {
            self
        } else {
            self.assign_variable(names[i as int], items[i as int]).assign_all(names, items, i + 1)
        }
    }

    /// The items of `r` if it is a tuple of `n` items.
    pub open spec fn tuple_items(self, r: ObjectRef, n: nat) -> Option<Seq<ObjectRef>> {
        if self.class_of(r) == self.builtins.Tuple {
            match self.object(r).array() {
                Some(items) => if items.len() == n {
                    Some(items)
                } else {
                    None
                },
                None => None,
            }
        } else {
            None
        }
    }
}

/// What a loop does after a round of its body: go on, stop, or fail.
pub ghost enum Round {
    Next,
    Stop(Done),
}

/// A `break` stops the loop, a `continue` or a normal end goes on to the
/// next round, and anything else stops the loop with that error.
pub open spec fn after_round(r: Outcome) -> Round {
    match r {
        Ok(_) => Round::Next,
        Err(ErrorModel::ControlFlow(ControlFlow::Continue(()))) => Round::Next,
        Err(ErrorModel::ControlFlow(ControlFlow::Break(()))) => Round::Stop(Ok(())),
        Err(error) => Round::Stop(Err(error)),
    }
}

/// What a call of a user method yields, given what its body came to. A
/// constructor yields the receiver unless its body returns a value, which
/// is an error; another method yields what its body returns, or `nil`.
pub open spec fn call_result(s: RuntimeModel, is_init: bool, receiver: ObjectRef, body: Outcome) -> Outcome {
    if is_init {
        match body {
            Ok(_) => Ok(receiver),
            Err(ErrorModel::ReturnFromMethod { retval: None, .. }) => Ok(receiver),
            Err(ErrorModel::ReturnFromMethod { retval: Some(_), node }) => Err(
                ErrorModel::ReturnFromInitializer { node },
            ),
            Err(error) => Err(error),
        }
    } else {
        match body {
            Err(ErrorModel::ReturnFromMethod { retval: Some(value), .. }) => Ok(value),
            Err(ErrorModel::ReturnFromMethod { retval: None, .. }) => Ok(s.builtins.nil),
            other => other,
        }
    }
}

/// The kind of method that can be called on `receiver`.
pub open spec fn receiver_kind(s: RuntimeModel, receiver: ObjectRef) -> MethodReceiver {
    if s.is_class(receiver) {
        MethodReceiver::Class
    } else {
        MethodReceiver::Instance
    }
}

/// Calls `method` on `receiver`.
///
/// The receiver must be of the method's kind. For a user body the number of
/// arguments must be the number of parameters; the body runs in a new frame
/// that holds the receiver and the arguments, and the frame is gone when the
/// call ends, however it ends. A system body gets the arguments as they
/// are.
pub open spec fn call_method<H: SystemHost>(
    h: H,
    s: RuntimeModel,
    receiver: ObjectRef,
    method: MethodModel,
    arguments: Seq<ObjectRef>,
    budget: nat,
) -> (RuntimeModel, Outcome)
    decreases budget, 0nat, 0nat,
{
    if budget == 0 {
        (s, Err(ErrorModel::BudgetExhausted))
    } else if receiver_kind(s, receiver) != method.receiver {
        (
            s,
            Err(
                ErrorModel::NotAClassMethod {
                    class_name: s.display_name(method.class),
                    method_name: method.name,
                },
            ),
        )
    } else {
        match method.body {
            MethodBody::User(body) => if arguments.len() != method.params.len() {
                (
                    s,
                    Err(
                        ErrorModel::ArityMismatch {
                            class_name: s.display_name(method.class),
                            method_name: method.name,
                            expected: method.params.len() as usize,
                            actual: arguments.len() as usize,
                        },
                    ),
                )
            } else {
                let s = s.push_frame(
                    FrameModel::of_call(receiver, bind_params(method.params, arguments)),
                );
                let (s, r) = eval_block(h, s, *body, (budget - 1) as nat);
                let s = s.pop_frame();
                (s, call_result(s, method.name == builtin::method::init@, receiver, r))
            },
            MethodBody::System(SystemMethod::DefaultInit) => (s, Ok(receiver)),
            MethodBody::System(SystemMethod::BoundCall) => bound_call(
                h,
                s,
                receiver,
                arguments,
                (budget - 1) as nat,
            ),
            MethodBody::System(SystemMethod::Builtin(function)) => builtin_call(
                h,
                s,
                function,
                receiver,
                method.name,
                arguments,
                (budget - 1) as nat,
            ),
            MethodBody::System(SystemMethod::Host(function)) => h.system_call(
                s,
                function,
                receiver,
                method.name,
                arguments,
                (budget - 1) as nat,
            ),
        }
    }
}

/// Calls the method that a method object stands for: the method named by
/// its property `__name__`, on the object under its property
/// `__receiver__`.
pub open spec fn bound_call<H: SystemHost>(
    h: H,
    s: RuntimeModel,
    method_object: ObjectRef,
    arguments: Seq<ObjectRef>,
    budget: nat,
) -> (RuntimeModel, Outcome)
    decreases budget, 1nat, 0nat,
{
    match (
        s.object(method_object).get_property(builtin::property::__receiver__@),
        s.name_of(method_object),
    ) {
        (Some(target), Some(name)) => match s.resolve_method(target, name) {
            Some(method) => call_method(h, s, target, method, arguments, budget),
            None => (s, Err(no_such_method(s, target, name, None))),
        },
        _ => (s, Err(ErrorModel::ObjectNotCallable { node: MaybeNodeMeta(None) })),
    }
}

/// Calls a closure object with arguments: a call of the method `__call__`
/// that the object itself resolves.
pub open spec fn call_closure<H: SystemHost>(
    h: H,
    s: RuntimeModel,
    closure: ObjectRef,
    arguments: Seq<ObjectRef>,
    budget: nat,
) -> (RuntimeModel, Outcome)
    decreases budget, 1nat, 0nat,
{
    match s.resolve_method(closure, builtin::op::__call__@) {
        Some(method) => call_method(h, s, closure, method, arguments, budget),
        None => (s, Err(ErrorModel::ObjectNotCallable { node: MaybeNodeMeta(None) })),
    }
}

/// Calls the instance method `name` that the class of `receiver` resolves.
pub open spec fn call_instance_method<H: SystemHost>(
    h: H,
    s: RuntimeModel,
    receiver: ObjectRef,
    name: Seq<char>,
    arguments: Seq<ObjectRef>,
    node: Option<NodeMeta>,
    budget: nat,
) -> (RuntimeModel, Outcome)
    decreases budget, 1nat, 0nat,
{
    let class = s.class_of(receiver);
    match s.resolve_method(class, name) {
        Some(method) => if method.receiver == MethodReceiver::Instance {
            call_method(h, s, receiver, method, arguments, budget)
        } else {
            (s, Err(no_such_method(s, class, name, node)))
        },
        None => (s, Err(no_such_method(s, class, name, node))),
    }
}

/// Evaluates the expressions from place `i` on, in order, and adds what
/// they yield to `done`. The first error ends it.
pub open spec fn eval_expr_list<H: SystemHost>(
    h: H,
    s: RuntimeModel,
    exprs: Seq<Node<Expression>>,
    i: nat,
    done: Seq<ObjectRef>,
    budget: nat,
) -> (RuntimeModel, Result<Seq<ObjectRef>, ErrorModel>)
    decreases budget, 1nat, exprs.len() - i,
{
    if i >= exprs.len() {
        (s, Ok(done))
    } else {
        let (s, r) = eval(h, s, exprs[i as int], budget);
        match r {
            Ok(value) => eval_expr_list(h, s, exprs, i + 1, done.push(value), budget),
            Err(error) => (s, Err(error)),
        }
    }
}

/// Evaluates the values of the entries from place `i` on, in order, and
/// adds each with its key to `done`.
pub open spec fn eval_entries<H: SystemHost>(
    h: H,
    s: RuntimeModel,
    entries: Seq<(Node<Ident>, Node<Expression>)>,
    i: nat,
    done: Seq<(Seq<char>, ObjectRef)>,
    budget: nat,
) -> (RuntimeModel, Result<Seq<(Seq<char>, ObjectRef)>, ErrorModel>)
    decreases budget, 1nat, entries.len() - i,
{
    if i >= entries.len() {
        (s, Ok(done))
    } else {
        let (s, r) = eval(h, s, entries[i as int].1, budget);
        match r {
            Ok(value) => eval_entries(
                h,
                s,
                entries,
                i + 1,
                done.push((entries[i as int].0.v.name@, value)),
                budget,
            ),
            Err(error) => (s, Err(error)),
        }
    }
}

/// Evaluates a literal. Booleans and `nil` are the built-in objects, a
/// string is the string table's object for its text, and every other
/// literal is a new object.
pub open spec fn eval_literal<H: SystemHost>(h: H, s: RuntimeModel, literal: Literal, budget: nat) -> (
    RuntimeModel,
    Outcome,
)
    decreases budget, 2nat, 0nat,
{
    match literal {
        Literal::StringLit(string) => {
            let (s, r) = s.create_string(string.v.value@);
            (s, Ok(r))
        },
        Literal::Number(number) => {
            let (s, r) = s.create_number(number.v.value);
            (s, Ok(r))
        },
        Literal::Boolean(boolean) => (s, Ok(s.create_bool(boolean.v.value))),
        Literal::Nil(_) => (s, Ok(s.builtins.nil)),
        Literal::Array(array) => {
            let (s, r) = eval_expr_list(h, s, array.v.elements@, 0, Seq::empty(), budget);
            match r {
                Ok(elements) => {
                    let (s, r) = s.create_array(elements);
                    (s, Ok(r))
                },
                Err(error) => (s, Err(error)),
            }
        },
        Literal::Tuple(tuple) => {
            let (s, r) = eval_expr_list(h, s, tuple.v.items@, 0, Seq::empty(), budget);
            match r {
                Ok(items) => {
                    let (s, r) = s.create_tuple(items);
                    (s, Ok(r))
                },
                Err(error) => (s, Err(error)),
            }
        },
        Literal::Dictionary(dictionary) => {
            let (s, r) = eval_entries(h, s, dictionary.v.entries@, 0, Seq::empty(), budget);
            match r {
                Ok(entries) => {
                    let (s, r) = s.create_dictionary(entries);
                    (s, Ok(r))
                },
                Err(error) => (s, Err(error)),
            }
        },
    }
}

/// Evaluates the arguments and calls `method` on `receiver`.
pub open spec fn call_with<H: SystemHost>(
    h: H,
    s: RuntimeModel,
    receiver: ObjectRef,
    method: MethodModel,
    arguments: Seq<Node<Expression>>,
    budget: nat,
) -> (RuntimeModel, Outcome)
    decreases budget, 2nat, 0nat,
{
    let (s, r) = eval_expr_list(h, s, arguments, 0, Seq::empty(), budget);
    match r {
        Ok(values) => call_method(h, s, receiver, method, values, budget),
        Err(error) => (s, Err(error)),
    }
}

/// Makes a new instance of `class`, evaluates the arguments and calls the
/// constructor that the class resolved before them. A class without a
/// constructor takes any arguments and yields the instance.
pub open spec fn construct<H: SystemHost>(
    h: H,
    s: RuntimeModel,
    class: ObjectRef,
    arguments: Seq<Node<Expression>>,
    budget: nat,
) -> (RuntimeModel, Outcome)
    decreases budget, 3nat, 0nat,
{
    let (s, instance) = s.create_object(class);
    match s.resolve_method(class, builtin::method::init@) {
        Some(method) => call_with(h, s, instance, method, arguments, budget),
        None => {
            let (s, r) = eval_expr_list(h, s, arguments, 0, Seq::empty(), budget);
            match r {
                Ok(_) => (s, Ok(instance)),
                Err(error) => (s, Err(error)),
            }
        },
    }
}

/// Calls an object that is not a class, by the method that makes it
/// callable.
pub open spec fn call_object<H: SystemHost>(
    h: H,
    s: RuntimeModel,
    callable: ObjectRef,
    arguments: Seq<Node<Expression>>,
    node: NodeMeta,
    budget: nat,
) -> (RuntimeModel, Outcome)
    decreases budget, 3nat, 0nat,
{
    match s.resolve_callable(callable) {
        Some(method) => call_with(h, s, callable, method, arguments, budget),
        None => (s, Err(ErrorModel::ObjectNotCallable { node: MaybeNodeMeta(Some(node)) })),
    }
}

/// The receiver and the method of a call of `name` without a receiver,
/// where `name` is no variable: the current receiver with the method that
/// its class resolves, or else the open class that answers.
pub open spec fn implicit_receiver(s: RuntimeModel, name: Seq<char>) -> Option<(ObjectRef, MethodModel)> {
    let own = match s.current_instance() {
        Some(instance) => match s.resolve_method(s.class_of(instance), name) {
            Some(method) => Some((instance, method)),
            None => None,
        },
        None => None,
    };
    match own {
        Some(found) => Some(found),
        None => s.open_method(name),
    }
}

/// Evaluates a call of a name. If the name is a variable that holds a
/// class, the class is constructed; if it holds another object, that object
/// is called; else, if the class of the current receiver resolves the name,
/// that method is called on the receiver; else the open classes are
/// searched.
pub open spec fn call_variable<H: SystemHost>(
    h: H,
    s: RuntimeModel,
    call: Node<Call>,
    var: Node<Variable>,
    budget: nat,
) -> (RuntimeModel, Outcome)
    decreases budget, 4nat, 0nat,
{
    let arguments = call.v.arguments@;
    let name = var.v.ident.v.name@;
    let (s, found) = s.resolve_variable(name);
    match found {
        Some(variable) => if s.is_class(variable) {
            construct(h, s, variable, arguments, budget)
        } else {
            call_object(h, s, variable, arguments, var.meta, budget)
        },
        None => match implicit_receiver(s, name) {
            Some((receiver, method)) => call_with(h, s, receiver, method, arguments, budget),
            None => (
                s,
                Err(ErrorModel::NoSuchMethod { node: MaybeNodeMeta(
                    Some(call.meta),
                ), search: name }),
            ),
        },
    }
}

/// Evaluates a call of a path. The components before the last name a
/// class. If that class has a class under the last component as a property,
/// that class is constructed; else the method that the class resolves under
/// the last component is called on it.
pub open spec fn call_path<H: SystemHost>(
    h: H,
    s: RuntimeModel,
    call: Node<Call>,
    path: Node<Path>,
    budget: nat,
) -> (RuntimeModel, Outcome)
    decreases budget, 4nat, 0nat,
{
    let arguments = call.v.arguments@;
    let n = path.v.components.len();
    let (s, r) = s.resolve_class_from_path(path, (n - 1) as nat);
    match r {
        Err(error) => (s, Err(error)),
        Ok(class) => {
            let name = path.v.components[n - 1].v.ident.v.name@;
            let nested = match s.object(class).get_property(name) {
                Some(property) => if s.is_class(property) {
                    Some(property)
                } else {
                    None
                },
                None => None,
            };
            match nested {
                Some(property) => construct(h, s, property, arguments, budget),
                None => match s.resolve_method(class, name) {
                    Some(method) => call_with(h, s, class, method, arguments, budget),
                    None => (
                        s,
                        Err(
                            ErrorModel::NoSuchMethod {
                                node: MaybeNodeMeta(Some(call.meta)),
                                search: s.display_name(class) + "::"@ + name,
                            },
                        ),
                    ),
                },
            }
        },
    }
}

/// Evaluates a call. A target that is neither a name nor a path is
/// evaluated and called.
pub open spec fn eval_call_expr<H: SystemHost>(h: H, s: RuntimeModel, call: Node<Call>, budget: nat) -> (
    RuntimeModel,
    Outcome,
)
    decreases budget, 5nat, 0nat,
{
    match call.v.target.v {
        Expression::Variable(var) => call_variable(h, s, call, var, budget),
        Expression::Path(path) => call_path(h, s, call, path, budget),
        _ => {
            let (s, r) = eval(h, s, *call.v.target, budget);
            match r {
                Err(error) => (s, Err(error)),
                Ok(callable) => call_object(
                    h,
                    s,
                    callable,
                    call.v.arguments@,
                    call.v.target.meta,
                    budget,
                ),
            }
        },
    }
}

/// Evaluates a member access: a property of the target, or a call of an
/// instance method on it.
pub open spec fn eval_access<H: SystemHost>(h: H, s: RuntimeModel, access: Node<Access>, budget: nat) -> (
    RuntimeModel,
    Outcome,
)
    decreases budget, 2nat, 0nat,
{
    let (s, r) = eval(h, s, *access.v.target, budget);
    match r {
        Err(error) => (s, Err(error)),
        Ok(target) => match access.v.member.v {
            Expression::Variable(var) => {
                let member = var.v.ident.v.name@;
                match s.object(target).get_property(member) {
                    Some(value) => (s, Ok(value)),
                    None => (
                        s,
                        Err(
                            ErrorModel::UndefinedProperty {
                                target: debug_text(s, target),
                                member,
                                node: access.meta,
                            },
                        ),
                    ),
                }
            },
            Expression::Call(call) => {
                let (s, r) = eval_expr_list(h, s, call.v.arguments@, 0, Seq::empty(), budget);
                match r {
                    Err(error) => (s, Err(error)),
                    Ok(arguments) => match call.v.target.v {
                        Expression::Variable(var) => call_instance_method(
                            h,
                            s,
                            target,
                            var.v.ident.v.name@,
                            arguments,
                            Some(call.meta),
                            budget,
                        ),
                        _ => (s, Err(ErrorModel::NotCallable { node: call.v.target.meta })),
                    },
                }
            },
            _ => (s, Err(ErrorModel::InvalidMember { node: access.v.member.meta })),
        },
    }
}

/// Evaluates a variable.
pub open spec fn eval_variable(s: RuntimeModel, var: Node<Variable>) -> (RuntimeModel, Outcome) {
    let name = var.v.ident.v.name@;
    let (s, r) = s.resolve_variable(name);
    match r {
        Some(value) => (s, Ok(value)),
        None => (s, Err(ErrorModel::NoSuchVariable { name, node: var.meta })),
    }
}

/// Evaluates a conditional. It yields what the branch that runs yields,
/// and `nil` where the condition is falsy and there is no `else`.
pub open spec fn eval_if_else<H: SystemHost>(h: H, s: RuntimeModel, if_else: Node<IfElse>, budget: nat) -> (
    RuntimeModel,
    Outcome,
)
    decreases budget, 2nat, 0nat,
{
    let (s, r) = eval(h, s, *if_else.v.condition, budget);
    match r {
        Err(error) => (s, Err(error)),
        Ok(condition) => if s.is_falsy(condition) {
            match if_else.v.else_body {
                Some(else_body) => eval_block(h, s, else_body, budget),
                None => (s, Ok(s.builtins.nil)),
            }
        } else {
            eval_block(h, s, if_else.v.then_body, budget)
        },
    }
}

/// Evaluates a binary operation. The left operand comes first. `||`
/// yields a truthy left operand and `&&` a falsy one without evaluating the
/// right operand; every other operator is a call of its method on the left
/// operand with the right one.
pub open spec fn eval_binary<H: SystemHost>(h: H, s: RuntimeModel, binary: Node<Binary>, budget: nat) -> (
    RuntimeModel,
    Outcome,
)
    decreases budget, 2nat, 0nat,
{
    let (s, r) = eval(h, s, *binary.v.lhs, budget);
    match r {
        Err(error) => (s, Err(error)),
        Ok(lhs) => match binary.v.op.v {
            Operator::LogicalOr => if s.is_truthy(lhs) {
                (s, Ok(lhs))
            } else {
                eval(h, s, *binary.v.rhs, budget)
            },
            Operator::LogicalAnd => if s.is_falsy(lhs) {
                (s, Ok(lhs))
            } else {
                eval(h, s, *binary.v.rhs, budget)
            },
            op => {
                let (s, r) = eval(h, s, *binary.v.rhs, budget);
                match r {
                    Err(error) => (s, Err(error)),
                    Ok(rhs) => match binary_op_method(op) {
                        Some(name) => call_instance_method(
                            h,
                            s,
                            lhs,
                            name,
                            seq![rhs],
                            Some(binary.meta),
                            budget,
                        ),
                        None => (
                            s,
                            Err(
                                ErrorModel::SyntaxError {
                                    reason: NOT_BINARY@,
                                    node: MaybeNodeMeta(Some(binary.meta)),
                                },
                            ),
                        ),
                    },
                }
            },
        },
    }
}

/// Evaluates an indexing: a call of `__index__` on the target.
pub open spec fn eval_index<H: SystemHost>(h: H, s: RuntimeModel, index: Node<Index>, budget: nat) -> (
    RuntimeModel,
    Outcome,
)
    decreases budget, 2nat, 0nat,
{
    let (s, r) = eval(h, s, *index.v.target, budget);
    match r {
        Err(error) => (s, Err(error)),
        Ok(target) => {
            let (s, r) = eval(h, s, *index.v.index, budget);
            match r {
                Err(error) => (s, Err(error)),
                Ok(place) => call_instance_method(
                    h,
                    s,
                    target,
                    builtin::op::__index__@,
                    seq![place],
                    Some(index.meta),
                    budget,
                ),
            }
        },
    }
}

/// Evaluates a unary operation: a call of the operator's method on the
/// operand.
pub open spec fn eval_unary<H: SystemHost>(h: H, s: RuntimeModel, unary: Node<Unary>, budget: nat) -> (
    RuntimeModel,
    Outcome,
)
    decreases budget, 2nat, 0nat,
{
    let (s, r) = eval(h, s, *unary.v.rhs, budget);
    match r {
        Err(error) => (s, Err(error)),
        Ok(rhs) => match unary_op_method(unary.v.op.v) {
            Some(name) => call_instance_method(
                h,
                s,
                rhs,
                name,
                Seq::empty(),
                Some(unary.meta),
                budget,
            ),
            None => (
                s,
                Err(
                    ErrorModel::SyntaxError {
                        reason: NOT_UNARY@,
                        node: MaybeNodeMeta(Some(unary.meta)),
                    },
                ),
            ),
        },
    }
}

/// Evaluates an expression. Each kind of expression takes one step of the
/// budget.
pub open spec fn eval<H: SystemHost>(h: H, s: RuntimeModel, expression: Node<Expression>, budget: nat) -> (
    RuntimeModel,
    Outcome,
)
    decreases budget, 0nat, 0nat,
{
    if budget == 0 {
        (s, Err(ErrorModel::BudgetExhausted))
    } else {
        let b = (budget - 1) as nat;
        match expression.v {
            Expression::Variable(var) => eval_variable(s, var),
            Expression::Call(call) => eval_call_expr(h, s, call, b),
            Expression::Literal(literal) => eval_literal(h, s, literal.v, b),
            Expression::Access(access) => eval_access(h, s, access, b),
            Expression::IfElse(if_else) => eval_if_else(h, s, if_else, b),
            Expression::Binary(binary) => eval_binary(h, s, binary, b),
            Expression::Index(index) => eval_index(h, s, index, b),
            Expression::Unary(unary) => eval_unary(h, s, unary, b),
            Expression::Path(path) => s.resolve_class_from_path(
                path,
                path.v.components.len() as nat,
            ),
            Expression::Closure(closure) => s.create_closure(closure.v),
        }
    }
}

/// Runs the statements of a block from place `i` on. The block yields what
/// its last statement yields if that is an expression, and `nil` otherwise.
pub open spec fn eval_block_from<H: SystemHost>(
    h: H,
    s: RuntimeModel,
    statements: Seq<Node<Statement>>,
    i: nat,
    budget: nat,
) -> (RuntimeModel, Outcome)
    decreases budget, 1nat, statements.len() - i,
{
    if i >= statements.len() {
        (s, Ok(s.builtins.nil))
    } else {
        match statements[i as int].v {
            Statement::Expression(expression) if i == statements.len() - 1 => eval(
                h,
                s,
                expression,
                budget,
            ),
            _ => {
                let (s, r) = exec(h, s, statements[i as int], budget);
                match r {
                    Ok(()) => eval_block_from(h, s, statements, i + 1, budget),
                    Err(error) => (s, Err(error)),
                }
            },
        }
    }
}

/// Evaluates a block. A block takes one step of the budget.
pub open spec fn eval_block<H: SystemHost>(h: H, s: RuntimeModel, block: Node<Block>, budget: nat) -> (
    RuntimeModel,
    Outcome,
)
    decreases budget, 0nat, 0nat,
{
    if budget == 0 {
        (s, Err(ErrorModel::BudgetExhausted))
    } else {
        eval_block_from(h, s, block.v.statements@, 0, (budget - 1) as nat)
    }
}

/// Runs the statements from place `i` on, in order. The first error ends
/// it.
pub open spec fn exec_all<H: SystemHost>(
    h: H,
    s: RuntimeModel,
    statements: Seq<Node<Statement>>,
    i: nat,
    budget: nat,
) -> (RuntimeModel, Done)
    decreases budget, 1nat, statements.len() - i,
{
    if i >= statements.len() {
        (s, Ok(()))
    } else {
        let (s, r) = exec(h, s, statements[i as int], budget);
        match r {
            Ok(()) => exec_all(h, s, statements, i + 1, budget),
            Err(error) => (s, Err(error)),
        }
    }
}

/// The rounds of a `while` loop, at most `rounds` of them.
pub open spec fn while_rounds<H: SystemHost>(
    h: H,
    s: RuntimeModel,
    while_loop: WhileLoop,
    rounds: nat,
    budget: nat,
) -> (RuntimeModel, Done)
    decreases budget, 1nat, rounds,
{
    if rounds == 0 {
        (s, Err(ErrorModel::BudgetExhausted))
    } else {
        let (s, r) = eval(h, s, while_loop.condition, budget);
        match r {
            Err(error) => (s, Err(error)),
            Ok(condition) => if s.is_falsy(condition) {
                (s, Ok(()))
            } else {
                let (s, r) = eval_block(h, s, while_loop.body, budget);
                match after_round(r) {
                    Round::Next => while_rounds(h, s, while_loop, (rounds - 1) as nat, budget),
                    Round::Stop(done) => (s, done),
                }
            },
        }
    }
}

/// Runs a `while` loop in a frame of its own, for at most as many rounds
/// as the budget.
pub open spec fn exec_while<H: SystemHost>(h: H, s: RuntimeModel, while_loop: WhileLoop, budget: nat) -> (
    RuntimeModel,
    Done,
)
    decreases budget, 2nat, 0nat,
{
    let s = s.push_frame(FrameModel::empty());
    let (s, r) = while_rounds(h, s, while_loop, budget, budget);
    (s.pop_frame(), r)
}

/// Binds the loop variables of a `for` loop to an item: one variable to
/// the item itself, several to the items of a tuple of as many.
pub open spec fn bind_item(s: RuntimeModel, for_in: Node<ForIn>, item: ObjectRef) -> (RuntimeModel, Done) {
    let names = variable_names(for_in.v.binding@);
    if names.len() == 1 {
        (s.define_variable(names[0], item), Ok(()))
    } else if s.class_of(item) == s.builtins.Tuple && s.object(item).array() is Some {
        let items = s.object(item).array().unwrap();
        if items.len() != names.len() {
            (s, Err(ErrorModel::BadIterator { reason: BINDING_ARITY@, node: for_in.meta }))
        } else {
            (s.define_all(names, items, 0), Ok(()))
        }
    } else {
        (s, Err(ErrorModel::BadIterator { reason: UNBINDABLE@, node: for_in.meta }))
    }
}

/// The rounds of a `for` loop, at most `rounds` of them. Each round calls
/// `next` on the iterator; `nil` ends the loop.
pub open spec fn for_rounds<H: SystemHost>(
    h: H,
    s: RuntimeModel,
    for_in: Node<ForIn>,
    iterator: ObjectRef,
    next: MethodModel,
    rounds: nat,
    budget: nat,
) -> (RuntimeModel, Done)
    decreases budget, 1nat, rounds,
{
    if rounds == 0 {
        (s, Err(ErrorModel::BudgetExhausted))
    } else {
        let (s, r) = call_method(h, s, iterator, next, Seq::empty(), budget);
        match r {
            Err(error) => (s, Err(error)),
            Ok(item) => if item == s.builtins.nil {
                (s, Ok(()))
            } else {
                let (s, bound) = bind_item(s, for_in, item);
                match bound {
                    Err(error) => (s, Err(error)),
                    Ok(()) => {
                        let (s, r) = eval_block(h, s, for_in.v.body, budget);
                        match after_round(r) {
                            Round::Next => for_rounds(
                                h,
                                s,
                                for_in,
                                iterator,
                                next,
                                (rounds - 1) as nat,
                                budget,
                            ),
                            Round::Stop(done) => (s, done),
                        }
                    },
                }
            },
        }
    }
}

/// Runs a `for` loop: asks the iterable for an iterator by `iter`, and runs
/// the body in a frame of its own for each item that `next` yields, for at
/// most as many rounds as the budget.
pub open spec fn exec_for_in<H: SystemHost>(h: H, s: RuntimeModel, for_in: Node<ForIn>, budget: nat) -> (
    RuntimeModel,
    Done,
)
    decreases budget, 2nat, 0nat,
{
    let node = for_in.v.iterable.meta;
    let (s, r) = eval(h, s, for_in.v.iterable, budget);
    match r {
        Err(error) => (s, Err(error)),
        Ok(iterable) => match s.resolve_method(s.class_of(iterable), builtin::method::iter@) {
            None => (s, Err(ErrorModel::BadIterator { reason: NO_ITER@, node })),
            Some(iter) => {
                let (s, r) = call_method(h, s, iterable, iter, Seq::empty(), budget);
                match r {
                    Err(error) => (s, Err(error)),
                    Ok(iterator) => match s.resolve_method(s.class_of(iterator), builtin::method::next@) {
                        None => (s, Err(ErrorModel::BadIterator { reason: NO_NEXT@, node })),
                        Some(next) => {
                            let s = s.push_frame(FrameModel::empty());
                            let (s, r) = for_rounds(h, s, for_in, iterator, next, budget, budget);
                            (s.pop_frame(), r)
                        },
                    },
                }
            },
        },
    }
}

/// Stores `value` in the variables of a binding. One variable takes the
/// value, or for a compound operator what the operator's method yields when
/// called on the variable's current value. Several variables take the items
/// of a tuple of as many.
pub open spec fn assign_binding<H: SystemHost>(
    h: H,
    s: RuntimeModel,
    assignment: Node<Assignment>,
    binding: Node<Binding>,
    value: ObjectRef,
    budget: nat,
) -> (RuntimeModel, Done)
    decreases budget, 2nat, 0nat,
{
    let op = assignment_op_method(assignment.v.op.v);
    let names = variable_names(binding.v.variables@);
    if names.len() == 1 {
        match op {
            None => (s.assign_variable(names[0], value), Ok(())),
            Some(method) => {
                let (s, current) = s.resolve_variable(names[0]);
                match current {
                    None => (
                        s,
                        Err(
                            ErrorModel::NoSuchVariable {
                                name: names[0],
                                node: binding.v.variables[0].meta,
                            },
                        ),
                    ),
                    Some(current) => {
                        let (s, r) = call_instance_method(
                            h,
                            s,
                            current,
                            method,
                            seq![value],
                            Some(assignment.meta),
                            budget,
                        );
                        match r {
                            Err(error) => (s, Err(error)),
                            Ok(result) => (s.assign_variable(names[0], result), Ok(())),
                        }
                    },
                }
            },
        }
    } else if op is Some {
        (s, Err(ErrorModel::IllegalAssignmentOperator { node: assignment.v.op.meta }))
    } else {
        match s.tuple_items(value, names.len()) {
            Some(items) => (s.assign_all(names, items, 0), Ok(())),
            None => (s, Err(
                ErrorModel::AssignmentRhsMustBeTuple { node: assignment.v.value.meta },
            )),
        }
    }
}

/// Stores `value` under a property of the object that the target of an
/// access names. A compound operator reads the property first.
pub open spec fn assign_access<H: SystemHost>(
    h: H,
    s: RuntimeModel,
    assignment: Node<Assignment>,
    access: Node<Access>,
    value: ObjectRef,
    budget: nat,
) -> (RuntimeModel, Done)
    decreases budget, 2nat, 0nat,
{
    let op = assignment_op_method(assignment.v.op.v);
    let (s, r) = eval(h, s, *access.v.target, budget);
    match r {
        Err(error) => (s, Err(error)),
        Ok(target) => match access.v.member.v {
            Expression::Variable(member) => {
                let name = member.v.ident.v.name@;
                match op {
                    None => (s.set_property(target, name, value), Ok(())),
                    Some(method) => match s.object(target).get_property(name) {
                        None => (s, Err(
                            ErrorModel::NoSuchProperty { name, node: assignment.meta },
                        )),
                        Some(current) => {
                            let (s, r) = call_instance_method(
                                h,
                                s,
                                current,
                                method,
                                seq![value],
                                Some(assignment.meta),
                                budget,
                            );
                            match r {
                                Err(error) => (s, Err(error)),
                                Ok(result) => (s.set_property(target, name, result), Ok(())),
                            }
                        },
                    },
                }
            },
            _ => (s, Err(ErrorModel::IllegalAssignmentTarget { node: access.meta })),
        },
    }
}

/// The value that an assignment to an index stores: the value of the right
/// side, or for a compound operator what the operator's method yields when
/// called on what `__index__` yields.
pub open spec fn index_value<H: SystemHost>(
    h: H,
    s: RuntimeModel,
    assignment: Node<Assignment>,
    index: Node<Index>,
    target: ObjectRef,
    place: ObjectRef,
    value: ObjectRef,
    budget: nat,
) -> (RuntimeModel, Outcome)
    decreases budget, 2nat, 0nat,
{
    match assignment_op_method(assignment.v.op.v) {
        None => (s, Ok(value)),
        Some(method) => {
            let (s, r) = call_instance_method(
                h,
                s,
                target,
                builtin::op::__index__@,
                seq![place],
                Some(index.meta),
                budget,
            );
            match r {
                Err(error) => (s, Err(error)),
                Ok(current) => call_instance_method(
                    h,
                    s,
                    current,
                    method,
                    seq![value],
                    Some(assignment.meta),
                    budget,
                ),
            }
        },
    }
}

/// Stores under an index of `target` the value that the assignment
/// stores, by a call of `__set_index__`.
pub open spec fn store_index<H: SystemHost>(
    h: H,
    s: RuntimeModel,
    assignment: Node<Assignment>,
    index: Node<Index>,
    target: ObjectRef,
    place: ObjectRef,
    value: ObjectRef,
    budget: nat,
) -> (RuntimeModel, Done)
    decreases budget, 3nat, 0nat,
{
    let (s, r) = index_value(h, s, assignment, index, target, place, value, budget);
    match r {
        Err(error) => (s, Err(error)),
        Ok(result) => {
            let (s, r) = call_instance_method(
                h,
                s,
                target,
                builtin::op::__set_index__@,
                seq![place, result],
                Some(index.meta),
                budget,
            );
            match r {
                Err(error) => (s, Err(error)),
                Ok(_) => (s, Ok(())),
            }
        },
    }
}

/// Stores `value` under an index by a call of `__set_index__` on the
/// target. A compound operator reads the index by `__index__` first.
pub open spec fn assign_index<H: SystemHost>(
    h: H,
    s: RuntimeModel,
    assignment: Node<Assignment>,
    index: Node<Index>,
    value: ObjectRef,
    budget: nat,
) -> (RuntimeModel, Done)
    decreases budget, 4nat, 0nat,
{
    let (s, r) = eval(h, s, *index.v.target, budget);
    match r {
        Err(error) => (s, Err(error)),
        Ok(target) => {
            let (s, r) = eval(h, s, *index.v.index, budget);
            match r {
                Err(error) => (s, Err(error)),
                Ok(place) => store_index(h, s, assignment, index, target, place, value, budget),
            }
        },
    }
}

/// Runs an assignment. The right side is evaluated first. The target is a
/// variable, several variables that take the items of a tuple, a property
/// of an object, or an index.
pub open spec fn exec_assignment<H: SystemHost>(
    h: H,
    s: RuntimeModel,
    assignment: Node<Assignment>,
    budget: nat,
) -> (RuntimeModel, Done)
    decreases budget, 5nat, 0nat,
{
    let (s, r) = eval(h, s, assignment.v.value, budget);
    match r {
        Err(error) => (s, Err(error)),
        Ok(value) => match assignment.v.target.v {
            LValue::Binding(binding) => assign_binding(h, s, assignment, binding, value, budget),
            LValue::Access(access) => assign_access(h, s, assignment, access, value, budget),
            LValue::Index(index) => assign_index(h, s, assignment, index, value, budget),
        },
    }
}

/// Runs a class definition: the body runs in a frame of the class, which
/// is the class already bound to the name or else a new one under `Object`.
/// The frame is gone when the body ends, however it ends.
pub open spec fn exec_class_def<H: SystemHost>(
    h: H,
    s: RuntimeModel,
    definition: Node<ClassDefinition>,
    budget: nat,
) -> (RuntimeModel, Done)
    decreases budget, 2nat, 0nat,
{
    let name = definition.v.name.v.name@;
    let (s, found) = s.resolve_variable(name);
    let (s, class) = match found {
        Some(object) => if s.is_class(object) {
            (s, object)
        } else {
            s.create_simple_class(name)
        },
        None => s.create_simple_class(name),
    };
    let s = s.push_frame(FrameModel::of_class(class));
    let (s, r) = exec_all(h, s, definition.v.body.v.statements@, 0, budget);
    (s.pop_frame(), r)
}

/// Runs a `return`: ends the statement with the signal that carries the
/// value, if there is one.
pub open spec fn exec_return<H: SystemHost>(h: H, s: RuntimeModel, return_stmt: Node<Return>, budget: nat) -> (
    RuntimeModel,
    Done,
)
    decreases budget, 2nat, 0nat,
{
    match return_stmt.v.retval {
        Some(retval) => {
            let (s, r) = eval(h, s, retval, budget);
            match r {
                Ok(value) => (
                    s,
                    Err(ErrorModel::ReturnFromMethod { retval: Some(
                        value,
                    ), node: return_stmt.meta }),
                ),
                Err(error) => (s, Err(error)),
            }
        },
        None => (s, Err(ErrorModel::ReturnFromMethod { retval: None, node: return_stmt.meta })),
    }
}

/// Runs a `use`: adds the class that the path names to the open classes of
/// the innermost frame.
pub open spec fn exec_use(s: RuntimeModel, use_stmt: Node<Use>) -> (RuntimeModel, Done) {
    let path = use_stmt.v.path;
    let (s, r) = s.resolve_class_from_path(path, path.v.components.len() as nat);
    match r {
        Ok(class) => (s.open_class(class), Ok(())),
        Err(error) => (s, Err(error)),
    }
}

/// Runs a statement. Each statement takes one step of the budget. `break`
/// and `continue` end the statement with their signal.
pub open spec fn exec<H: SystemHost>(h: H, s: RuntimeModel, statement: Node<Statement>, budget: nat) -> (
    RuntimeModel,
    Done,
)
    decreases budget, 0nat, 0nat,
{
    if budget == 0 {
        (s, Err(ErrorModel::BudgetExhausted))
    } else {
        let b = (budget - 1) as nat;
        match statement.v {
            Statement::Expression(expression) => {
                let (s, r) = eval(h, s, expression, b);
                match r {
                    Ok(_) => (s, Ok(())),
                    Err(error) => (s, Err(error)),
                }
            },
            Statement::MethodDefinition(definition) => s.exec_method_def(
                s.current_class(),
                definition.v,
            ),
            Statement::Assignment(assignment) => exec_assignment(h, s, assignment, b),
            Statement::ClassDefinition(definition) => exec_class_def(h, s, definition, b),
            Statement::ForIn(for_in) => exec_for_in(h, s, for_in, b),
            Statement::WhileLoop(while_loop) => exec_while(h, s, while_loop.v, b),
            Statement::Break(_) => (s, Err(ErrorModel::ControlFlow(ControlFlow::Break(())))),
            Statement::Continue(_) => (s, Err(ErrorModel::ControlFlow(ControlFlow::Continue(())))),
            Statement::Use(use_stmt) => exec_use(s, use_stmt),
            Statement::Return(return_stmt) => exec_return(h, s, return_stmt, b),
        }
    }
}

/// Runs a program: its statements in order.
pub open spec fn exec_program<H: SystemHost>(h: H, s: RuntimeModel, program: Node<Program>, budget: nat) -> (
    RuntimeModel,
    Done,
) {
    exec_all(h, s, program.v.body.v.statements@, 0, budget)
}

} // verus!
