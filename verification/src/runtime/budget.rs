//! The budget decides only whether an evaluation has an answer, never which:
//! an evaluation that does not exhaust its budget comes to the same state
//! and the same outcome with every larger budget.

use crate::runtime::builtin;
use crate::runtime::builtin::op::{assignment_op_method, binary_op_method, unary_op_method};
use crate::runtime::closure::variable_names;
use crate::runtime::error::ErrorModel;
use crate::runtime::host::{NoHost, SystemHost};
use crate::runtime::model::{FrameModel, RuntimeModel};
use crate::runtime::object::{MethodBody, MethodModel, MethodReceiver, ObjectRef, SystemMethod};
use crate::runtime::semantics::{
    after_round, assign_access, assign_binding, assign_index, bind_item, bind_params, bound_call,
    call_closure, call_instance_method, call_method, call_object, call_path, call_variable,
    call_with, construct, eval, eval_access, eval_binary, eval_block, eval_block_from,
    eval_call_expr, eval_entries, eval_expr_list, eval_if_else, eval_index, eval_literal,
    eval_unary, exec, exec_all, exec_assignment, exec_class_def, exec_for_in, exec_program,
    exec_return, exec_while, for_rounds, implicit_receiver, index_value, receiver_kind,
    store_index, while_rounds, Round,
};
use crate::runtime::stdlib::{
    builtin_call, dictionary_lines, dictionary_to_s, entry_line, list_to_s, objects_to_text,
    string_add, texts_of, Builtin,
};
use crate::runtime::table::TableModel;
use crate::types::{
    Access, Assignment, Binary, Binding, Block, Call, ClassDefinition, Expression, ForIn, Ident,
    IfElse, Index, LValue, Literal, Node, NodeMeta, Operator, Path, Program, Return, Statement,
    Unary, Variable, WhileLoop,
};
use vstd::prelude::*;

verus! {

/// The outcome is that the budget was exhausted.
pub open spec fn exhausted<T>(r: Result<T, ErrorModel>) -> bool {
    r matches Err(ErrorModel::BudgetExhausted)
}

/// The host's functions depend on the budget only by exhausting it: a
/// call that does not exhaust its budget comes to the same with every
/// larger budget.
pub open spec fn host_is_monotone<H: SystemHost>(h: H) -> bool {
    forall|
        s: RuntimeModel,
        function: usize,
        this: ObjectRef,
        name: Seq<char>,
        arguments: Seq<ObjectRef>,
        b1: nat,
        b2: nat,
    |
        #![trigger h.system_call(s, function, this, name, arguments, b1), h.system_call(s, function, this, name, arguments, b2)]
        b1 <= b2 && !exhausted(h.system_call(s, function, this, name, arguments, b1).1)
            ==> h.system_call(s, function, this, name, arguments, b2) == h.system_call(
            s,
            function,
            this,
            name,
            arguments,
            b1,
        )
}

/// More budget never changes what a call of a method comes to.
pub proof fn lemma_call_method_budget<H: SystemHost>(
    h: H,
    s: RuntimeModel,
    receiver: ObjectRef,
    method: MethodModel,
    arguments: Seq<ObjectRef>,
    b1: nat,
    b2: nat,
)
    requires
        b1 <= b2,
        host_is_monotone(h),
        !exhausted(call_method(h, s, receiver, method, arguments, b1).1),
    ensures
        call_method(h, s, receiver, method, arguments, b2) == call_method(
            h,
            s,
            receiver,
            method,
            arguments,
            b1,
        ),
    decreases b1, 0nat, 0nat,
{
    if b1 > 0 && receiver_kind(s, receiver) == method.receiver {
        let c1 = (b1 - 1) as nat;
        let c2 = (b2 - 1) as nat;
        match method.body {
            MethodBody::User(_) => {
                if arguments.len() == method.params.len() {
                    let pushed = s.push_frame(
                        FrameModel::of_call(receiver, bind_params(method.params, arguments)),
                    );
                    let ghost block: Node<Block> = *method.body->User_0;
                    lemma_eval_block_budget(h, pushed, block, c1, c2);
                }
            },
            MethodBody::System(SystemMethod::DefaultInit) => {},
            MethodBody::System(SystemMethod::BoundCall) => {
                lemma_bound_call_budget(h, s, receiver, arguments, c1, c2);
            },
            MethodBody::System(SystemMethod::Builtin(function)) => {
                lemma_builtin_call_budget(h, s, function, receiver, method.name, arguments, c1, c2);
            },
            MethodBody::System(SystemMethod::Host(function)) => {
                assert(h.system_call(s, function, receiver, method.name, arguments, c2)
                    == h.system_call(s, function, receiver, method.name, arguments, c1));
            },
        }
    }
}

/// More budget never changes what a call through a method object comes to.
pub proof fn lemma_bound_call_budget<H: SystemHost>(
    h: H,
    s: RuntimeModel,
    method_object: ObjectRef,
    arguments: Seq<ObjectRef>,
    b1: nat,
    b2: nat,
)
    requires
        b1 <= b2,
        host_is_monotone(h),
        !exhausted(bound_call(h, s, method_object, arguments, b1).1),
    ensures
        bound_call(h, s, method_object, arguments, b2) == bound_call(
            h,
            s,
            method_object,
            arguments,
            b1,
        ),
    decreases b1, 1nat, 0nat,
{
    match (
        s.object(method_object).get_property(builtin::property::__receiver__@),
        s.name_of(method_object),
    ) {
        (Some(target), Some(name)) => match s.resolve_method(target, name) {
            Some(method) => {
                lemma_call_method_budget(h, s, target, method, arguments, b1, b2);
            },
            None => {},
        },
        _ => {},
    }
}

/// More budget never changes what a call of a closure comes to.
pub proof fn lemma_call_closure_budget<H: SystemHost>(
    h: H,
    s: RuntimeModel,
    closure: ObjectRef,
    arguments: Seq<ObjectRef>,
    b1: nat,
    b2: nat,
)
    requires
        b1 <= b2,
        host_is_monotone(h),
        !exhausted(call_closure(h, s, closure, arguments, b1).1),
    ensures
        call_closure(h, s, closure, arguments, b2) == call_closure(h, s, closure, arguments, b1),
    decreases b1, 1nat, 0nat,
{
    match s.resolve_method(closure, builtin::op::__call__@) {
        Some(method) => {
            lemma_call_method_budget(h, s, closure, method, arguments, b1, b2);
        },
        None => {},
    }
}

/// More budget never changes what a call of an instance method comes to.
pub proof fn lemma_call_instance_method_budget<H: SystemHost>(
    h: H,
    s: RuntimeModel,
    receiver: ObjectRef,
    name: Seq<char>,
    arguments: Seq<ObjectRef>,
    node: Option<NodeMeta>,
    b1: nat,
    b2: nat,
)
    requires
        b1 <= b2,
        host_is_monotone(h),
        !exhausted(call_instance_method(h, s, receiver, name, arguments, node, b1).1),
    ensures
        call_instance_method(h, s, receiver, name, arguments, node, b2) == call_instance_method(
            h,
            s,
            receiver,
            name,
            arguments,
            node,
            b1,
        ),
    decreases b1, 1nat, 0nat,
{
    match s.resolve_method(s.class_of(receiver), name) {
        Some(method) => {
            if method.receiver == MethodReceiver::Instance {
                lemma_call_method_budget(h, s, receiver, method, arguments, b1, b2);
            }
        },
        None => {},
    }
}

/// More budget never changes what a list of expressions comes to.
pub proof fn lemma_eval_expr_list_budget<H: SystemHost>(
    h: H,
    s: RuntimeModel,
    exprs: Seq<Node<Expression>>,
    i: nat,
    done: Seq<ObjectRef>,
    b1: nat,
    b2: nat,
)
    requires
        b1 <= b2,
        host_is_monotone(h),
        !exhausted(eval_expr_list(h, s, exprs, i, done, b1).1),
    ensures
        eval_expr_list(h, s, exprs, i, done, b2) == eval_expr_list(h, s, exprs, i, done, b1),
    decreases b1, 1nat, exprs.len() - i,
{
    if i < exprs.len() {
        let (s1, r) = eval(h, s, exprs[i as int], b1);
        lemma_eval_budget(h, s, exprs[i as int], b1, b2);
        if let Ok(value) = r {
            lemma_eval_expr_list_budget(h, s1, exprs, i + 1, done.push(value), b1, b2);
        }
    }
}

/// More budget never changes what the entries of a dictionary literal come to.
pub proof fn lemma_eval_entries_budget<H: SystemHost>(
    h: H,
    s: RuntimeModel,
    entries: Seq<(Node<Ident>, Node<Expression>)>,
    i: nat,
    done: Seq<(Seq<char>, ObjectRef)>,
    b1: nat,
    b2: nat,
)
    requires
        b1 <= b2,
        host_is_monotone(h),
        !exhausted(eval_entries(h, s, entries, i, done, b1).1),
    ensures
        eval_entries(h, s, entries, i, done, b2) == eval_entries(h, s, entries, i, done, b1),
    decreases b1, 1nat, entries.len() - i,
{
    if i < entries.len() {
        let (s1, r) = eval(h, s, entries[i as int].1, b1);
        lemma_eval_budget(h, s, entries[i as int].1, b1, b2);
        if let Ok(value) = r {
            lemma_eval_entries_budget(
                h,
                s1,
                entries,
                i + 1,
                done.push((entries[i as int].0.v.name@, value)),
                b1,
                b2,
            );
        }
    }
}

/// More budget never changes what a literal comes to.
pub proof fn lemma_eval_literal_budget<H: SystemHost>(
    h: H,
    s: RuntimeModel,
    literal: Literal,
    b1: nat,
    b2: nat,
)
    requires
        b1 <= b2,
        host_is_monotone(h),
        !exhausted(eval_literal(h, s, literal, b1).1),
    ensures
        eval_literal(h, s, literal, b2) == eval_literal(h, s, literal, b1),
    decreases b1, 2nat, 0nat,
{
    match literal {
        Literal::Array(array) => {
            lemma_eval_expr_list_budget(h, s, array.v.elements@, 0, Seq::empty(), b1, b2);
        },
        Literal::Tuple(tuple) => {
            lemma_eval_expr_list_budget(h, s, tuple.v.items@, 0, Seq::empty(), b1, b2);
        },
        Literal::Dictionary(dictionary) => {
            lemma_eval_entries_budget(h, s, dictionary.v.entries@, 0, Seq::empty(), b1, b2);
        },
        _ => {},
    }
}

/// More budget never changes what a call with arguments comes to.
pub proof fn lemma_call_with_budget<H: SystemHost>(
    h: H,
    s: RuntimeModel,
    receiver: ObjectRef,
    method: MethodModel,
    arguments: Seq<Node<Expression>>,
    b1: nat,
    b2: nat,
)
    requires
        b1 <= b2,
        host_is_monotone(h),
        !exhausted(call_with(h, s, receiver, method, arguments, b1).1),
    ensures
        call_with(h, s, receiver, method, arguments, b2) == call_with(
            h,
            s,
            receiver,
            method,
            arguments,
            b1,
        ),
    decreases b1, 2nat, 0nat,
{
    let (s1, r) = eval_expr_list(h, s, arguments, 0, Seq::empty(), b1);
    lemma_eval_expr_list_budget(h, s, arguments, 0, Seq::empty(), b1, b2);
    if let Ok(values) = r {
        lemma_call_method_budget(h, s1, receiver, method, values, b1, b2);
    }
}

/// More budget never changes what a construction comes to.
pub proof fn lemma_construct_budget<H: SystemHost>(
    h: H,
    s: RuntimeModel,
    class: ObjectRef,
    arguments: Seq<Node<Expression>>,
    b1: nat,
    b2: nat,
)
    requires
        b1 <= b2,
        host_is_monotone(h),
        !exhausted(construct(h, s, class, arguments, b1).1),
    ensures
        construct(h, s, class, arguments, b2) == construct(h, s, class, arguments, b1),
    decreases b1, 3nat, 0nat,
{
    let (s1, instance) = s.create_object(class);
    match s1.resolve_method(class, builtin::method::init@) {
        Some(method) => {
            lemma_call_with_budget(h, s1, instance, method, arguments, b1, b2);
        },
        None => {
            lemma_eval_expr_list_budget(h, s1, arguments, 0, Seq::empty(), b1, b2);
        },
    }
}

/// More budget never changes what a call of an object comes to.
pub proof fn lemma_call_object_budget<H: SystemHost>(
    h: H,
    s: RuntimeModel,
    callable: ObjectRef,
    arguments: Seq<Node<Expression>>,
    node: NodeMeta,
    b1: nat,
    b2: nat,
)
    requires
        b1 <= b2,
        host_is_monotone(h),
        !exhausted(call_object(h, s, callable, arguments, node, b1).1),
    ensures
        call_object(h, s, callable, arguments, node, b2) == call_object(
            h,
            s,
            callable,
            arguments,
            node,
            b1,
        ),
    decreases b1, 3nat, 0nat,
{
    match s.resolve_callable(callable) {
        Some(method) => {
            lemma_call_with_budget(h, s, callable, method, arguments, b1, b2);
        },
        None => {},
    }
}

/// More budget never changes what a call of a name comes to.
pub proof fn lemma_call_variable_budget<H: SystemHost>(
    h: H,
    s: RuntimeModel,
    call: Node<Call>,
    var: Node<Variable>,
    b1: nat,
    b2: nat,
)
    requires
        b1 <= b2,
        host_is_monotone(h),
        !exhausted(call_variable(h, s, call, var, b1).1),
    ensures
        call_variable(h, s, call, var, b2) == call_variable(h, s, call, var, b1),
    decreases b1, 4nat, 0nat,
{
    let arguments = call.v.arguments@;
    let name = var.v.ident.v.name@;
    let (s1, found) = s.resolve_variable(name);
    match found {
        Some(variable) => {
            if s1.is_class(variable) {
                lemma_construct_budget(h, s1, variable, arguments, b1, b2);
            } else {
                lemma_call_object_budget(h, s1, variable, arguments, var.meta, b1, b2);
            }
        },
        None => match implicit_receiver(s1, name) {
            Some((receiver, method)) => {
                lemma_call_with_budget(h, s1, receiver, method, arguments, b1, b2);
            },
            None => {},
        },
    }
}

/// More budget never changes what a call of a path comes to.
pub proof fn lemma_call_path_budget<H: SystemHost>(
    h: H,
    s: RuntimeModel,
    call: Node<Call>,
    path: Node<Path>,
    b1: nat,
    b2: nat,
)
    requires
        b1 <= b2,
        host_is_monotone(h),
        !exhausted(call_path(h, s, call, path, b1).1),
    ensures
        call_path(h, s, call, path, b2) == call_path(h, s, call, path, b1),
    decreases b1, 4nat, 0nat,
{
    let arguments = call.v.arguments@;
    let n = path.v.components.len();
    let (s1, r) = s.resolve_class_from_path(path, (n - 1) as nat);
    if let Ok(class) = r {
        let name = path.v.components[n - 1].v.ident.v.name@;
        let nested = match s1.object(class).get_property(name) {
            Some(property) => if s1.is_class(property) {
                Some(property)
            } else {
                None
            },
            None => None,
        };
        match nested {
            Some(property) => {
                lemma_construct_budget(h, s1, property, arguments, b1, b2);
            },
            None => match s1.resolve_method(class, name) {
                Some(method) => {
                    lemma_call_with_budget(h, s1, class, method, arguments, b1, b2);
                },
                None => {},
            },
        }
    }
}

/// More budget never changes what a call comes to.
pub proof fn lemma_eval_call_expr_budget<H: SystemHost>(
    h: H,
    s: RuntimeModel,
    call: Node<Call>,
    b1: nat,
    b2: nat,
)
    requires
        b1 <= b2,
        host_is_monotone(h),
        !exhausted(eval_call_expr(h, s, call, b1).1),
    ensures
        eval_call_expr(h, s, call, b2) == eval_call_expr(h, s, call, b1),
    decreases b1, 5nat, 0nat,
{
    match call.v.target.v {
        Expression::Variable(var) => {
            lemma_call_variable_budget(h, s, call, var, b1, b2);
        },
        Expression::Path(path) => {
            lemma_call_path_budget(h, s, call, path, b1, b2);
        },
        _ => {
            let (s1, r) = eval(h, s, *call.v.target, b1);
            lemma_eval_budget(h, s, *call.v.target, b1, b2);
            if let Ok(callable) = r {
                lemma_call_object_budget(
                    h,
                    s1,
                    callable,
                    call.v.arguments@,
                    call.v.target.meta,
                    b1,
                    b2,
                );
            }
        },
    }
}

/// More budget never changes what a member access comes to.
pub proof fn lemma_eval_access_budget<H: SystemHost>(
    h: H,
    s: RuntimeModel,
    access: Node<Access>,
    b1: nat,
    b2: nat,
)
    requires
        b1 <= b2,
        host_is_monotone(h),
        !exhausted(eval_access(h, s, access, b1).1),
    ensures
        eval_access(h, s, access, b2) == eval_access(h, s, access, b1),
    decreases b1, 2nat, 0nat,
{
    let (s1, r) = eval(h, s, *access.v.target, b1);
    lemma_eval_budget(h, s, *access.v.target, b1, b2);
    if let Ok(target) = r {
        match access.v.member.v {
            Expression::Call(call) => {
                let (s2, r) = eval_expr_list(h, s1, call.v.arguments@, 0, Seq::empty(), b1);
                lemma_eval_expr_list_budget(h, s1, call.v.arguments@, 0, Seq::empty(), b1, b2);
                if let Ok(arguments) = r {
                    match call.v.target.v {
                        Expression::Variable(var) => {
                            lemma_call_instance_method_budget(
                                h,
                                s2,
                                target,
                                var.v.ident.v.name@,
                                arguments,
                                Some(call.meta),
                                b1,
                                b2,
                            );
                        },
                        _ => {},
                    }
                }
            },
            _ => {},
        }
    }
}

/// More budget never changes what a conditional comes to.
pub proof fn lemma_eval_if_else_budget<H: SystemHost>(
    h: H,
    s: RuntimeModel,
    if_else: Node<IfElse>,
    b1: nat,
    b2: nat,
)
    requires
        b1 <= b2,
        host_is_monotone(h),
        !exhausted(eval_if_else(h, s, if_else, b1).1),
    ensures
        eval_if_else(h, s, if_else, b2) == eval_if_else(h, s, if_else, b1),
    decreases b1, 2nat, 0nat,
{
    let (s1, r) = eval(h, s, *if_else.v.condition, b1);
    lemma_eval_budget(h, s, *if_else.v.condition, b1, b2);
    if let Ok(condition) = r {
        if s1.is_falsy(condition) {
            match if_else.v.else_body {
                Some(else_body) => {
                    lemma_eval_block_budget(h, s1, else_body, b1, b2);
                },
                None => {},
            }
        } else {
            lemma_eval_block_budget(h, s1, if_else.v.then_body, b1, b2);
        }
    }
}

/// More budget never changes what a binary operation comes to.
pub proof fn lemma_eval_binary_budget<H: SystemHost>(
    h: H,
    s: RuntimeModel,
    binary: Node<Binary>,
    b1: nat,
    b2: nat,
)
    requires
        b1 <= b2,
        host_is_monotone(h),
        !exhausted(eval_binary(h, s, binary, b1).1),
    ensures
        eval_binary(h, s, binary, b2) == eval_binary(h, s, binary, b1),
    decreases b1, 2nat, 0nat,
{
    let (s1, r) = eval(h, s, *binary.v.lhs, b1);
    lemma_eval_budget(h, s, *binary.v.lhs, b1, b2);
    if let Ok(lhs) = r {
        match binary.v.op.v {
            Operator::LogicalOr => {
                if !s1.is_truthy(lhs) {
                    lemma_eval_budget(h, s1, *binary.v.rhs, b1, b2);
                }
            },
            Operator::LogicalAnd => {
                if !s1.is_falsy(lhs) {
                    lemma_eval_budget(h, s1, *binary.v.rhs, b1, b2);
                }
            },
            op => {
                let (s2, r) = eval(h, s1, *binary.v.rhs, b1);
                lemma_eval_budget(h, s1, *binary.v.rhs, b1, b2);
                if let Ok(rhs) = r {
                    match binary_op_method(op) {
                        Some(name) => {
                            lemma_call_instance_method_budget(
                                h,
                                s2,
                                lhs,
                                name,
                                seq![rhs],
                                Some(binary.meta),
                                b1,
                                b2,
                            );
                        },
                        None => {},
                    }
                }
            },
        }
    }
}

/// More budget never changes what an indexing comes to.
pub proof fn lemma_eval_index_budget<H: SystemHost>(
    h: H,
    s: RuntimeModel,
    index: Node<Index>,
    b1: nat,
    b2: nat,
)
    requires
        b1 <= b2,
        host_is_monotone(h),
        !exhausted(eval_index(h, s, index, b1).1),
    ensures
        eval_index(h, s, index, b2) == eval_index(h, s, index, b1),
    decreases b1, 2nat, 0nat,
{
    let (s1, r) = eval(h, s, *index.v.target, b1);
    lemma_eval_budget(h, s, *index.v.target, b1, b2);
    if let Ok(target) = r {
        let (s2, r) = eval(h, s1, *index.v.index, b1);
        lemma_eval_budget(h, s1, *index.v.index, b1, b2);
        if let Ok(place) = r {
            lemma_call_instance_method_budget(
                h,
                s2,
                target,
                builtin::op::__index__@,
                seq![place],
                Some(index.meta),
                b1,
                b2,
            );
        }
    }
}

/// More budget never changes what a unary operation comes to.
pub proof fn lemma_eval_unary_budget<H: SystemHost>(
    h: H,
    s: RuntimeModel,
    unary: Node<Unary>,
    b1: nat,
    b2: nat,
)
    requires
        b1 <= b2,
        host_is_monotone(h),
        !exhausted(eval_unary(h, s, unary, b1).1),
    ensures
        eval_unary(h, s, unary, b2) == eval_unary(h, s, unary, b1),
    decreases b1, 2nat, 0nat,
{
    let (s1, r) = eval(h, s, *unary.v.rhs, b1);
    lemma_eval_budget(h, s, *unary.v.rhs, b1, b2);
    if let Ok(rhs) = r {
        match unary_op_method(unary.v.op.v) {
            Some(name) => {
                lemma_call_instance_method_budget(
                    h,
                    s1,
                    rhs,
                    name,
                    Seq::empty(),
                    Some(unary.meta),
                    b1,
                    b2,
                );
            },
            None => {},
        }
    }
}

/// More budget never changes what an expression evaluates to.
pub proof fn lemma_eval_budget<H: SystemHost>(
    h: H,
    s: RuntimeModel,
    expression: Node<Expression>,
    b1: nat,
    b2: nat,
)
    requires
        b1 <= b2,
        host_is_monotone(h),
        !exhausted(eval(h, s, expression, b1).1),
    ensures
        eval(h, s, expression, b2) == eval(h, s, expression, b1),
    decreases b1, 0nat, 0nat,
{
    if b1 > 0 {
        let c1 = (b1 - 1) as nat;
        let c2 = (b2 - 1) as nat;
        match expression.v {
            Expression::Call(call) => {
                lemma_eval_call_expr_budget(h, s, call, c1, c2);
            },
            Expression::Literal(literal) => {
                lemma_eval_literal_budget(h, s, literal.v, c1, c2);
            },
            Expression::Access(access) => {
                lemma_eval_access_budget(h, s, access, c1, c2);
            },
            Expression::IfElse(if_else) => {
                lemma_eval_if_else_budget(h, s, if_else, c1, c2);
            },
            Expression::Binary(binary) => {
                lemma_eval_binary_budget(h, s, binary, c1, c2);
            },
            Expression::Index(index) => {
                lemma_eval_index_budget(h, s, index, c1, c2);
            },
            Expression::Unary(unary) => {
                lemma_eval_unary_budget(h, s, unary, c1, c2);
            },
            _ => {},
        }
    }
}

/// More budget never changes what the rest of a block comes to.
pub proof fn lemma_eval_block_from_budget<H: SystemHost>(
    h: H,
    s: RuntimeModel,
    statements: Seq<Node<Statement>>,
    i: nat,
    b1: nat,
    b2: nat,
)
    requires
        b1 <= b2,
        host_is_monotone(h),
        !exhausted(eval_block_from(h, s, statements, i, b1).1),
    ensures
        eval_block_from(h, s, statements, i, b2) == eval_block_from(h, s, statements, i, b1),
    decreases b1, 1nat, statements.len() - i,
{
    if i < statements.len() {
        match statements[i as int].v {
            Statement::Expression(expression) if i == statements.len() - 1 => {
                lemma_eval_budget(h, s, expression, b1, b2);
            },
            _ => {
                let (s1, r) = exec(h, s, statements[i as int], b1);
                lemma_exec_budget(h, s, statements[i as int], b1, b2);
                if r is Ok {
                    lemma_eval_block_from_budget(h, s1, statements, i + 1, b1, b2);
                }
            },
        }
    }
}

/// More budget never changes what a block evaluates to.
pub proof fn lemma_eval_block_budget<H: SystemHost>(
    h: H,
    s: RuntimeModel,
    block: Node<Block>,
    b1: nat,
    b2: nat,
)
    requires
        b1 <= b2,
        host_is_monotone(h),
        !exhausted(eval_block(h, s, block, b1).1),
    ensures
        eval_block(h, s, block, b2) == eval_block(h, s, block, b1),
    decreases b1, 0nat, 0nat,
{
    if b1 > 0 {
        lemma_eval_block_from_budget(
            h,
            s,
            block.v.statements@,
            0,
            (b1 - 1) as nat,
            (b2 - 1) as nat,
        );
    }
}

/// More budget never changes what a list of statements comes to.
pub proof fn lemma_exec_all_budget<H: SystemHost>(
    h: H,
    s: RuntimeModel,
    statements: Seq<Node<Statement>>,
    i: nat,
    b1: nat,
    b2: nat,
)
    requires
        b1 <= b2,
        host_is_monotone(h),
        !exhausted(exec_all(h, s, statements, i, b1).1),
    ensures
        exec_all(h, s, statements, i, b2) == exec_all(h, s, statements, i, b1),
    decreases b1, 1nat, statements.len() - i,
{
    if i < statements.len() {
        let (s1, r) = exec(h, s, statements[i as int], b1);
        lemma_exec_budget(h, s, statements[i as int], b1, b2);
        if r is Ok {
            lemma_exec_all_budget(h, s1, statements, i + 1, b1, b2);
        }
    }
}

/// More budget never changes what the rounds of a `while` loop come to, nor do more rounds.
pub proof fn lemma_while_rounds_budget<H: SystemHost>(
    h: H,
    s: RuntimeModel,
    while_loop: WhileLoop,
    r1: nat,
    r2: nat,
    b1: nat,
    b2: nat,
)
    requires
        b1 <= b2,
        r1 <= r2,
        host_is_monotone(h),
        !exhausted(while_rounds(h, s, while_loop, r1, b1).1),
    ensures
        while_rounds(h, s, while_loop, r2, b2) == while_rounds(h, s, while_loop, r1, b1),
    decreases b1, 1nat, r1,
{
    if r1 > 0 {
        let (s1, r) = eval(h, s, while_loop.condition, b1);
        lemma_eval_budget(h, s, while_loop.condition, b1, b2);
        if let Ok(condition) = r {
            if !s1.is_falsy(condition) {
                let (s2, body) = eval_block(h, s1, while_loop.body, b1);
                if !exhausted(body) {
                    lemma_eval_block_budget(h, s1, while_loop.body, b1, b2);
                    if after_round(body) == Round::Next {
                        lemma_while_rounds_budget(
                            h,
                            s2,
                            while_loop,
                            (r1 - 1) as nat,
                            (r2 - 1) as nat,
                            b1,
                            b2,
                        );
                    }
                }
            }
        }
    }
}

/// More budget never changes what a `while` loop comes to.
pub proof fn lemma_exec_while_budget<H: SystemHost>(
    h: H,
    s: RuntimeModel,
    while_loop: WhileLoop,
    b1: nat,
    b2: nat,
)
    requires
        b1 <= b2,
        host_is_monotone(h),
        !exhausted(exec_while(h, s, while_loop, b1).1),
    ensures
        exec_while(h, s, while_loop, b2) == exec_while(h, s, while_loop, b1),
    decreases b1, 2nat, 0nat,
{
    lemma_while_rounds_budget(h, s.push_frame(FrameModel::empty()), while_loop, b1, b2, b1, b2);
}

/// More budget never changes what the rounds of a `for` loop come to, nor do more rounds.
pub proof fn lemma_for_rounds_budget<H: SystemHost>(
    h: H,
    s: RuntimeModel,
    for_in: Node<ForIn>,
    iterator: ObjectRef,
    next: MethodModel,
    r1: nat,
    r2: nat,
    b1: nat,
    b2: nat,
)
    requires
        b1 <= b2,
        r1 <= r2,
        host_is_monotone(h),
        !exhausted(for_rounds(h, s, for_in, iterator, next, r1, b1).1),
    ensures
        for_rounds(h, s, for_in, iterator, next, r2, b2) == for_rounds(
            h,
            s,
            for_in,
            iterator,
            next,
            r1,
            b1,
        ),
    decreases b1, 1nat, r1,
{
    if r1 > 0 {
        let (s1, r) = call_method(h, s, iterator, next, Seq::empty(), b1);
        lemma_call_method_budget(h, s, iterator, next, Seq::empty(), b1, b2);
        if let Ok(item) = r {
            if item != s1.builtins.nil {
                let (s2, bound) = bind_item(s1, for_in, item);
                if bound is Ok {
                    let (s3, body) = eval_block(h, s2, for_in.v.body, b1);
                    if !exhausted(body) {
                        lemma_eval_block_budget(h, s2, for_in.v.body, b1, b2);
                        if after_round(body) == Round::Next {
                            lemma_for_rounds_budget(
                                h,
                                s3,
                                for_in,
                                iterator,
                                next,
                                (r1 - 1) as nat,
                                (r2 - 1) as nat,
                                b1,
                                b2,
                            );
                        }
                    }
                }
            }
        }
    }
}

/// More budget never changes what a `for` loop comes to.
pub proof fn lemma_exec_for_in_budget<H: SystemHost>(
    h: H,
    s: RuntimeModel,
    for_in: Node<ForIn>,
    b1: nat,
    b2: nat,
)
    requires
        b1 <= b2,
        host_is_monotone(h),
        !exhausted(exec_for_in(h, s, for_in, b1).1),
    ensures
        exec_for_in(h, s, for_in, b2) == exec_for_in(h, s, for_in, b1),
    decreases b1, 2nat, 0nat,
{
    let (s1, r) = eval(h, s, for_in.v.iterable, b1);
    lemma_eval_budget(h, s, for_in.v.iterable, b1, b2);
    if let Ok(iterable) = r {
        match s1.resolve_method(s1.class_of(iterable), builtin::method::iter@) {
            Some(iter) => {
                let (s2, r) = call_method(h, s1, iterable, iter, Seq::empty(), b1);
                lemma_call_method_budget(h, s1, iterable, iter, Seq::empty(), b1, b2);
                if let Ok(iterator) = r {
                    match s2.resolve_method(s2.class_of(iterator), builtin::method::next@) {
                        Some(next) => {
                            lemma_for_rounds_budget(
                                h,
                                s2.push_frame(FrameModel::empty()),
                                for_in,
                                iterator,
                                next,
                                b1,
                                b2,
                                b1,
                                b2,
                            );
                        },
                        None => {},
                    }
                }
            },
            None => {},
        }
    }
}

/// More budget never changes what an assignment to variables comes to.
pub proof fn lemma_assign_binding_budget<H: SystemHost>(
    h: H,
    s: RuntimeModel,
    assignment: Node<Assignment>,
    binding: Node<Binding>,
    value: ObjectRef,
    b1: nat,
    b2: nat,
)
    requires
        b1 <= b2,
        host_is_monotone(h),
        !exhausted(assign_binding(h, s, assignment, binding, value, b1).1),
    ensures
        assign_binding(h, s, assignment, binding, value, b2) == assign_binding(
            h,
            s,
            assignment,
            binding,
            value,
            b1,
        ),
    decreases b1, 2nat, 0nat,
{
    let names = variable_names(binding.v.variables@);
    if names.len() == 1 {
        match assignment_op_method(assignment.v.op.v) {
            Some(method) => {
                let (s1, current) = s.resolve_variable(names[0]);
                if let Some(current) = current {
                    lemma_call_instance_method_budget(
                        h,
                        s1,
                        current,
                        method,
                        seq![value],
                        Some(assignment.meta),
                        b1,
                        b2,
                    );
                }
            },
            None => {},
        }
    }
}

/// More budget never changes what an assignment to a property comes to.
pub proof fn lemma_assign_access_budget<H: SystemHost>(
    h: H,
    s: RuntimeModel,
    assignment: Node<Assignment>,
    access: Node<Access>,
    value: ObjectRef,
    b1: nat,
    b2: nat,
)
    requires
        b1 <= b2,
        host_is_monotone(h),
        !exhausted(assign_access(h, s, assignment, access, value, b1).1),
    ensures
        assign_access(h, s, assignment, access, value, b2) == assign_access(
            h,
            s,
            assignment,
            access,
            value,
            b1,
        ),
    decreases b1, 2nat, 0nat,
{
    let (s1, r) = eval(h, s, *access.v.target, b1);
    lemma_eval_budget(h, s, *access.v.target, b1, b2);
    if let Ok(target) = r {
        match access.v.member.v {
            Expression::Variable(member) => {
                let name = member.v.ident.v.name@;
                match assignment_op_method(assignment.v.op.v) {
                    Some(method) => match s1.object(target).get_property(name) {
                        Some(current) => {
                            lemma_call_instance_method_budget(
                                h,
                                s1,
                                current,
                                method,
                                seq![value],
                                Some(assignment.meta),
                                b1,
                                b2,
                            );
                        },
                        None => {},
                    },
                    None => {},
                }
            },
            _ => {},
        }
    }
}

/// More budget never changes what the value that an assignment to an index stores comes to.
pub proof fn lemma_index_value_budget<H: SystemHost>(
    h: H,
    s: RuntimeModel,
    assignment: Node<Assignment>,
    index: Node<Index>,
    target: ObjectRef,
    place: ObjectRef,
    value: ObjectRef,
    b1: nat,
    b2: nat,
)
    requires
        b1 <= b2,
        host_is_monotone(h),
        !exhausted(index_value(h, s, assignment, index, target, place, value, b1).1),
    ensures
        index_value(h, s, assignment, index, target, place, value, b2) == index_value(
            h,
            s,
            assignment,
            index,
            target,
            place,
            value,
            b1,
        ),
    decreases b1, 2nat, 0nat,
{
    match assignment_op_method(assignment.v.op.v) {
        Some(method) => {
            let (s1, r) = call_instance_method(
                h,
                s,
                target,
                builtin::op::__index__@,
                seq![place],
                Some(index.meta),
                b1,
            );
            lemma_call_instance_method_budget(
                h,
                s,
                target,
                builtin::op::__index__@,
                seq![place],
                Some(index.meta),
                b1,
                b2,
            );
            if let Ok(current) = r {
                lemma_call_instance_method_budget(
                    h,
                    s1,
                    current,
                    method,
                    seq![value],
                    Some(assignment.meta),
                    b1,
                    b2,
                );
            }
        },
        None => {},
    }
}

/// More budget never changes what a store under an index comes to.
pub proof fn lemma_store_index_budget<H: SystemHost>(
    h: H,
    s: RuntimeModel,
    assignment: Node<Assignment>,
    index: Node<Index>,
    target: ObjectRef,
    place: ObjectRef,
    value: ObjectRef,
    b1: nat,
    b2: nat,
)
    requires
        b1 <= b2,
        host_is_monotone(h),
        !exhausted(store_index(h, s, assignment, index, target, place, value, b1).1),
    ensures
        store_index(h, s, assignment, index, target, place, value, b2) == store_index(
            h,
            s,
            assignment,
            index,
            target,
            place,
            value,
            b1,
        ),
    decreases b1, 3nat, 0nat,
{
    let (s1, r) = index_value(h, s, assignment, index, target, place, value, b1);
    lemma_index_value_budget(h, s, assignment, index, target, place, value, b1, b2);
    if let Ok(result) = r {
        lemma_call_instance_method_budget(
            h,
            s1,
            target,
            builtin::op::__set_index__@,
            seq![place, result],
            Some(index.meta),
            b1,
            b2,
        );
    }
}

/// More budget never changes what an assignment to an index comes to.
pub proof fn lemma_assign_index_budget<H: SystemHost>(
    h: H,
    s: RuntimeModel,
    assignment: Node<Assignment>,
    index: Node<Index>,
    value: ObjectRef,
    b1: nat,
    b2: nat,
)
    requires
        b1 <= b2,
        host_is_monotone(h),
        !exhausted(assign_index(h, s, assignment, index, value, b1).1),
    ensures
        assign_index(h, s, assignment, index, value, b2) == assign_index(
            h,
            s,
            assignment,
            index,
            value,
            b1,
        ),
    decreases b1, 4nat, 0nat,
{
    let (s1, r) = eval(h, s, *index.v.target, b1);
    lemma_eval_budget(h, s, *index.v.target, b1, b2);
    if let Ok(target) = r {
        let (s2, r) = eval(h, s1, *index.v.index, b1);
        lemma_eval_budget(h, s1, *index.v.index, b1, b2);
        if let Ok(place) = r {
            lemma_store_index_budget(h, s2, assignment, index, target, place, value, b1, b2);
        }
    }
}

/// More budget never changes what an assignment comes to.
pub proof fn lemma_exec_assignment_budget<H: SystemHost>(
    h: H,
    s: RuntimeModel,
    assignment: Node<Assignment>,
    b1: nat,
    b2: nat,
)
    requires
        b1 <= b2,
        host_is_monotone(h),
        !exhausted(exec_assignment(h, s, assignment, b1).1),
    ensures
        exec_assignment(h, s, assignment, b2) == exec_assignment(h, s, assignment, b1),
    decreases b1, 5nat, 0nat,
{
    let (s1, r) = eval(h, s, assignment.v.value, b1);
    lemma_eval_budget(h, s, assignment.v.value, b1, b2);
    if let Ok(value) = r {
        match assignment.v.target.v {
            LValue::Binding(binding) => {
                lemma_assign_binding_budget(h, s1, assignment, binding, value, b1, b2);
            },
            LValue::Access(access) => {
                lemma_assign_access_budget(h, s1, assignment, access, value, b1, b2);
            },
            LValue::Index(index) => {
                lemma_assign_index_budget(h, s1, assignment, index, value, b1, b2);
            },
        }
    }
}

/// More budget never changes what a class definition comes to.
pub proof fn lemma_exec_class_def_budget<H: SystemHost>(
    h: H,
    s: RuntimeModel,
    definition: Node<ClassDefinition>,
    b1: nat,
    b2: nat,
)
    requires
        b1 <= b2,
        host_is_monotone(h),
        !exhausted(exec_class_def(h, s, definition, b1).1),
    ensures
        exec_class_def(h, s, definition, b2) == exec_class_def(h, s, definition, b1),
    decreases b1, 2nat, 0nat,
{
    let name = definition.v.name.v.name@;
    let (s1, found) = s.resolve_variable(name);
    let (s2, class) = match found {
        Some(object) => if s1.is_class(object) {
            (s1, object)
        } else {
            s1.create_simple_class(name)
        },
        None => s1.create_simple_class(name),
    };
    lemma_exec_all_budget(
        h,
        s2.push_frame(FrameModel::of_class(class)),
        definition.v.body.v.statements@,
        0,
        b1,
        b2,
    );
}

/// More budget never changes what a `return` comes to.
pub proof fn lemma_exec_return_budget<H: SystemHost>(
    h: H,
    s: RuntimeModel,
    return_stmt: Node<Return>,
    b1: nat,
    b2: nat,
)
    requires
        b1 <= b2,
        host_is_monotone(h),
        !exhausted(exec_return(h, s, return_stmt, b1).1),
    ensures
        exec_return(h, s, return_stmt, b2) == exec_return(h, s, return_stmt, b1),
    decreases b1, 2nat, 0nat,
{
    match return_stmt.v.retval {
        Some(retval) => {
            lemma_eval_budget(h, s, retval, b1, b2);
        },
        None => {},
    }
}

/// More budget never changes what a statement does.
pub proof fn lemma_exec_budget<H: SystemHost>(
    h: H,
    s: RuntimeModel,
    statement: Node<Statement>,
    b1: nat,
    b2: nat,
)
    requires
        b1 <= b2,
        host_is_monotone(h),
        !exhausted(exec(h, s, statement, b1).1),
    ensures
        exec(h, s, statement, b2) == exec(h, s, statement, b1),
    decreases b1, 0nat, 0nat,
{
    if b1 > 0 {
        let c1 = (b1 - 1) as nat;
        let c2 = (b2 - 1) as nat;
        match statement.v {
            Statement::Expression(expression) => {
                lemma_eval_budget(h, s, expression, c1, c2);
            },
            Statement::Assignment(assignment) => {
                lemma_exec_assignment_budget(h, s, assignment, c1, c2);
            },
            Statement::ClassDefinition(definition) => {
                lemma_exec_class_def_budget(h, s, definition, c1, c2);
            },
            Statement::ForIn(for_in) => {
                lemma_exec_for_in_budget(h, s, for_in, c1, c2);
            },
            Statement::WhileLoop(while_loop) => {
                lemma_exec_while_budget(h, s, while_loop.v, c1, c2);
            },
            Statement::Return(return_stmt) => {
                lemma_exec_return_budget(h, s, return_stmt, c1, c2);
            },
            _ => {},
        }
    }
}

/// More budget never changes what a program does: a run that does not
/// exhaust its budget comes to the same state and the same outcome with
/// every larger budget.
pub proof fn lemma_exec_program_budget<H: SystemHost>(
    h: H,
    s: RuntimeModel,
    program: Node<Program>,
    b1: nat,
    b2: nat,
)
    requires
        b1 <= b2,
        host_is_monotone(h),
        !exhausted(exec_program(h, s, program, b1).1),
    ensures
        exec_program(h, s, program, b2) == exec_program(h, s, program, b1),
{
    lemma_exec_all_budget(h, s, program.v.body.v.statements@, 0, b1, b2);
}

/// More budget never changes what the texts of a list of objects come to.
pub proof fn lemma_texts_of_budget<H: SystemHost>(
    h: H,
    s: RuntimeModel,
    objects: Seq<ObjectRef>,
    i: nat,
    done: Seq<Seq<char>>,
    b1: nat,
    b2: nat,
)
    requires
        b1 <= b2,
        host_is_monotone(h),
        !exhausted(texts_of(h, s, objects, i, done, b1).1),
    ensures
        texts_of(h, s, objects, i, done, b2) == texts_of(h, s, objects, i, done, b1),
    decreases b1, 2nat, objects.len() - i,
{
    if i < objects.len() {
        let (s1, r) = call_instance_method(
            h,
            s,
            objects[i as int],
            builtin::method::to_s@,
            Seq::empty(),
            None,
            b1,
        );
        lemma_call_instance_method_budget(
            h,
            s,
            objects[i as int],
            builtin::method::to_s@,
            Seq::empty(),
            None,
            b1,
            b2,
        );
        if let Ok(text) = r {
            if let Some(value) = s1.object(text).string() {
                lemma_texts_of_budget(h, s1, objects, i + 1, done.push(value), b1, b2);
            }
        }
    }
}

/// More budget never changes what the text that shows a list of objects comes to.
pub proof fn lemma_objects_to_text_budget<H: SystemHost>(
    h: H,
    s: RuntimeModel,
    objects: Seq<ObjectRef>,
    separator: Seq<char>,
    b1: nat,
    b2: nat,
)
    requires
        b1 <= b2,
        host_is_monotone(h),
        !exhausted(objects_to_text(h, s, objects, separator, b1).1),
    ensures
        objects_to_text(h, s, objects, separator, b2) == objects_to_text(
            h,
            s,
            objects,
            separator,
            b1,
        ),
    decreases b1, 3nat, 0nat,
{
    lemma_texts_of_budget(h, s, objects, 0, Seq::empty(), b1, b2);
}

/// More budget never changes what the text of a list or a tuple comes to.
pub proof fn lemma_list_to_s_budget<H: SystemHost>(
    h: H,
    s: RuntimeModel,
    this: ObjectRef,
    tuple: bool,
    b1: nat,
    b2: nat,
)
    requires
        b1 <= b2,
        host_is_monotone(h),
        !exhausted(list_to_s(h, s, this, tuple, b1).1),
    ensures
        list_to_s(h, s, this, tuple, b2) == list_to_s(h, s, this, tuple, b1),
    decreases b1, 4nat, 0nat,
{
    match s.object(this).array() {
        Some(items) => {
            lemma_objects_to_text_budget(h, s, items, ", "@, b1, b2);
        },
        None => {},
    }
}

/// More budget never changes what the joining of two texts comes to.
pub proof fn lemma_string_add_budget<H: SystemHost>(
    h: H,
    s: RuntimeModel,
    this: ObjectRef,
    other: ObjectRef,
    b1: nat,
    b2: nat,
)
    requires
        b1 <= b2,
        host_is_monotone(h),
        !exhausted(string_add(h, s, this, other, b1).1),
    ensures
        string_add(h, s, this, other, b2) == string_add(h, s, this, other, b1),
    decreases b1, 4nat, 0nat,
{
    lemma_call_instance_method_budget(
        h,
        s,
        other,
        builtin::method::to_s@,
        Seq::empty(),
        None,
        b1,
        b2,
    );
}

/// More budget never changes what the lines of a dictionary come to.
pub proof fn lemma_dictionary_lines_budget<H: SystemHost>(
    h: H,
    s: RuntimeModel,
    table: TableModel,
    i: nat,
    done: Seq<Seq<char>>,
    b1: nat,
    b2: nat,
)
    requires
        b1 <= b2,
        host_is_monotone(h),
        !exhausted(dictionary_lines(h, s, table, i, done, b1).1),
    ensures
        dictionary_lines(h, s, table, i, done, b2) == dictionary_lines(h, s, table, i, done, b1),
    decreases b1, 2nat, table.names.len() - i,
{
    if i < table.names.len() {
        match table.get(table.names[i as int]) {
            None => {
                lemma_dictionary_lines_budget(h, s, table, i + 1, done, b1, b2);
            },
            Some(value) => {
                let (s1, r) = call_instance_method(
                    h,
                    s,
                    value,
                    builtin::method::to_s@,
                    Seq::empty(),
                    None,
                    b1,
                );
                lemma_call_instance_method_budget(
                    h,
                    s,
                    value,
                    builtin::method::to_s@,
                    Seq::empty(),
                    None,
                    b1,
                    b2,
                );
                if let Ok(text) = r {
                    if let Some(shown) = s1.object(text).string() {
                        lemma_dictionary_lines_budget(
                            h,
                            s1,
                            table,
                            i + 1,
                            done.push(
                                entry_line(table.names[i as int], shown),
                            ),
                            b1,
                            b2,
                        );
                    }
                }
            },
        }
    }
}

/// More budget never changes what the text of a dictionary comes to.
pub proof fn lemma_dictionary_to_s_budget<H: SystemHost>(
    h: H,
    s: RuntimeModel,
    this: ObjectRef,
    b1: nat,
    b2: nat,
)
    requires
        b1 <= b2,
        host_is_monotone(h),
        !exhausted(dictionary_to_s(h, s, this, b1).1),
    ensures
        dictionary_to_s(h, s, this, b2) == dictionary_to_s(h, s, this, b1),
    decreases b1, 4nat, 0nat,
{
    match s.object(this).dictionary() {
        Some(table) => {
            lemma_dictionary_lines_budget(h, s, table, 0, Seq::empty(), b1, b2);
        },
        None => {},
    }
}

/// More budget never changes what a method of the standard library comes to.
pub proof fn lemma_builtin_call_budget<H: SystemHost>(
    h: H,
    s: RuntimeModel,
    function: Builtin,
    this: ObjectRef,
    name: Seq<char>,
    arguments: Seq<ObjectRef>,
    b1: nat,
    b2: nat,
)
    requires
        b1 <= b2,
        host_is_monotone(h),
        !exhausted(builtin_call(h, s, function, this, name, arguments, b1).1),
    ensures
        builtin_call(h, s, function, this, name, arguments, b2) == builtin_call(
            h,
            s,
            function,
            this,
            name,
            arguments,
            b1,
        ),
    decreases b1, 5nat, 0nat,
{
    if arguments.len() == function.arity_spec() {
        match function {
            Builtin::StringAdd => {
                lemma_string_add_budget(h, s, this, arguments[0], b1, b2);
            },
            Builtin::ArrayToS => {
                lemma_list_to_s_budget(h, s, this, false, b1, b2);
            },
            Builtin::TupleToS => {
                lemma_list_to_s_budget(h, s, this, true, b1, b2);
            },
            Builtin::DictionaryToS => {
                lemma_dictionary_to_s_budget(h, s, this, b1, b2);
            },
            _ => {},
        }
    }
}

/// The host without functions depends on no budget.
pub proof fn lemma_no_host_is_monotone()
    ensures
        host_is_monotone(NoHost),
{
}

} // verus!
