//! Which parse trees stand for a syntax tree, and the error of those that
//! stand for none.
//!
//! The parts of a pair are read in order, and the first error that a part
//! has is the error of the pair.

use crate::parse::{meta_of, operator_of, ErrorModel, Pair};
use crate::runtime::builtin;
use crate::types::{
    Access, Assignment, Block, Expression, Ident, LValue, Literal, MethodDefinition, Node,
    NodeMeta, Operator, Parameter, Program, Rule, Statement, Variable,
};
use vstd::prelude::*;

verus! {

/// The error of a pair that lacks a part.
pub open spec fn missing(pair: Pair) -> ErrorModel {
    ErrorModel::MissingPart { node: meta_of(pair) }
}

/// The error of a pair whose rule has no place where it stands.
pub open spec fn unexpected(pair: Pair) -> ErrorModel {
    ErrorModel::UnexpectedRule { node: meta_of(pair) }
}

/// The error of a pair that is not of the expected rule.
pub open spec fn mismatch(pair: Pair, expected: Rule) -> Option<ErrorModel> {
    if pair.rule != expected {
        Some(ErrorModel::RuleMismatch { expected, actual: pair.rule })
    } else {
        None
    }
}

/// The first of two errors.
pub open spec fn or_else(first: Option<ErrorModel>, second: Option<ErrorModel>) -> Option<ErrorModel> {
    match first {
        Some(error) => Some(error),
        None => second,
    }
}

/// The error of a pair that stands for no operator.
pub open spec fn operator_error(pair: Pair) -> Option<ErrorModel> {
    if operator_of(pair.rule) is None {
        Some(unexpected(pair))
    } else {
        None
    }
}

/// The error of the parts of a pair, from place `i` on, as variables.
pub open spec fn binding_error(pair: Pair, i: nat) -> Option<ErrorModel>
    decreases pair.inner.len() - i,
{
    if i >= pair.inner.len() {
        None
    } else {
        or_else(mismatch(pair.inner[i as int], Rule::Variable), binding_error(pair, i + 1))
    }
}

/// Whether a rule is one of the rules of a chain of one binary operator.
pub open spec fn is_chain(rule: Rule) -> bool {
    rule == Rule::LogicalOr || rule == Rule::LogicalAnd || rule == Rule::Equality || rule
        == Rule::Comparison || rule == Rule::Term || rule == Rule::Factor
}

/// Whether a rule is one of the rules that stand for what their one part
/// stands for.
pub open spec fn is_wrapper(rule: Rule) -> bool {
    rule == Rule::Expr || rule == Rule::Primary || rule == Rule::Grouping
}

/// Whether a rule is one of the rules of a chain of unary operators.
pub open spec fn is_unary(rule: Rule) -> bool {
    rule == Rule::LogicalNot || rule == Rule::UnaryMinus
}

/// Whether a rule is one of the rules of a target followed by suffixes.
pub open spec fn is_suffixed(rule: Rule) -> bool {
    rule == Rule::Index || rule == Rule::Access || rule == Rule::Call
}

/// The pair that makes the node of an expression: the pair itself, or for
/// a pair that only wraps one part, what makes the node of that part. A
/// chain without an operator, and a target without a suffix, only wrap
/// their first part.
pub open spec fn origin(pair: Pair) -> Pair
    decreases pair,
{
    if pair.inner.len() == 0 {
        pair
    } else if is_wrapper(pair.rule) {
        origin(pair.inner[0])
    } else if is_chain(pair.rule) && pair.inner.len() < 3 {
        origin(pair.inner[0])
    } else if (is_unary(pair.rule) || is_suffixed(pair.rule)) && pair.inner.len() < 2 {
        origin(pair.inner[0])
    } else {
        pair
    }
}

/// The statement pair that a chain of `stmt` rules wraps.
pub open spec fn statement_origin(pair: Pair) -> Pair
    decreases pair,
{
    if pair.rule == Rule::Stmt && pair.inner.len() > 0 {
        statement_origin(pair.inner[0])
    } else {
        pair
    }
}

/// Where the name of a method definition stands among its parts.
pub open spec fn method_name_place(pair: Pair) -> int {
    if pair.inner.len() > 0 && pair.inner[0].rule == Rule::ClassMethodSpec {
        1
    } else {
        0
    }
}

/// Whether a statement pair defines a method `init`.
pub open spec fn defines_init(pair: Pair) -> bool {
    let definition = statement_origin(pair);
    definition.rule == Rule::MethodDef && definition.inner.len() > method_name_place(definition)
        && definition.inner[method_name_place(definition)].source@ == builtin::method::init@
}

/// Whether one of the parts of a pair, from place `i` on, defines a method
/// `init`.
pub open spec fn any_defines_init(pair: Pair, i: nat) -> bool
    decreases pair.inner.len() - i,
{
    if i >= pair.inner.len() {
        false
    } else {
        defines_init(pair.inner[i as int]) || any_defines_init(pair, i + 1)
    }
}

/// Whether a parameter pair has a default value.
pub open spec fn has_default(pair: Pair) -> bool {
    pair.inner.len() > 1 && pair.inner[1].rule == Rule::Expr
}

/// The error of the parts of a pair, from place `i` on, as statements.
pub open spec fn statements_error(pair: Pair, i: nat) -> Option<ErrorModel>
    decreases pair, 0nat, pair.inner.len() - i,
{
    if i >= pair.inner.len() {
        None
    } else {
        or_else(statement_error(pair.inner[i as int]), statements_error(pair, i + 1))
    }
}

/// The error of the parts of a pair, from place `i` on, as expressions.
pub open spec fn expressions_error(pair: Pair, i: nat) -> Option<ErrorModel>
    decreases pair, 0nat, pair.inner.len() - i,
{
    if i >= pair.inner.len() {
        None
    } else {
        or_else(expression_error(pair.inner[i as int]), expressions_error(pair, i + 1))
    }
}

/// The error of the parts of a pair, from place `i` on, as parameters.
pub open spec fn params_error(pair: Pair, i: nat) -> Option<ErrorModel>
    decreases pair, 0nat, pair.inner.len() - i,
{
    if i >= pair.inner.len() {
        None
    } else {
        or_else(param_error(pair.inner[i as int]), params_error(pair, i + 1))
    }
}

/// The error of a pair as a parameter: a name, and a default value if it
/// has one.
pub open spec fn param_error(pair: Pair) -> Option<ErrorModel>
    decreases pair, 1nat, 0nat,
{
    if pair.inner.len() == 0 {
        Some(missing(pair))
    } else {
        or_else(
            mismatch(pair.inner[0], Rule::Ident),
            if has_default(pair) {
                expression_error(pair.inner[1])
            } else {
                None
            },
        )
    }
}

/// The error of a pair as a block.
pub open spec fn block_error(pair: Pair) -> Option<ErrorModel>
    decreases pair, 1nat, 0nat,
{
    statements_error(pair, 0)
}

/// The error of a pair as a program.
pub open spec fn program_error(pair: Pair) -> Option<ErrorModel> {
    if pair.inner.len() == 0 {
        Some(missing(pair))
    } else {
        block_error(pair.inner[0])
    }
}

/// The error of a pair as a body: a list of statements, or one short
/// statement.
pub open spec fn body_error(pair: Pair) -> Option<ErrorModel>
    decreases pair, 10nat, 0nat,
{
    if pair.rule == Rule::Stmts {
        block_error(pair)
    } else {
        statement_error(pair)
    }
}

/// The error of a pair as a method definition.
pub open spec fn method_def_error(pair: Pair) -> Option<ErrorModel>
    decreases pair, 6nat, 0nat,
{
    let start = method_name_place(pair);
    if pair.inner.len() < start + 3 {
        Some(missing(pair))
    } else {
        or_else(params_error(pair.inner[start + 1], 0), body_error(pair.inner[start + 2]))
    }
}

/// The error of the fields of a class, from place `i` on, as the
/// assignments of its constructor.
pub open spec fn fields_error(fields: Pair, i: nat) -> Option<ErrorModel>
    decreases fields, 2nat, fields.inner.len() - i,
{
    if i >= fields.inner.len() {
        None
    } else {
        let field = fields.inner[i as int];
        or_else(
            if field.inner.len() == 0 {
                Some(missing(field))
            } else if has_default(field) {
                expression_error(field.inner[1])
            } else {
                None
            },
            fields_error(fields, i + 1),
        )
    }
}

/// The error of a pair as a class definition. A class with fields may
/// define no method `init`.
pub open spec fn class_def_error(pair: Pair) -> Option<ErrorModel>
    decreases pair, 6nat, 0nat,
{
    if pair.inner.len() < 2 {
        Some(missing(pair))
    } else if pair.inner[1].rule == Rule::ParamList {
        if pair.inner.len() < 3 {
            Some(missing(pair))
        } else {
            or_else(
                statements_error(pair.inner[2], 0),
                or_else(
                    params_error(pair.inner[1], 0),
                    if any_defines_init(pair.inner[2], 0) {
                        Some(ErrorModel::ClassHasTwoInitializers { class: pair.inner[0].source@ })
                    } else {
                        fields_error(pair.inner[1], 0)
                    },
                ),
            )
        }
    } else {
        block_error(pair.inner[1])
    }
}

/// The error of a pair as a statement.
pub open spec fn statement_error(pair: Pair) -> Option<ErrorModel>
    decreases pair, 8nat, 0nat,
{
    match pair.rule {
        Rule::Stmt => if pair.inner.len() == 0 {
            Some(missing(pair))
        } else {
            statement_error(pair.inner[0])
        },
        Rule::Assignment => if pair.inner.len() < 3 {
            Some(missing(pair))
        } else {
            or_else(
                lvalue_error(pair.inner[0]),
                or_else(operator_error(pair.inner[1]), expression_error(pair.inner[2])),
            )
        },
        Rule::ClassDef => class_def_error(pair),
        Rule::MethodDef => method_def_error(pair),
        Rule::ForIn => if pair.inner.len() < 3 {
            Some(missing(pair))
        } else {
            or_else(
                binding_error(pair.inner[0], 0),
                or_else(expression_error(pair.inner[1]), body_error(pair.inner[2])),
            )
        },
        Rule::WhileLoop => if pair.inner.len() < 2 {
            Some(missing(pair))
        } else {
            or_else(expression_error(pair.inner[0]), body_error(pair.inner[1]))
        },
        Rule::LoopBreak => None,
        Rule::LoopContinue => None,
        Rule::ReturnStmt => if pair.inner.len() > 0 {
            expression_error(pair.inner[0])
        } else {
            None
        },
        Rule::Expr => expression_error(pair),
        Rule::UseStmt => if pair.inner.len() == 0 {
            Some(missing(pair))
        } else {
            binding_error(pair.inner[0], 0)
        },
        _ => Some(unexpected(pair)),
    }
}

/// The error of the operands and operators of a chain from place `i` on,
/// where an operator stands at `i`: each operand comes before its operator.
pub open spec fn chain_error(pair: Pair, i: nat) -> Option<ErrorModel>
    decreases pair, 1nat, pair.inner.len() - i,
{
    if i + 1 >= pair.inner.len() {
        None
    } else {
        or_else(
            expression_error(pair.inner[(i + 1) as int]),
            or_else(operator_error(pair.inner[i as int]), chain_error(pair, i + 2)),
        )
    }
}

/// The error of the operators before the operand of a chain of unary
/// operators, from place `i` backward.
pub open spec fn unary_error(pair: Pair, i: int) -> Option<ErrorModel>
    decreases i + 1,
{
    if i < 0 || i >= pair.inner.len() {
        None
    } else {
        or_else(operator_error(pair.inner[i]), unary_error(pair, i - 1))
    }
}

/// The error of the lists of arguments of a call from place `i` on.
pub open spec fn arguments_error(pair: Pair, i: nat) -> Option<ErrorModel>
    decreases pair, 1nat, pair.inner.len() - i,
{
    if i >= pair.inner.len() {
        None
    } else {
        or_else(
            if pair.inner[i as int].inner.len() > 0 {
                expressions_error(pair.inner[i as int].inner[0], 0)
            } else {
                None
            },
            arguments_error(pair, i + 1),
        )
    }
}

/// The error of the values of the entries of a dictionary literal from
/// place `i` on, where a key stands at `i`.
pub open spec fn entries_error(pair: Pair, i: nat) -> Option<ErrorModel>
    decreases pair, 0nat, pair.inner.len() - i,
{
    if i + 1 >= pair.inner.len() {
        None
    } else {
        or_else(expression_error(pair.inner[(i + 1) as int]), entries_error(pair, i + 2))
    }
}

/// The error of a pair as a literal.
pub open spec fn literal_error(pair: Pair) -> Option<ErrorModel>
    decreases pair, 1nat, 0nat,
{
    if pair.rule != Rule::Literal {
        mismatch(pair, Rule::Literal)
    } else if pair.inner.len() == 0 {
        Some(missing(pair))
    } else {
        let inner = pair.inner[0];
        match inner.rule {
            Rule::Nil => None,
            Rule::Bool => None,
            Rule::Number => if inner.number is None {
                Some(ErrorModel::ParseFloat { source: inner.source@ })
            } else {
                None
            },
            Rule::Text => if inner.inner.len() == 0 {
                Some(missing(inner))
            } else {
                None
            },
            Rule::Array => if inner.inner.len() > 0 {
                expressions_error(inner.inner[0], 0)
            } else {
                None
            },
            Rule::Dict => entries_error(inner, 0),
            Rule::Tuple => expressions_error(inner, 0),
            _ => Some(unexpected(inner)),
        }
    }
}

/// The error of a pair as an expression.
pub open spec fn expression_error(pair: Pair) -> Option<ErrorModel>
    decreases pair, 7nat, 0nat,
{
    let rule = pair.rule;
    if is_wrapper(rule) {
        if pair.inner.len() == 0 {
            Some(missing(pair))
        } else {
            expression_error(pair.inner[0])
        }
    } else if rule == Rule::Binding {
        if pair.inner.len() > 1 {
            Some(ErrorModel::IllegalBinding { node: meta_of(pair) })
        } else if pair.inner.len() == 0 {
            Some(missing(pair))
        } else {
            mismatch(pair.inner[0], Rule::Variable)
        }
    } else if is_chain(rule) {
        if pair.inner.len() == 0 {
            Some(missing(pair))
        } else {
            or_else(expression_error(pair.inner[0]), chain_error(pair, 1))
        }
    } else if is_unary(rule) {
        if pair.inner.len() == 0 {
            Some(missing(pair))
        } else {
            or_else(
                expression_error(pair.inner[pair.inner.len() - 1]),
                unary_error(pair, pair.inner.len() - 2),
            )
        }
    } else if rule == Rule::Call {
        if pair.inner.len() == 0 {
            Some(missing(pair))
        } else {
            or_else(expression_error(pair.inner[0]), arguments_error(pair, 1))
        }
    } else if rule == Rule::Index || rule == Rule::Access {
        if pair.inner.len() == 0 {
            Some(missing(pair))
        } else {
            expressions_error(pair, 0)
        }
    } else if rule == Rule::Closure {
        if pair.inner.len() < 2 {
            Some(missing(pair))
        } else {
            or_else(binding_error(pair.inner[0], 0), body_error(pair.inner[1]))
        }
    } else if rule == Rule::Literal {
        literal_error(pair)
    } else if rule == Rule::Path {
        binding_error(pair, 0)
    } else if rule == Rule::IfElse {
        if pair.inner.len() < 2 {
            Some(missing(pair))
        } else {
            or_else(
                expression_error(pair.inner[0]),
                or_else(
                    body_error(pair.inner[1]),
                    if pair.inner.len() > 2 {
                        body_error(pair.inner[2])
                    } else {
                        None
                    },
                ),
            )
        }
    } else {
        Some(unexpected(pair))
    }
}

/// Whether the node that a pair makes is a variable.
pub open spec fn makes_variable(pair: Pair) -> bool {
    let made = origin(pair);
    made.rule == Rule::Binding || (made.rule == Rule::Path && made.inner.len() == 1)
}

/// Whether every part of a pair, from place `i` on, makes a variable.
pub open spec fn all_make_variables(pair: Pair, i: nat) -> bool
    decreases pair.inner.len() - i,
{
    if i >= pair.inner.len() {
        true
    } else {
        makes_variable(pair.inner[i as int]) && all_make_variables(pair, i + 1)
    }
}

/// Whether the node that a pair makes can be the target of an assignment:
/// a variable, an access or an indexing.
pub open spec fn makes_target(pair: Pair) -> bool {
    let made = origin(pair);
    makes_variable(pair) || made.rule == Rule::Index || made.rule == Rule::Access
}

/// The error of a pair as the target of an assignment: the variables of a
/// tuple, or an index, an access or a single variable.
pub open spec fn lvalue_error(pair: Pair) -> Option<ErrorModel>
    decreases pair, 8nat, 0nat,
{
    if pair.rule != Rule::LValue {
        mismatch(pair, Rule::LValue)
    } else if pair.inner.len() == 0 {
        Some(missing(pair))
    } else {
        let inner = pair.inner[0];
        match inner.rule {
            Rule::Tuple => or_else(
                expressions_error(inner, 0),
                if all_make_variables(inner, 0) {
                    None
                } else {
                    Some(ErrorModel::IllegalBinding { node: meta_of(inner) })
                },
            ),
            Rule::Index => or_else(
                expression_error(inner),
                if makes_target(inner) {
                    None
                } else {
                    Some(ErrorModel::IllegalLValue { lvalue: meta_of(origin(inner)) })
                },
            ),
            _ => Some(unexpected(inner)),
        }
    }
}

/// The identifier that a pair stands for: its text, at its place.
pub open spec fn ident_of(pair: Pair) -> Node<Ident> {
    Node { meta: meta_of(pair), v: Ident { name: pair.source } }
}

/// The variable that a pair stands for: its text as a name, at its place.
pub open spec fn variable_of(pair: Pair) -> Node<Variable> {
    Node { meta: meta_of(pair), v: Variable { ident: ident_of(pair) } }
}

/// The expression that reads the variable that a pair names.
pub open spec fn variable_expression_of(pair: Pair) -> Node<Expression> {
    Node { meta: meta_of(pair), v: Expression::Variable(variable_of(pair)) }
}

/// The node is the operator that the pair stands for.
pub open spec fn is_operator(pair: Pair, node: Node<Operator>) -> bool {
    operator_of(pair.rule) == Some(node.v) && node.meta == meta_of(pair)
}

/// The nodes are the variables that the parts of the pair name, in order.
pub open spec fn are_variables(pair: Pair, nodes: Seq<Node<Variable>>) -> bool {
    &&& nodes.len() == pair.inner.len()
    &&& forall|i: int| 0 <= i < nodes.len() ==> #[trigger] nodes[i] == variable_of(pair.inner[i])
}

/// The nodes are the statements that the parts of the pair stand for, in
/// order.
pub open spec fn are_statements(pair: Pair, nodes: Seq<Node<Statement>>) -> bool
    decreases pair, 0nat, 0nat,
{
    &&& nodes.len() == pair.inner.len()
    &&& forall|i: int|
        0 <= i < nodes.len() && i < pair.inner.len() ==> is_statement(pair.inner[i], #[trigger] nodes[i])
}

/// The nodes are the expressions that the parts of the pair stand for, in
/// order.
pub open spec fn are_expressions(pair: Pair, nodes: Seq<Node<Expression>>) -> bool
    decreases pair, 0nat, 0nat,
{
    &&& nodes.len() == pair.inner.len()
    &&& forall|i: int|
        0 <= i < nodes.len() && i < pair.inner.len() ==> is_expression(pair.inner[i], #[trigger] nodes[i])
}

/// The nodes are the parameters that the parts of the pair stand for, in
/// order.
pub open spec fn are_params(pair: Pair, nodes: Seq<Node<Parameter>>) -> bool
    decreases pair, 0nat, 0nat,
{
    &&& nodes.len() == pair.inner.len()
    &&& forall|i: int|
        0 <= i < nodes.len() && i < pair.inner.len() ==> is_param(pair.inner[i], #[trigger] nodes[i])
}

/// The node is the parameter that the pair stands for: the name that is
/// its first part, with the default value that is its second part if that
/// is an expression.
pub open spec fn is_param(pair: Pair, node: Node<Parameter>) -> bool
    decreases pair, 1nat, 0nat,
{
    &&& pair.inner.len() > 0
    &&& node.meta == meta_of(pair)
    &&& node.v.name == ident_of(pair.inner[0])
    &&& match node.v.default {
        Some(default) => has_default(pair) && is_expression(pair.inner[1], default),
        None => !has_default(pair),
    }
}

/// The node is the block that the pair stands for: a statement for each
/// part.
pub open spec fn is_block(pair: Pair, node: Node<Block>) -> bool
    decreases pair, 1nat, 0nat,
{
    node.meta == meta_of(pair) && are_statements(pair, node.v.statements@)
}

/// The node is the program that the pair stands for: the block that is
/// its first part.
pub open spec fn is_program(pair: Pair, node: Node<Program>) -> bool {
    pair.inner.len() > 0 && node.meta == meta_of(pair) && is_block(pair.inner[0], node.v.body)
}

/// The node is the body that the pair stands for: the block of a list of
/// statements, or a block of the one statement that the pair is.
pub open spec fn is_body(pair: Pair, node: Node<Block>) -> bool
    decreases pair, 10nat, 0nat,
{
    if pair.rule == Rule::Stmts {
        is_block(pair, node)
    } else {
        node.meta == meta_of(pair) && node.v.statements@.len() == 1 && is_statement(
            pair,
            node.v.statements@[0],
        )
    }
}

/// The node is the method definition that the pair stands for.
pub open spec fn is_method_def(pair: Pair, node: Node<MethodDefinition>) -> bool
    decreases pair, 6nat, 0nat,
{
    let start = method_name_place(pair);
    &&& pair.inner.len() >= start + 3
    &&& node.meta == meta_of(pair)
    &&& node.v.is_class_method == (start == 1)
    &&& node.v.name == ident_of(pair.inner[start])
    &&& are_params(pair.inner[start + 1], node.v.parameters@)
    &&& is_body(pair.inner[start + 2], *node.v.body)
}

/// The expression reads the variable `self` at the place of the pair.
pub open spec fn is_receiver(pair: Pair, node: Node<Expression>) -> bool {
    &&& node.meta == meta_of(pair)
    &&& match node.v {
        Expression::Variable(variable) => variable.meta == meta_of(pair) && variable.v.ident.meta
            == meta_of(pair) && variable.v.ident.v.name@ == builtin::SELF@,
        _ => false,
    }
}

/// The statement assigns to the field of the receiver that the pair
/// names: the field's default value if it has one, and else the variable
/// of the field's name.
pub open spec fn is_field_assignment(field: Pair, node: Node<Statement>) -> bool
    decreases field, 1nat, 0nat,
{
    &&& field.inner.len() > 0
    &&& node.meta == meta_of(field)
    &&& match node.v {
        Statement::Assignment(assignment) => {
            &&& assignment.meta == meta_of(field)
            &&& assignment.v.op == (Node { meta: meta_of(field), v: Operator::Equal })
            &&& assignment.v.target.meta == meta_of(field)
            &&& match assignment.v.target.v {
                LValue::Access(access) => access.meta == meta_of(field) && is_receiver(
                    field,
                    *access.v.target,
                ) && *access.v.member == variable_expression_of(field.inner[0]),
                _ => false,
            }
            &&& if has_default(field) {
                is_expression(field.inner[1], assignment.v.value)
            } else {
                assignment.v.value == variable_expression_of(field.inner[0])
            }
        },
        _ => false,
    }
}

/// The parameters of the constructor that the fields from place `i` on
/// stand for: of the fields without a default value, each by its name.
pub open spec fn plain_fields(fields: Pair, i: nat) -> Seq<Node<Ident>>
    decreases fields.inner.len() - i,
{
    if i >= fields.inner.len() {
        Seq::empty()
    } else if has_default(fields.inner[i as int]) || fields.inner[i as int].inner.len() == 0 {
        plain_fields(fields, i + 1)
    } else {
        seq![ident_of(fields.inner[i as int].inner[0])] + plain_fields(fields, i + 1)
    }
}

/// The names of a list of parameters that have no default value.
pub open spec fn plain_names(parameters: Seq<Node<Parameter>>) -> Seq<Node<Ident>> {
    Seq::new(parameters.len(), |i: int| parameters[i].v.name)
}

/// The statement is the constructor that the fields of a class stand for.
/// It is a method `init` for instances, at the place of the fields, with
/// the class's name as the place of its name. Its parameters are the fields
/// without a default value, in order, and its body assigns to each field of
/// the receiver, in order.
pub open spec fn is_field_constructor(name: Pair, fields: Pair, node: Node<Statement>) -> bool
    decreases fields, 2nat, 0nat,
{
    &&& node.meta == meta_of(fields)
    &&& match node.v {
        Statement::MethodDefinition(definition) => {
            &&& definition.meta == meta_of(fields)
            &&& !definition.v.is_class_method
            &&& definition.v.name.meta == meta_of(name)
            &&& definition.v.name.v.name@ == builtin::method::init@
            &&& plain_names(definition.v.parameters@) == plain_fields(fields, 0)
            &&& forall|i: int|
                0 <= i < definition.v.parameters@.len() ==> (
                #[trigger] definition.v.parameters@[i]).v.default is None
            &&& definition.v.body.meta == meta_of(fields)
            &&& definition.v.body.v.statements@.len() == fields.inner.len()
            &&& forall|i: int|
                0 <= i < fields.inner.len() && i < definition.v.body.v.statements@.len()
                    ==> is_field_assignment(
                    fields.inner[i],
                    #[trigger] definition.v.body.v.statements@[i],
                )
        },
        _ => false,
    }
}

/// The statement is the class definition that the pair stands for. The
/// body of a class with fields ends with the constructor that the fields
/// stand for.
pub open spec fn is_class_def(pair: Pair, node: Node<Statement>) -> bool
    decreases pair, 6nat, 0nat,
{
    &&& pair.inner.len() >= 2
    &&& node.meta == meta_of(pair)
    &&& match node.v {
        Statement::ClassDefinition(definition) => {
            &&& definition.meta == meta_of(pair)
            &&& definition.v.name == ident_of(pair.inner[0])
            &&& if pair.inner[1].rule == Rule::ParamList {
                let statements = definition.v.body.v.statements@;
                &&& pair.inner.len() >= 3
                &&& are_params(pair.inner[1], definition.v.fields@)
                &&& definition.v.body.meta == meta_of(pair.inner[2])
                &&& statements.len() == pair.inner[2].inner.len() + 1
                &&& are_statements(pair.inner[2], statements.drop_last())
                &&& is_field_constructor(pair.inner[0], pair.inner[1], statements.last())
            } else {
                definition.v.fields@.len() == 0 && is_block(pair.inner[1], definition.v.body)
            }
        },
        _ => false,
    }
}

/// The node is the statement that the pair stands for.
pub open spec fn is_statement(pair: Pair, node: Node<Statement>) -> bool
    decreases pair, 8nat, 0nat,
{
    let meta = meta_of(pair);
    match pair.rule {
        Rule::Stmt => pair.inner.len() > 0 && is_statement(pair.inner[0], node),
        Rule::Assignment => pair.inner.len() >= 3 && node.meta == meta && (match node.v {
            Statement::Assignment(assignment) => assignment.meta == meta && is_lvalue(
                pair.inner[0],
                assignment.v.target,
            ) && is_operator(pair.inner[1], assignment.v.op) && is_expression(
                pair.inner[2],
                assignment.v.value,
            ),
            _ => false,
        }),
        Rule::ClassDef => is_class_def(pair, node),
        Rule::MethodDef => node.meta == meta && (match node.v {
            Statement::MethodDefinition(definition) => is_method_def(pair, definition),
            _ => false,
        }),
        Rule::ForIn => pair.inner.len() >= 3 && node.meta == meta && (match node.v {
            Statement::ForIn(for_in) => for_in.meta == meta && are_variables(
                pair.inner[0],
                for_in.v.binding@,
            ) && is_expression(pair.inner[1], for_in.v.iterable) && is_body(
                pair.inner[2],
                for_in.v.body,
            ),
            _ => false,
        }),
        Rule::WhileLoop => pair.inner.len() >= 2 && node.meta == meta && (match node.v {
            Statement::WhileLoop(while_loop) => while_loop.meta == meta && is_expression(
                pair.inner[0],
                while_loop.v.condition,
            ) && is_body(pair.inner[1], while_loop.v.body),
            _ => false,
        }),
        Rule::LoopBreak => node.meta == meta && (match node.v {
            Statement::Break(inner) => inner.meta == meta,
            _ => false,
        }),
        Rule::LoopContinue => node.meta == meta && (match node.v {
            Statement::Continue(inner) => inner.meta == meta,
            _ => false,
        }),
        Rule::ReturnStmt => node.meta == meta && (match node.v {
            Statement::Return(inner) => inner.meta == meta && (match inner.v.retval {
                Some(retval) => pair.inner.len() > 0 && is_expression(pair.inner[0], retval),
                None => pair.inner.len() == 0,
            }),
            _ => false,
        }),
        Rule::Expr => node.meta == meta && (match node.v {
            Statement::Expression(expression) => is_expression(pair, expression),
            _ => false,
        }),
        Rule::UseStmt => pair.inner.len() > 0 && node.meta == meta && (match node.v {
            Statement::Use(inner) => inner.meta == meta && inner.v.path.meta == meta_of(
                pair.inner[0],
            ) && are_variables(pair.inner[0], inner.v.path.v.components@),
            _ => false,
        }),
        _ => false,
    }
}

/// The node is what the first `k` operators of a chain make: the first
/// operand where `k` is zero, and else the operation of the operator at
/// place `2k - 1` on what the operators before it make and the operand
/// after it.
pub open spec fn is_chain_of(pair: Pair, k: nat, node: Node<Expression>) -> bool
    decreases pair, 1nat, k,
{
    if 2 * k >= pair.inner.len() {
        false
    } else if k == 0 {
        is_expression(pair.inner[0], node)
    } else {
        node.meta == meta_of(pair) && (match node.v {
            Expression::Binary(binary) => binary.meta == meta_of(pair) && is_operator(
                pair.inner[2 * k - 1],
                binary.v.op,
            ) && is_expression(pair.inner[(2 * k) as int], *binary.v.rhs) && is_chain_of(
                pair,
                (k - 1) as nat,
                *binary.v.lhs,
            ),
            _ => false,
        })
    }
}

/// The node is what the unary operators from place `i` on make of the
/// operand, which is the last part: the operand itself where `i` is its
/// place, and else the operation of the operator at `i` on what the
/// operators after it make.
pub open spec fn is_unary_of(pair: Pair, i: nat, node: Node<Expression>) -> bool
    decreases pair, 1nat, pair.inner.len() - i,
{
    if i >= pair.inner.len() {
        false
    } else if i == pair.inner.len() - 1 {
        is_expression(pair.inner[i as int], node)
    } else {
        node.meta == meta_of(pair) && (match node.v {
            Expression::Unary(unary) => unary.meta == meta_of(pair) && is_operator(
                pair.inner[i as int],
                unary.v.op,
            ) && is_unary_of(pair, i + 1, *unary.v.rhs),
            _ => false,
        })
    }
}

/// The nodes are the arguments that a list of arguments stands for.
pub open spec fn are_arguments(arg_list: Pair, nodes: Seq<Node<Expression>>) -> bool
    decreases arg_list, 1nat, 0nat,
{
    if arg_list.inner.len() > 0 {
        are_expressions(arg_list.inner[0], nodes)
    } else {
        nodes.len() == 0
    }
}

/// The node is what the first `k` suffixes of a target make: the target
/// where `k` is zero, and else the call, the indexing or the access that
/// the suffix at place `k` makes of what the suffixes before it make.
pub open spec fn is_suffixed_of(pair: Pair, k: nat, node: Node<Expression>) -> bool
    decreases pair, 1nat, k,
{
    if k >= pair.inner.len() {
        false
    } else if k == 0 {
        is_expression(pair.inner[0], node)
    } else {
        node.meta == meta_of(pair) && (match node.v {
            Expression::Call(call) => pair.rule == Rule::Call && call.meta == meta_of(pair)
                && are_arguments(pair.inner[k as int], call.v.arguments@) && is_suffixed_of(
                pair,
                (k - 1) as nat,
                *call.v.target,
            ),
            Expression::Index(index) => pair.rule == Rule::Index && index.meta == meta_of(pair)
                && is_expression(pair.inner[k as int], *index.v.index) && is_suffixed_of(
                pair,
                (k - 1) as nat,
                *index.v.target,
            ),
            Expression::Access(access) => pair.rule == Rule::Access && access.meta == meta_of(pair)
                && is_expression(pair.inner[k as int], *access.v.member) && is_suffixed_of(
                pair,
                (k - 1) as nat,
                *access.v.target,
            ),
            _ => false,
        })
    }
}

/// The entries are what the parts of a dictionary literal stand for: a
/// key and a value for each two parts.
pub open spec fn are_entries(pair: Pair, entries: Seq<(Node<Ident>, Node<Expression>)>) -> bool
    decreases pair, 0nat, 0nat,
{
    &&& entries.len() == pair.inner.len() / 2
    &&& forall|k: int|
        0 <= k < entries.len() && 2 * k + 1 < pair.inner.len() ==> (#[trigger] entries[k]).0
            == ident_of(pair.inner[2 * k]) && is_expression(pair.inner[2 * k + 1], entries[k].1)
}

/// The node is the literal that the pair stands for. A boolean is `true`
/// exactly where its text is `true`; a number is the number that came with
/// the pair; a string is the text of its first part.
pub open spec fn is_literal(pair: Pair, node: Node<Literal>) -> bool
    decreases pair, 1nat, 0nat,
{
    pair.rule == Rule::Literal && pair.inner.len() > 0 && {
        let inner = pair.inner[0];
        let meta = meta_of(inner);
        node.meta == meta && (match node.v {
            Literal::Nil(nil) => inner.rule == Rule::Nil && nil.meta == meta,
            Literal::Boolean(boolean) => inner.rule == Rule::Bool && boolean.meta == meta
                && boolean.v.value == (inner.source@ == "true"@),
            Literal::Number(number) => inner.rule == Rule::Number && number.meta == meta
                && inner.number == Some(number.v.value),
            Literal::StringLit(string) => inner.rule == Rule::Text && string.meta == meta
                && inner.inner.len() > 0 && string.v.value == inner.inner[0].source,
            Literal::Array(array) => inner.rule == Rule::Array && array.meta == meta
                && are_arguments(inner, array.v.elements@),
            Literal::Dictionary(dictionary) => inner.rule == Rule::Dict && dictionary.meta == meta
                && are_entries(inner, dictionary.v.entries@),
            Literal::Tuple(tuple) => inner.rule == Rule::Tuple && tuple.meta == meta
                && are_expressions(inner, tuple.v.items@),
        })
    }
}

/// The node is the expression that the pair stands for.
pub open spec fn is_expression(pair: Pair, node: Node<Expression>) -> bool
    decreases pair, 7nat, 0nat,
{
    let rule = pair.rule;
    let meta = meta_of(pair);
    if is_wrapper(rule) {
        pair.inner.len() > 0 && is_expression(pair.inner[0], node)
    } else if rule == Rule::Binding {
        pair.inner.len() == 1 && node == (Node {
            meta,
            v: Expression::Variable(variable_of(pair.inner[0])),
        })
    } else if is_chain(rule) {
        pair.inner.len() > 0 && is_chain_of(pair, ((pair.inner.len() - 1) / 2) as nat, node)
    } else if is_unary(rule) {
        is_unary_of(pair, 0, node)
    } else if is_suffixed(rule) {
        pair.inner.len() > 0 && is_suffixed_of(pair, (pair.inner.len() - 1) as nat, node)
    } else if rule == Rule::Closure {
        pair.inner.len() >= 2 && node.meta == meta && (match node.v {
            Expression::Closure(closure) => closure.meta == meta && are_variables(
                pair.inner[0],
                closure.v.binding@,
            ) && is_body(pair.inner[1], *closure.v.body),
            _ => false,
        })
    } else if rule == Rule::Literal {
        node.meta == meta && (match node.v {
            Expression::Literal(literal) => is_literal(pair, literal),
            _ => false,
        })
    } else if rule == Rule::Path {
        node.meta == meta && (match node.v {
            Expression::Variable(variable) => pair.inner.len() == 1 && variable == variable_of(
                pair.inner[0],
            ),
            Expression::Path(path) => pair.inner.len() != 1 && path.meta == meta && are_variables(
                pair,
                path.v.components@,
            ),
            _ => false,
        })
    } else if rule == Rule::IfElse {
        pair.inner.len() >= 2 && node.meta == meta && (match node.v {
            Expression::IfElse(if_else) => if_else.meta == meta && is_expression(
                pair.inner[0],
                *if_else.v.condition,
            ) && is_body(pair.inner[1], if_else.v.then_body) && (match if_else.v.else_body {
                Some(else_body) => pair.inner.len() > 2 && is_body(pair.inner[2], else_body),
                None => pair.inner.len() == 2,
            }),
            _ => false,
        })
    } else {
        false
    }
}

/// The expression that a target of an assignment was made from.
pub open spec fn target_expression(pair: Pair, target: LValue) -> Node<Expression> {
    Node {
        meta: meta_of(origin(pair)),
        v: match target {
            LValue::Index(index) => Expression::Index(index),
            LValue::Access(access) => Expression::Access(access),
            LValue::Binding(binding) => Expression::Variable(binding.v.variables@[0]),
        },
    }
}

/// The node is the target of an assignment that the pair stands for. A
/// tuple stands for the variables that its items are; an index, an access
/// or a variable stands for itself.
pub open spec fn is_lvalue(pair: Pair, node: Node<LValue>) -> bool
    decreases pair, 8nat, 0nat,
{
    pair.rule == Rule::LValue && pair.inner.len() > 0 && {
        let inner = pair.inner[0];
        let meta = meta_of(inner);
        node.meta == meta && (match inner.rule {
            Rule::Tuple => match node.v {
                LValue::Binding(binding) => binding.meta == meta && binding.v.variables@.len()
                    == inner.inner.len() && forall|i: int|
                    0 <= i < inner.inner.len() && i < binding.v.variables@.len() ==> is_expression(
                        inner.inner[i],
                        Node {
                            meta: meta_of(origin(inner.inner[i])),
                            v: Expression::Variable(#[trigger] binding.v.variables@[i]),
                        },
                    ),
                _ => false,
            },
            Rule::Index => (match node.v {
                LValue::Binding(binding) => binding.meta == meta && binding.v.variables@.len() == 1,
                _ => true,
            }) && is_expression(inner, target_expression(inner, node.v)),
            _ => false,
        })
    }
}

} // verus!
