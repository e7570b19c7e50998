//! From the parse tree to the syntax tree.
//!
//! A [`Pair`] is what the grammar matched: a rule, the source text, and the
//! pairs that it matched inside. The functions here turn a pair into the
//! syntax node that it stands for, and refuse a tree that the grammar could
//! not have made.

use crate::runtime::builtin;
use crate::text::same_text;
use crate::types::{
    Access, Array, Assignment, Binary, Binding, Block, Boolean, Break, Call, ClassDefinition,
    Closure, Continue, Dictionary, Expression, ForIn, Ident, IfElse, Index, LValue, Literal,
    MethodDefinition, Nil, Node, NodeMeta, NodeVariant, Number, Operator, Parameter, Path,
    Program, Return, Rule, Statement, StringLit, TopError, Tuple, Unary, Use, Variable,
    WhileLoop,
};
use std::rc::Rc;
use vstd::prelude::*;
use vstd::string::StringExecFns;

pub mod meaning;
pub mod pretty;

use crate::parse::meaning::{
    are_arguments, are_entries, are_expressions, are_params, are_statements, are_variables,
    block_error, body_error, class_def_error, expression_error, ident_of, is_block, is_body,
    is_chain, is_expression, is_literal, is_lvalue, is_method_def, is_operator, is_param,
    is_program, is_statement, is_suffixed, is_unary, literal_error, lvalue_error, makes_target,
    makes_variable, method_def_error, mismatch, missing, operator_error, origin, param_error,
    program_error, statement_error, variable_of,
};

verus! {

/// A node of the parse tree.
#[derive(Debug)]
pub struct Pair {
    pub rule: Rule,
    /// The source text that the rule matched.
    pub source: String,
    /// The line and the column at which the text starts.
    pub line_col: (usize, usize),
    /// For a number literal, the bit pattern of the double-precision
    /// number that its text denotes; `None` where the text denotes none.
    pub number: Option<u64>,
    /// What the rule matched inside, in order.
    pub inner: Vec<Pair>,
}

/// An error of lowering: what is wrong with a parse tree.
#[derive(Debug)]
#[allow(inconsistent_fields)]
pub enum Error {
    /// The source text does not follow the grammar; the text tells where.
    Pest(String),
    /// The text of a number literal denotes no number.
    ParseFloat { source: String },
    IllegalLValue { lvalue: NodeMeta },
    RuleMismatch { expected: Rule, actual: Rule },
    ClassHasTwoInitializers { class: String },
    IllegalBinding { node: NodeMeta },
    /// A rule stands where the grammar has no place for it.
    UnexpectedRule { node: NodeMeta },
    /// A pair lacks a part that its rule always has.
    MissingPart { node: NodeMeta },
}

/// What an [`Error`] holds, with its texts as sequences of characters.
#[allow(inconsistent_fields)]
pub ghost enum ErrorModel {
    Pest(Seq<char>),
    ParseFloat { source: Seq<char> },
    IllegalLValue { lvalue: NodeMeta },
    RuleMismatch { expected: Rule, actual: Rule },
    ClassHasTwoInitializers { class: Seq<char> },
    IllegalBinding { node: NodeMeta },
    UnexpectedRule { node: NodeMeta },
    MissingPart { node: NodeMeta },
}

impl View for Error {
    type V = ErrorModel;

    open spec fn view(&self) -> ErrorModel {
        match *self {
            Error::Pest(message) => ErrorModel::Pest(message@),
            Error::ParseFloat { source } => ErrorModel::ParseFloat { source: source@ },
            Error::IllegalLValue { lvalue } => ErrorModel::IllegalLValue { lvalue },
            Error::RuleMismatch { expected, actual } => ErrorModel::RuleMismatch { expected, actual },
            Error::ClassHasTwoInitializers { class } => ErrorModel::ClassHasTwoInitializers {
                class: class@,
            },
            Error::IllegalBinding { node } => ErrorModel::IllegalBinding { node },
            Error::UnexpectedRule { node } => ErrorModel::UnexpectedRule { node },
            Error::MissingPart { node } => ErrorModel::MissingPart { node },
        }
    }
}

/// The message that tells of an error.
pub open spec fn message(error: ErrorModel) -> Seq<char> {
    match error {
        ErrorModel::Pest(text) => "pest error: "@ + text,
        ErrorModel::ParseFloat { source } => "parse float error: invalid float literal '"@ + source
            + "'"@,
        ErrorModel::IllegalLValue { lvalue } => "illegal lvalue for assignment: "@ + lvalue.text(),
        ErrorModel::RuleMismatch { expected, actual } => "rule mismatch: expected '"@
            + expected.name_text() + "', got '"@ + actual.name_text() + "'"@,
        ErrorModel::ClassHasTwoInitializers { class } =>
            "class cannot both have fields and an initializer method: '"@ + class + "'"@,
        ErrorModel::IllegalBinding { node } =>
            "syntax error, illegal multi-variable binding expression: '"@ + node.text() + "'"@,
        ErrorModel::UnexpectedRule { node } => "syntax error, unexpected rule: "@ + node.text(),
        ErrorModel::MissingPart { node } => "syntax error, incomplete rule: "@ + node.text(),
    }
}

impl Error {
    /// The message that tells of the error.
    pub fn to_string(&self) -> (r: String)
        ensures
            r@ == message(self@),
    {
        match self {
            Error::Pest(text) => {
                let mut r = "pest error: ".to_owned();
                r.append(text.as_str());
                r
            },
            Error::ParseFloat { source } => {
                let mut r = "parse float error: invalid float literal '".to_owned();
                r.append(source.as_str());
                r.append("'");
                r
            },
            Error::IllegalLValue { lvalue } => {
                let mut r = "illegal lvalue for assignment: ".to_owned();
                r.append(lvalue.to_string().as_str());
                r
            },
            Error::RuleMismatch { expected, actual } => {
                let mut r = "rule mismatch: expected '".to_owned();
                r.append(expected.name());
                r.append("', got '");
                r.append(actual.name());
                r.append("'");
                r
            },
            Error::ClassHasTwoInitializers { class } => {
                let mut r = "class cannot both have fields and an initializer method: '".to_owned();
                r.append(class.as_str());
                r.append("'");
                r
            },
            Error::IllegalBinding { node } => {
                let mut r = "syntax error, illegal multi-variable binding expression: '".to_owned();
                r.append(node.to_string().as_str());
                r.append("'");
                r
            },
            Error::UnexpectedRule { node } => {
                let mut r = "syntax error, unexpected rule: ".to_owned();
                r.append(node.to_string().as_str());
                r
            },
            Error::MissingPart { node } => {
                let mut r = "syntax error, incomplete rule: ".to_owned();
                r.append(node.to_string().as_str());
                r
            },
        }
    }
}

/// The location of a pair.
pub open spec fn meta_of(pair: Pair) -> NodeMeta {
    NodeMeta { source: pair.source, rule: pair.rule, line_col: pair.line_col }
}

impl Pair {
    /// The location of the pair.
    pub fn meta(&self) -> (r: NodeMeta)
        ensures
            r == meta_of(*self),
    {
        NodeMeta { source: self.source.clone(), rule: self.rule, line_col: self.line_col }
    }
}

/// The part of `pair` at place `i`, or the error that it lacks one.
fn part(pair: &Pair, i: usize) -> (r: Result<&Pair, Error>)
    ensures
        match r {
            Ok(p) => i < pair.inner.len() && *p == pair.inner[i as int],
            Err(error) => i >= pair.inner.len() && error@ == missing(*pair),
        },
{
    if i < pair.inner.len() {
        Ok(&pair.inner[i])
    } else {
        Err(Error::MissingPart { node: pair.meta() })
    }
}

/// Fails with `RuleMismatch` unless the pair is of the expected rule.
pub fn assert_rule(pair: &Pair, expected: Rule) -> (r: Result<(), Error>)
    ensures
        match r {
            Ok(()) => pair.rule == expected,
            Err(error) => mismatch(*pair, expected) == Some(error@),
        },
{
    if pair.rule != expected {
        return Err(Error::RuleMismatch { expected, actual: pair.rule });
    }
    Ok(())
}

/// The operator that a rule stands for.
pub open spec fn operator_of(rule: Rule) -> Option<Operator> {
    match rule {
        Rule::OpEq => Some(Operator::Equal),
        Rule::OpEqEq => Some(Operator::EqualEqual),
        Rule::OpNeq => Some(Operator::NotEqual),
        Rule::OpGt => Some(Operator::Greater),
        Rule::OpGte => Some(Operator::GreaterEqual),
        Rule::OpLt => Some(Operator::Less),
        Rule::OpLte => Some(Operator::LessEqual),
        Rule::OpMinus => Some(Operator::Minus),
        Rule::OpPlus => Some(Operator::Plus),
        Rule::OpStar => Some(Operator::Star),
        Rule::OpPercent => Some(Operator::Percent),
        Rule::OpSlash => Some(Operator::Slash),
        Rule::OpMinusEq => Some(Operator::MinusEqual),
        Rule::OpPlusEq => Some(Operator::PlusEqual),
        Rule::OpStarEq => Some(Operator::StarEqual),
        Rule::OpSlashEq => Some(Operator::SlashEqual),
        Rule::OpNot => Some(Operator::LogicalNot),
        Rule::OpOr => Some(Operator::LogicalOr),
        Rule::OpAnd => Some(Operator::LogicalAnd),
        _ => None,
    }
}

/// The operator that the pair stands for. Fails with `UnexpectedRule`
/// where its rule is no operator's.
pub fn parse_operator(pair: &Pair) -> (r: Result<Node<Operator>, Error>)
    ensures
        match r {
            Ok(node) => operator_error(*pair) is None && is_operator(*pair, node),
            Err(error) => operator_error(*pair) == Some(error@),
        },
{
    let op = match pair.rule {
        Rule::OpEq => Operator::Equal,
        Rule::OpEqEq => Operator::EqualEqual,
        Rule::OpNeq => Operator::NotEqual,
        Rule::OpGt => Operator::Greater,
        Rule::OpGte => Operator::GreaterEqual,
        Rule::OpLt => Operator::Less,
        Rule::OpLte => Operator::LessEqual,
        Rule::OpMinus => Operator::Minus,
        Rule::OpPlus => Operator::Plus,
        Rule::OpStar => Operator::Star,
        Rule::OpPercent => Operator::Percent,
        Rule::OpSlash => Operator::Slash,
        Rule::OpMinusEq => Operator::MinusEqual,
        Rule::OpPlusEq => Operator::PlusEqual,
        Rule::OpStarEq => Operator::StarEqual,
        Rule::OpSlashEq => Operator::SlashEqual,
        Rule::OpNot => Operator::LogicalNot,
        Rule::OpOr => Operator::LogicalOr,
        Rule::OpAnd => Operator::LogicalAnd,
        _ => {
            return Err(Error::UnexpectedRule { node: pair.meta() });
        },
    };
    Ok(op.into_node(pair))
}

/// The identifier that the pair's text names.
pub fn parse_ident(pair: &Pair) -> (r: Node<Ident>)
    ensures
        r == ident_of(*pair),
{
    (Ident { name: pair.source.clone() }).into_node(pair)
}

/// The variable that the pair names. Fails with `RuleMismatch` where the
/// pair is no variable.
pub fn parse_variable(pair: &Pair) -> (r: Result<Node<Variable>, Error>)
    ensures
        match r {
            Ok(node) => mismatch(*pair, Rule::Variable) is None && node == variable_of(*pair),
            Err(error) => mismatch(*pair, Rule::Variable) == Some(error@),
        },
{
    match assert_rule(pair, Rule::Variable) {
        Ok(()) => {},
        Err(error) => {
            return Err(error);
        },
    }
    Ok((Variable { ident: parse_ident(pair) }).into_node(pair))
}

/// The variables that the parts of the pair name, in order. Fails with
/// `RuleMismatch` at the first part that is no variable.
pub fn parse_binding(pair: &Pair) -> (r: Result<Vec<Node<Variable>>, Error>)
    ensures
        match r {
            Ok(variables) => meaning::binding_error(*pair, 0) is None && are_variables(
                *pair,
                variables@,
            ),
            Err(error) => meaning::binding_error(*pair, 0) == Some(error@),
        },
{
    let mut variables: Vec<Node<Variable>> = Vec::new();
    let mut i: usize = 0;
    while i < pair.inner.len()
        invariant
            i <= pair.inner.len(),
            variables.len() == i,
            meaning::binding_error(*pair, i as nat) == meaning::binding_error(*pair, 0),
            forall|k: int| 0 <= k < i ==> #[trigger] variables@[k] == variable_of(pair.inner[k]),
        decreases pair.inner.len() - i,
    {
        match parse_variable(&pair.inner[i]) {
            Ok(variable) => {
                variables.push(variable);
            },
            Err(error) => {
                return Err(error);
            },
        }
        i = i + 1;
    }
    Ok(variables)
}

/// Whether a statement defines a method `init`.
pub open spec fn is_init_definition(statement: Node<Statement>) -> bool {
    match statement.v {
        Statement::MethodDefinition(definition) => definition.v.name.v.name@ == builtin::method::init@,
        _ => false,
    }
}

/// What lowering a pair to a statement comes to: the statement that the
/// pair stands for, or the error that the pair has.
pub open spec fn lowered_statement(pair: Pair, r: Result<Node<Statement>, Error>) -> bool {
    match r {
        Ok(node) => statement_error(pair) is None && is_statement(pair, node) && (
        is_init_definition(node) <==> meaning::defines_init(pair)),
        Err(error) => statement_error(pair) == Some(error@),
    }
}

/// The node is made by the pair that makes the node of the expression,
/// and is a variable, an indexing or an access exactly where that pair
/// makes one.
pub open spec fn made_by(pair: Pair, node: Node<Expression>) -> bool {
    &&& node.meta == meta_of(origin(pair))
    &&& node.v is Variable <==> makes_variable(pair)
    &&& node.v is Index <==> origin(pair).rule == Rule::Index
    &&& node.v is Access <==> origin(pair).rule == Rule::Access
}

/// What lowering a pair to an expression comes to: the expression that
/// the pair stands for, or the error that the pair has.
pub open spec fn lowered_expression(pair: Pair, r: Result<Node<Expression>, Error>) -> bool {
    match r {
        Ok(node) => expression_error(pair) is None && is_expression(
            pair,
            node,
        ) && made_by(pair, node),
        Err(error) => expression_error(pair) == Some(error@),
    }
}

/// What lowering a pair to a block comes to.
pub open spec fn lowered_block(pair: Pair, r: Result<Node<Block>, Error>) -> bool {
    match r {
        Ok(node) => block_error(pair) is None && is_block(pair, node),
        Err(error) => block_error(pair) == Some(error@),
    }
}

/// What lowering a pair to a body comes to.
pub open spec fn lowered_body(pair: Pair, r: Result<Node<Block>, Error>) -> bool {
    match r {
        Ok(node) => body_error(pair) is None && is_body(pair, node),
        Err(error) => body_error(pair) == Some(error@),
    }
}

/// The statements that the parts of the pair stand for, in order.
fn parse_statements(pair: &Pair) -> (r: Result<Vec<Node<Statement>>, Error>)
    ensures
        match r {
            Ok(statements) => meaning::statements_error(*pair, 0) is None && are_statements(
                *pair,
                statements@,
            ) && forall|k: int|
                0 <= k < statements.len() ==> (is_init_definition(#[trigger] statements@[k])
                    <==> meaning::defines_init(pair.inner[k])),
            Err(error) => meaning::statements_error(*pair, 0) == Some(error@),
        },
    decreases pair, 0nat,
{
    let mut statements: Vec<Node<Statement>> = Vec::new();
    let mut i: usize = 0;
    while i < pair.inner.len()
        invariant
            i <= pair.inner.len(),
            statements.len() == i,
            meaning::statements_error(*pair, i as nat) == meaning::statements_error(*pair, 0),
            forall|k: int| 0 <= k < i ==> is_statement(pair.inner[k], #[trigger] statements@[k]),
            forall|k: int|
                0 <= k < i ==> (is_init_definition(#[trigger] statements@[k])
                    <==> meaning::defines_init(pair.inner[k])),
        decreases pair.inner.len() - i,
    {
        match parse_statement(&pair.inner[i]) {
            Ok(statement) => {
                statements.push(statement);
            },
            Err(error) => {
                return Err(error);
            },
        }
        i = i + 1;
    }
    Ok(statements)
}

/// The expressions that the parts of the pair stand for, in order.
fn parse_expressions(pair: &Pair) -> (r: Result<Vec<Node<Expression>>, Error>)
    ensures
        match r {
            Ok(expressions) => meaning::expressions_error(*pair, 0) is None && are_expressions(
                *pair,
                expressions@,
            ) && forall|k: int|
                0 <= k < expressions.len() ==> made_by(pair.inner[k], #[trigger] expressions@[k]),
            Err(error) => meaning::expressions_error(*pair, 0) == Some(error@),
        },
    decreases pair, 0nat,
{
    let mut expressions: Vec<Node<Expression>> = Vec::new();
    let mut i: usize = 0;
    while i < pair.inner.len()
        invariant
            i <= pair.inner.len(),
            expressions.len() == i,
            meaning::expressions_error(*pair, i as nat) == meaning::expressions_error(*pair, 0),
            forall|k: int| 0 <= k < i ==> is_expression(pair.inner[k], #[trigger] expressions@[k]),
            forall|k: int| 0 <= k < i ==> made_by(pair.inner[k], #[trigger] expressions@[k]),
        decreases pair.inner.len() - i,
    {
        match parse_expression(&pair.inner[i]) {
            Ok(expression) => {
                expressions.push(expression);
            },
            Err(error) => {
                return Err(error);
            },
        }
        i = i + 1;
    }
    Ok(expressions)
}

/// The parameters that the parts of the pair stand for, in order.
fn parse_params(pair: &Pair) -> (r: Result<Vec<Node<Parameter>>, Error>)
    ensures
        match r {
            Ok(parameters) => meaning::params_error(*pair, 0) is None && are_params(
                *pair,
                parameters@,
            ),
            Err(error) => meaning::params_error(*pair, 0) == Some(error@),
        },
    decreases pair, 0nat,
{
    let mut parameters: Vec<Node<Parameter>> = Vec::new();
    let mut i: usize = 0;
    while i < pair.inner.len()
        invariant
            i <= pair.inner.len(),
            parameters.len() == i,
            meaning::params_error(*pair, i as nat) == meaning::params_error(*pair, 0),
            forall|k: int| 0 <= k < i ==> is_param(pair.inner[k], #[trigger] parameters@[k]),
        decreases pair.inner.len() - i,
    {
        match parse_param(&pair.inner[i]) {
            Ok(parameter) => {
                parameters.push(parameter);
            },
            Err(error) => {
                return Err(error);
            },
        }
        i = i + 1;
    }
    Ok(parameters)
}

/// The program that the pair stands for: the block that is its first
/// part. Fails with the first error that a part of the pair has.
pub fn parse_program(pair: &Pair) -> (r: Result<Node<Program>, Error>)
    ensures
        match r {
            Ok(node) => program_error(*pair) is None && is_program(*pair, node),
            Err(error) => program_error(*pair) == Some(error@),
        },
{
    let body = match part(pair, 0) {
        Ok(body) => body,
        Err(error) => {
            return Err(error);
        },
    };
    match parse_block(body) {
        Ok(body) => Ok((Program { body }).into_node(pair)),
        Err(error) => Err(error),
    }
}

/// The block that the pair stands for: a statement for each of its parts.
pub fn parse_block(pair: &Pair) -> (r: Result<Node<Block>, Error>)
    ensures
        lowered_block(*pair, r),
    decreases pair, 1nat,
{
    match parse_statements(pair) {
        Ok(statements) => Ok((Block { statements }).into_node(pair)),
        Err(error) => Err(error),
    }
}

/// The block of a body that is a list of statements or one short
/// statement.
fn parse_stmts_or_short_stmt(body: &Pair) -> (r: Result<Node<Block>, Error>)
    ensures
        lowered_body(*body, r),
    decreases body, 10nat,
{
    match body.rule {
        Rule::Stmts => parse_block(body),
        _ => parse_short_stmt_into_block(body),
    }
}

/// The block that holds the one statement that the pair stands for.
fn parse_short_stmt_into_block(body: &Pair) -> (r: Result<Node<Block>, Error>)
    requires
        body.rule != Rule::Stmts,
    ensures
        lowered_body(*body, r),
    decreases body, 9nat,
{
    match parse_statement(body) {
        Ok(statement) => {
            let mut statements: Vec<Node<Statement>> = Vec::new();
            statements.push(statement);
            Ok((Block { statements }).into_node(body))
        },
        Err(error) => Err(error),
    }
}

/// The parameter that the pair stands for: a name, and a default value if
/// the pair has one.
fn parse_param(pair: &Pair) -> (r: Result<Node<Parameter>, Error>)
    ensures
        match r {
            Ok(node) => param_error(*pair) is None && is_param(*pair, node),
            Err(error) => param_error(*pair) == Some(error@),
        },
    decreases pair, 1nat,
{
    let name = match part(pair, 0) {
        Ok(name) => name,
        Err(error) => {
            return Err(error);
        },
    };
    match assert_rule(name, Rule::Ident) {
        Ok(()) => {},
        Err(error) => {
            return Err(error);
        },
    }
    let default = if pair.inner.len() > 1 && pair.inner[1].rule == Rule::Expr {
        match parse_expression(&pair.inner[1]) {
            Ok(default) => Some(default),
            Err(error) => {
                return Err(error);
            },
        }
    } else {
        None
    };
    Ok((Parameter { name: parse_ident(name), default }).into_node(pair))
}

/// The method definition that the pair stands for: an optional mark of a
/// class method, then a name, the parameters and a body.
fn parse_method_def(pair: &Pair) -> (r: Result<Node<MethodDefinition>, Error>)
    ensures
        match r {
            Ok(node) => method_def_error(*pair) is None && is_method_def(*pair, node),
            Err(error) => method_def_error(*pair) == Some(error@),
        },
    decreases pair, 6nat,
{
    let is_class_method = pair.inner.len() > 0 && pair.inner[0].rule == Rule::ClassMethodSpec;
    let start: usize = if is_class_method {
        1
    } else {
        0
    };
    if pair.inner.len() < 3 || pair.inner.len() - 3 < start {
        return Err(Error::MissingPart { node: pair.meta() });
    }
    let name = parse_ident(&pair.inner[start]);
    let parameters = match parse_params(&pair.inner[start + 1]) {
        Ok(parameters) => parameters,
        Err(error) => {
            return Err(error);
        },
    };
    let body = match parse_stmts_or_short_stmt(&pair.inner[start + 2]) {
        Ok(body) => body,
        Err(error) => {
            return Err(error);
        },
    };
    Ok(
        (MethodDefinition { is_class_method, name, parameters, body: Rc::new(body) }).into_node(
            pair,
        ),
    )
}

/// One of the statements from place `i` on defines a method `init`
/// exactly where one of the parts that they stand for does.
proof fn lemma_any_defines_init(pair: Pair, statements: Seq<Node<Statement>>, i: nat)
    requires
        statements.len() == pair.inner.len(),
        forall|k: int|
            0 <= k < statements.len() ==> (is_init_definition(#[trigger] statements[k])
                <==> meaning::defines_init(pair.inner[k])),
    ensures
        meaning::any_defines_init(pair, i) <==> exists|k: int|
            i <= k < statements.len() && is_init_definition(#[trigger] statements[k]),
    decreases pair.inner.len() - i,
{
    if i < pair.inner.len() {
        lemma_any_defines_init(pair, statements, i + 1);
        if is_init_definition(statements[i as int]) {
            assert(i <= i < statements.len() && is_init_definition(statements[i as int]));
        }
    }
}

/// Whether one of the statements defines a method `init`.
fn has_init_method(statements: &Vec<Node<Statement>>) -> (r: bool)
    ensures
        r <==> exists|i: int|
            0 <= i < statements.len() && is_init_definition(#[trigger] statements@[i]),
{
    let mut i: usize = 0;
    while i < statements.len()
        invariant
            i <= statements.len(),
            forall|k: int| 0 <= k < i ==> !is_init_definition(#[trigger] statements@[k]),
        decreases statements.len() - i,
    {
        if let Statement::MethodDefinition(definition) = &statements[i].v {
            if same_text(definition.v.name.v.name.as_str(), builtin::method::init) {
                return true;
            }
        }
        i = i + 1;
    }
    false
}

/// The expression that reads the variable that the pair names.
fn variable_expression(pair: &Pair) -> (r: Node<Expression>)
    ensures
        r == meaning::variable_expression_of(*pair),
{
    Expression::Variable((Variable { ident: parse_ident(pair) }).into_node(pair)).into_node(pair)
}

/// The assignment of the constructor of a class to one field.
fn parse_field_assignment(field: &Pair) -> (r: Result<Node<Statement>, Error>)
    ensures
        match r {
            Ok(node) => meaning::is_field_assignment(*field, node) && (if field.inner.len() == 0 {
                false
            } else if meaning::has_default(*field) {
                expression_error(field.inner[1]) is None
            } else {
                true
            }),
            Err(error) => Some(error@) == (if field.inner.len() == 0 {
                Some(missing(*field))
            } else if meaning::has_default(*field) {
                expression_error(field.inner[1])
            } else {
                None
            }),
        },
    decreases field, 1nat,
{
    let field_name = match part(field, 0) {
        Ok(field_name) => field_name,
        Err(error) => {
            return Err(error);
        },
    };
    let value = if field.inner.len() > 1 && field.inner[1].rule == Rule::Expr {
        match parse_expression(&field.inner[1]) {
            Ok(value) => value,
            Err(error) => {
                return Err(error);
            },
        }
    } else {
        variable_expression(field_name)
    };
    let receiver = Expression::Variable(
        (Variable { ident: (Ident { name: builtin::SELF.to_owned() }).into_node(field) }).into_node(
            field,
        ),
    ).into_node(field);
    let member = variable_expression(field_name);
    let target = LValue::Access(
        (Access { target: Box::new(receiver), member: Box::new(member) }).into_node(field),
    ).into_node(field);
    let assignment = Assignment { target, op: Operator::Equal.into_node(field), value };
    Ok(Statement::Assignment(assignment.into_node(field)).into_node(field))
}

/// The constructor that the fields of a class stand for: it takes the
/// fields without a default as parameters, in order, and assigns to each
/// field of the receiver its parameter or its default.
fn parse_field_constructor(name: &Pair, fields: &Pair) -> (r: Result<Node<Statement>, Error>)
    ensures
        match r {
            Ok(node) => meaning::fields_error(*fields, 0) is None && meaning::is_field_constructor(
                *name,
                *fields,
                node,
            ),
            Err(error) => meaning::fields_error(*fields, 0) == Some(error@),
        },
    decreases fields, 2nat,
{
    let mut parameters: Vec<Node<Parameter>> = Vec::new();
    let mut statements: Vec<Node<Statement>> = Vec::new();
    let mut i: usize = 0;
    proof {
        assert(meaning::plain_names(parameters@) =~= Seq::<Node<Ident>>::empty());
    }
    while i < fields.inner.len()
        invariant
            i <= fields.inner.len(),
            statements.len() == i,
            meaning::fields_error(*fields, i as nat) == meaning::fields_error(*fields, 0),
            meaning::plain_names(parameters@) + meaning::plain_fields(*fields, i as nat)
                == meaning::plain_fields(*fields, 0),
            forall|k: int|
                0 <= k < parameters@.len() ==> (#[trigger] parameters@[k]).v.default is None,
            forall|k: int|
                0 <= k < i ==> meaning::is_field_assignment(fields.inner[k], #[trigger] statements@[k]),
        decreases fields.inner.len() - i,
    {
        let field = &fields.inner[i];
        let statement = match parse_field_assignment(field) {
            Ok(statement) => statement,
            Err(error) => {
                return Err(error);
            },
        };
        let ghost before = parameters@;
        if !(field.inner.len() > 1 && field.inner[1].rule == Rule::Expr) {
            parameters.push(
                (Parameter { name: parse_ident(&field.inner[0]), default: None }).into_node(field),
            );
            proof {
                let rest = meaning::plain_fields(*fields, (i + 1) as nat);
                let named = seq![ident_of(field.inner[0])];
                assert(meaning::plain_names(parameters@) =~= meaning::plain_names(before) + named);
                assert((meaning::plain_names(before) + named) + rest =~= meaning::plain_names(before)
                    + (named + rest));
            }
        }
        statements.push(statement);
        i = i + 1;
    }
    proof {
        assert(meaning::plain_names(parameters@) + Seq::<Node<Ident>>::empty()
            =~= meaning::plain_names(parameters@));
    }
    let definition = MethodDefinition {
        is_class_method: false,
        name: (Ident { name: builtin::method::init.to_owned() }).into_node(name),
        parameters,
        body: Rc::new((Block { statements }).into_node(fields)),
    };
    Ok(Statement::MethodDefinition(definition.into_node(fields)).into_node(fields))
}

/// The class definition that the pair stands for: a name, an optional list
/// of fields, and a body. A class with fields gets a constructor made from
/// them, and fails with `ClassHasTwoInitializers` where it defines one
/// itself.
fn parse_class_def(pair: &Pair) -> (r: Result<Node<Statement>, Error>)
    ensures
        match r {
            Ok(node) => class_def_error(*pair) is None && meaning::is_class_def(*pair, node),
            Err(error) => class_def_error(*pair) == Some(error@),
        },
    decreases pair, 6nat,
{
    if pair.inner.len() < 2 {
        return Err(Error::MissingPart { node: pair.meta() });
    }
    let name_pair = &pair.inner[0];
    let name = parse_ident(name_pair);
    let second = &pair.inner[1];
    if second.rule == Rule::ParamList {
        let body_pair = match part(pair, 2) {
            Ok(body_pair) => body_pair,
            Err(error) => {
                return Err(error);
            },
        };
        let mut statements = match parse_statements(body_pair) {
            Ok(statements) => statements,
            Err(error) => {
                return Err(error);
            },
        };
        let fields = match parse_params(second) {
            Ok(fields) => fields,
            Err(error) => {
                return Err(error);
            },
        };
        proof {
            lemma_any_defines_init(*body_pair, statements@, 0);
        }
        if has_init_method(&statements) {
            return Err(Error::ClassHasTwoInitializers { class: name_pair.source.clone() });
        }
        let constructor = match parse_field_constructor(name_pair, second) {
            Ok(constructor) => constructor,
            Err(error) => {
                return Err(error);
            },
        };
        let ghost lowered = statements@;
        statements.push(constructor);
        proof {
            assert(statements@.drop_last() =~= lowered);
        }
        let body = (Block { statements }).into_node(body_pair);
        Ok(Statement::ClassDefinition(
            (ClassDefinition { name, fields, body }).into_node(pair),
        ).into_node(pair))
    } else {
        let body = match parse_block(second) {
            Ok(body) => body,
            Err(error) => {
                return Err(error);
            },
        };
        Ok(
            Statement::ClassDefinition(
                (ClassDefinition { name, fields: Vec::new(), body }).into_node(pair),
            ).into_node(pair),
        )
    }
}

/// The statement that the pair stands for. Fails with the first error
/// that the pair has: a part that is missing, a rule without a place, or
/// the error of a part.
pub fn parse_statement(pair: &Pair) -> (r: Result<Node<Statement>, Error>)
    ensures
        lowered_statement(*pair, r),
    decreases pair, 8nat,
{
    match pair.rule {
        Rule::Stmt => {
            let inner = match part(pair, 0) {
                Ok(inner) => inner,
                Err(error) => {
                    return Err(error);
                },
            };
            parse_statement(inner)
        },
        Rule::Assignment => {
            if pair.inner.len() < 3 {
                return Err(Error::MissingPart { node: pair.meta() });
            }
            let target = match parse_lvalue(&pair.inner[0]) {
                Ok(target) => target,
                Err(error) => {
                    return Err(error);
                },
            };
            let op = match parse_operator(&pair.inner[1]) {
                Ok(op) => op,
                Err(error) => {
                    return Err(error);
                },
            };
            let value = match parse_expression(&pair.inner[2]) {
                Ok(value) => value,
                Err(error) => {
                    return Err(error);
                },
            };
            Ok(Statement::Assignment(
                (Assignment { target, op, value }).into_node(pair),
            ).into_node(pair))
        },
        Rule::ClassDef => parse_class_def(pair),
        Rule::MethodDef => match parse_method_def(pair) {
            Ok(definition) => Ok(Statement::MethodDefinition(definition).into_node(pair)),
            Err(error) => Err(error),
        },
        Rule::ForIn => {
            if pair.inner.len() < 3 {
                return Err(Error::MissingPart { node: pair.meta() });
            }
            let binding = match parse_binding(&pair.inner[0]) {
                Ok(binding) => binding,
                Err(error) => {
                    return Err(error);
                },
            };
            let iterable = match parse_expression(&pair.inner[1]) {
                Ok(iterable) => iterable,
                Err(error) => {
                    return Err(error);
                },
            };
            let body = match parse_stmts_or_short_stmt(&pair.inner[2]) {
                Ok(body) => body,
                Err(error) => {
                    return Err(error);
                },
            };
            Ok(Statement::ForIn(
                (ForIn { binding, iterable, body }).into_node(pair),
            ).into_node(pair))
        },
        Rule::WhileLoop => {
            if pair.inner.len() < 2 {
                return Err(Error::MissingPart { node: pair.meta() });
            }
            let condition = match parse_expression(&pair.inner[0]) {
                Ok(condition) => condition,
                Err(error) => {
                    return Err(error);
                },
            };
            let body = match parse_stmts_or_short_stmt(&pair.inner[1]) {
                Ok(body) => body,
                Err(error) => {
                    return Err(error);
                },
            };
            Ok(Statement::WhileLoop(
                (WhileLoop { condition, body }).into_node(pair),
            ).into_node(pair))
        },
        Rule::LoopBreak => Ok(Statement::Break((Break {}).into_node(pair)).into_node(pair)),
        Rule::LoopContinue => Ok(
            Statement::Continue((Continue {}).into_node(pair)).into_node(pair),
        ),
        Rule::ReturnStmt => {
            let retval = if pair.inner.len() > 0 {
                match parse_expression(&pair.inner[0]) {
                    Ok(retval) => Some(retval),
                    Err(error) => {
                        return Err(error);
                    },
                }
            } else {
                None
            };
            Ok(Statement::Return((Return { retval }).into_node(pair)).into_node(pair))
        },
        Rule::Expr => match parse_expression(pair) {
            Ok(expression) => Ok(Statement::Expression(expression).into_node(pair)),
            Err(error) => Err(error),
        },
        Rule::UseStmt => {
            let path = match part(pair, 0) {
                Ok(path) => path,
                Err(error) => {
                    return Err(error);
                },
            };
            let components = match parse_binding(path) {
                Ok(components) => components,
                Err(error) => {
                    return Err(error);
                },
            };
            let path = (Path { components }).into_node(path);
            Ok(Statement::Use((Use { path }).into_node(pair)).into_node(pair))
        },
        _ => Err(Error::UnexpectedRule { node: pair.meta() }),
    }
}

/// A chain of one binary operator: operands with an operator between each
/// two, read from the left.
fn parse_left_assoc(pair: &Pair) -> (r: Result<Node<Expression>, Error>)
    requires
        is_chain(pair.rule),
    ensures
        lowered_expression(*pair, r),
    decreases pair, 1nat,
{
    let first = match part(pair, 0) {
        Ok(first) => first,
        Err(error) => {
            return Err(error);
        },
    };
    let mut lhs = match parse_expression(first) {
        Ok(lhs) => lhs,
        Err(error) => {
            return Err(error);
        },
    };
    let mut i: usize = 1;
    let ghost mut k: nat = 0;
    while i < pair.inner.len() && pair.inner.len() - i >= 2
        invariant
            1 <= i <= pair.inner.len(),
            i == 2 * k + 1,
            is_chain(pair.rule),
            expression_error(pair.inner[0]) is None,
            meaning::chain_error(*pair, i as nat) == meaning::chain_error(*pair, 1),
            meaning::is_chain_of(*pair, k, lhs),
            k == 0 ==> made_by(pair.inner[0], lhs),
            k > 0 ==> lhs.meta == meta_of(*pair) && lhs.v is Binary,
        decreases pair.inner.len() - i,
    {
        let rhs = match parse_expression(&pair.inner[i + 1]) {
            Ok(rhs) => rhs,
            Err(error) => {
                return Err(error);
            },
        };
        let op = match parse_operator(&pair.inner[i]) {
            Ok(op) => op,
            Err(error) => {
                return Err(error);
            },
        };
        lhs = Expression::Binary(
            (Binary { lhs: Box::new(lhs), op, rhs: Box::new(rhs) }).into_node(pair),
        ).into_node(pair);
        i = i + 2;
        proof {
            k = k + 1;
        }
    }
    proof {
        assert(k == (pair.inner.len() - 1) / 2);
    }
    Ok(lhs)
}

/// A chain of unary operators before an operand, applied from the
/// innermost outward.
fn parse_unary(pair: &Pair) -> (r: Result<Node<Expression>, Error>)
    requires
        is_unary(pair.rule),
    ensures
        lowered_expression(*pair, r),
    decreases pair, 1nat,
{
    if pair.inner.len() == 0 {
        return Err(Error::MissingPart { node: pair.meta() });
    }
    let mut i: usize = pair.inner.len() - 1;
    let mut expression = match parse_expression(&pair.inner[i]) {
        Ok(expression) => expression,
        Err(error) => {
            return Err(error);
        },
    };
    while i > 0
        invariant
            i < pair.inner.len(),
            is_unary(pair.rule),
            expression_error(pair.inner[pair.inner.len() - 1]) is None,
            meaning::unary_error(*pair, i - 1) == meaning::unary_error(*pair, pair.inner.len() - 2),
            meaning::is_unary_of(*pair, i as nat, expression),
            i == pair.inner.len() - 1 ==> made_by(pair.inner[i as int], expression),
            i < pair.inner.len() - 1 ==> expression.meta == meta_of(*pair) && expression.v is Unary,
        decreases i,
    {
        i = i - 1;
        let op = match parse_operator(&pair.inner[i]) {
            Ok(op) => op,
            Err(error) => {
                return Err(error);
            },
        };
        expression = Expression::Unary((Unary { op, rhs: Box::new(expression) }).into_node(pair)).into_node(
            pair,
        );
    }
    Ok(expression)
}

/// The arguments that a list of arguments stands for.
fn parse_arguments(arg_list: &Pair) -> (r: Result<Vec<Node<Expression>>, Error>)
    ensures
        match r {
            Ok(arguments) => are_arguments(*arg_list, arguments@) && (arg_list.inner.len() > 0
                ==> meaning::expressions_error(arg_list.inner[0], 0) is None),
            Err(error) => arg_list.inner.len() > 0 && meaning::expressions_error(
                arg_list.inner[0],
                0,
            ) == Some(error@),
        },
    decreases arg_list, 1nat,
{
    if arg_list.inner.len() > 0 {
        parse_expressions(&arg_list.inner[0])
    } else {
        Ok(Vec::new())
    }
}

/// A call: a target, then a list of arguments for each call of what came
/// before.
fn parse_call(pair: &Pair) -> (r: Result<Node<Expression>, Error>)
    ensures
        pair.rule == Rule::Call ==> lowered_expression(*pair, r),
        pair.rule != Rule::Call ==> r is Err && mismatch(*pair, Rule::Call) == Some(
            r->Err_0@,
        ),
    decreases pair, 1nat,
{
    match assert_rule(pair, Rule::Call) {
        Ok(()) => {},
        Err(error) => {
            return Err(error);
        },
    }
    let first = match part(pair, 0) {
        Ok(first) => first,
        Err(error) => {
            return Err(error);
        },
    };
    let mut expression = match parse_expression(first) {
        Ok(expression) => expression,
        Err(error) => {
            return Err(error);
        },
    };
    let mut i: usize = 1;
    while i < pair.inner.len()
        invariant
            1 <= i <= pair.inner.len(),
            pair.rule == Rule::Call,
            expression_error(pair.inner[0]) is None,
            meaning::arguments_error(*pair, i as nat) == meaning::arguments_error(*pair, 1),
            meaning::is_suffixed_of(*pair, (i - 1) as nat, expression),
            i == 1 ==> made_by(pair.inner[0], expression),
            i > 1 ==> expression.meta == meta_of(*pair) && expression.v is Call,
        decreases pair.inner.len() - i,
    {
        let arguments = match parse_arguments(&pair.inner[i]) {
            Ok(arguments) => arguments,
            Err(error) => {
                return Err(error);
            },
        };
        expression = Expression::Call(
            (Call { target: Box::new(expression), arguments }).into_node(pair),
        ).into_node(pair);
        i = i + 1;
    }
    Ok(expression)
}

/// An indexing: a target, then an index for each indexing of what came
/// before.
fn parse_index(pair: &Pair) -> (r: Result<Node<Expression>, Error>)
    ensures
        pair.rule == Rule::Index ==> lowered_expression(*pair, r),
        pair.rule != Rule::Index ==> r is Err && mismatch(*pair, Rule::Index) == Some(
            r->Err_0@,
        ),
    decreases pair, 1nat,
{
    match assert_rule(pair, Rule::Index) {
        Ok(()) => {},
        Err(error) => {
            return Err(error);
        },
    }
    let first = match part(pair, 0) {
        Ok(first) => first,
        Err(error) => {
            return Err(error);
        },
    };
    let mut expression = match parse_expression(first) {
        Ok(expression) => expression,
        Err(error) => {
            return Err(error);
        },
    };
    let mut i: usize = 1;
    while i < pair.inner.len()
        invariant
            1 <= i <= pair.inner.len(),
            pair.rule == Rule::Index,
            meaning::expressions_error(*pair, i as nat) == meaning::expressions_error(*pair, 0),
            meaning::is_suffixed_of(*pair, (i - 1) as nat, expression),
            i == 1 ==> made_by(pair.inner[0], expression),
            i > 1 ==> expression.meta == meta_of(*pair) && expression.v is Index,
        decreases pair.inner.len() - i,
    {
        let index = match parse_expression(&pair.inner[i]) {
            Ok(index) => index,
            Err(error) => {
                return Err(error);
            },
        };
        expression = Expression::Index(
            (Index { target: Box::new(expression), index: Box::new(index) }).into_node(pair),
        ).into_node(pair);
        i = i + 1;
    }
    Ok(expression)
}

/// A member access: a target, then a member for each access to what came
/// before.
fn parse_access(pair: &Pair) -> (r: Result<Node<Expression>, Error>)
    ensures
        pair.rule == Rule::Access ==> lowered_expression(*pair, r),
        pair.rule != Rule::Access ==> r is Err && mismatch(*pair, Rule::Access) == Some(
            r->Err_0@,
        ),
    decreases pair, 1nat,
{
    match assert_rule(pair, Rule::Access) {
        Ok(()) => {},
        Err(error) => {
            return Err(error);
        },
    }
    let first = match part(pair, 0) {
        Ok(first) => first,
        Err(error) => {
            return Err(error);
        },
    };
    let mut expression = match parse_expression(first) {
        Ok(expression) => expression,
        Err(error) => {
            return Err(error);
        },
    };
    let mut i: usize = 1;
    while i < pair.inner.len()
        invariant
            1 <= i <= pair.inner.len(),
            pair.rule == Rule::Access,
            meaning::expressions_error(*pair, i as nat) == meaning::expressions_error(*pair, 0),
            meaning::is_suffixed_of(*pair, (i - 1) as nat, expression),
            i == 1 ==> made_by(pair.inner[0], expression),
            i > 1 ==> expression.meta == meta_of(*pair) && expression.v is Access,
        decreases pair.inner.len() - i,
    {
        let member = match parse_expression(&pair.inner[i]) {
            Ok(member) => member,
            Err(error) => {
                return Err(error);
            },
        };
        expression = Expression::Access(
            (Access { target: Box::new(expression), member: Box::new(member) }).into_node(pair),
        ).into_node(pair);
        i = i + 1;
    }
    Ok(expression)
}

/// The entries of a dictionary literal: a key and a value for each two
/// parts.
fn parse_entries(pair: &Pair) -> (r: Result<Vec<(Node<Ident>, Node<Expression>)>, Error>)
    ensures
        match r {
            Ok(entries) => meaning::entries_error(*pair, 0) is None && are_entries(*pair, entries@),
            Err(error) => meaning::entries_error(*pair, 0) == Some(error@),
        },
    decreases pair, 0nat,
{
    let mut entries: Vec<(Node<Ident>, Node<Expression>)> = Vec::new();
    let mut i: usize = 0;
    while i < pair.inner.len() && pair.inner.len() - i >= 2
        invariant
            i <= pair.inner.len(),
            i == 2 * entries.len(),
            meaning::entries_error(*pair, i as nat) == meaning::entries_error(*pair, 0),
            forall|k: int|
                0 <= k < entries.len() ==> (#[trigger] entries@[k]).0 == ident_of(pair.inner[2 * k])
                    && is_expression(pair.inner[2 * k + 1], entries@[k].1),
        decreases pair.inner.len() - i,
    {
        let key = parse_ident(&pair.inner[i]);
        let value = match parse_expression(&pair.inner[i + 1]) {
            Ok(value) => value,
            Err(error) => {
                return Err(error);
            },
        };
        entries.push((key, value));
        i = i + 2;
    }
    Ok(entries)
}

/// The literal that the pair stands for. A boolean is `true` exactly
/// where its text is `true`; a number is the number that came with the
/// pair, and fails with `ParseFloat` where none came; a string is the text
/// of its first part.
pub fn parse_literal(pair: &Pair) -> (r: Result<Node<Literal>, Error>)
    ensures
        match r {
            Ok(node) => literal_error(*pair) is None && is_literal(*pair, node),
            Err(error) => literal_error(*pair) == Some(error@),
        },
    decreases pair, 1nat,
{
    match assert_rule(pair, Rule::Literal) {
        Ok(()) => {},
        Err(error) => {
            return Err(error);
        },
    }
    let pair = match part(pair, 0) {
        Ok(pair) => pair,
        Err(error) => {
            return Err(error);
        },
    };
    match pair.rule {
        Rule::Nil => Ok(Literal::Nil((Nil {}).into_node(pair)).into_node(pair)),
        Rule::Bool => Ok(
            Literal::Boolean(
                (Boolean { value: same_text(pair.source.as_str(), "true") }).into_node(pair),
            ).into_node(pair),
        ),
        Rule::Number => match pair.number {
            Some(value) => Ok(Literal::Number((Number { value }).into_node(pair)).into_node(pair)),
            None => Err(Error::ParseFloat { source: pair.source.clone() }),
        },
        Rule::Text => {
            let inner = match part(pair, 0) {
                Ok(inner) => inner,
                Err(error) => {
                    return Err(error);
                },
            };
            Ok(
                Literal::StringLit(
                    (StringLit { value: inner.source.clone() }).into_node(pair),
                ).into_node(pair),
            )
        },
        Rule::Array => match parse_arguments(pair) {
            Ok(elements) => Ok(
                Literal::Array((Array { elements }).into_node(pair)).into_node(pair),
            ),
            Err(error) => Err(error),
        },
        Rule::Dict => match parse_entries(pair) {
            Ok(entries) => Ok(
                Literal::Dictionary((Dictionary { entries }).into_node(pair)).into_node(pair),
            ),
            Err(error) => Err(error),
        },
        Rule::Tuple => match parse_expressions(pair) {
            Ok(items) => Ok(Literal::Tuple((Tuple { items }).into_node(pair)).into_node(pair)),
            Err(error) => Err(error),
        },
        _ => Err(Error::UnexpectedRule { node: pair.meta() }),
    }
}

/// A closure: the variables that it binds, and a body.
fn parse_closure(pair: &Pair) -> (r: Result<Node<Expression>, Error>)
    requires
        pair.rule == Rule::Closure,
    ensures
        lowered_expression(*pair, r),
    decreases pair, 6nat,
{
    if pair.inner.len() < 2 {
        return Err(Error::MissingPart { node: pair.meta() });
    }
    let binding = match parse_binding(&pair.inner[0]) {
        Ok(binding) => binding,
        Err(error) => {
            return Err(error);
        },
    };
    let body = match parse_stmts_or_short_stmt(&pair.inner[1]) {
        Ok(body) => body,
        Err(error) => {
            return Err(error);
        },
    };
    Ok(Expression::Closure(
        (Closure { binding, body: Rc::new(body) }).into_node(pair),
    ).into_node(pair))
}

/// A conditional: a condition, a body, and a body for `else` if the pair
/// has one.
fn parse_if_else(pair: &Pair) -> (r: Result<Node<Expression>, Error>)
    requires
        pair.rule == Rule::IfElse,
    ensures
        lowered_expression(*pair, r),
    decreases pair, 6nat,
{
    if pair.inner.len() < 2 {
        return Err(Error::MissingPart { node: pair.meta() });
    }
    let condition = match parse_expression(&pair.inner[0]) {
        Ok(condition) => condition,
        Err(error) => {
            return Err(error);
        },
    };
    let then_body = match parse_stmts_or_short_stmt(&pair.inner[1]) {
        Ok(then_body) => then_body,
        Err(error) => {
            return Err(error);
        },
    };
    let else_body = if pair.inner.len() > 2 {
        match parse_stmts_or_short_stmt(&pair.inner[2]) {
            Ok(else_body) => Some(else_body),
            Err(error) => {
                return Err(error);
            },
        }
    } else {
        None
    };
    Ok(
        Expression::IfElse(
            (IfElse { condition: Box::new(condition), then_body, else_body }).into_node(pair),
        ).into_node(pair),
    )
}

/// The expression that the pair stands for. Fails with the first error
/// that the pair has: a part that is missing, a rule without a place, or
/// the error of a part.
pub fn parse_expression(pair: &Pair) -> (r: Result<Node<Expression>, Error>)
    ensures
        lowered_expression(*pair, r),
    decreases pair, 7nat,
{
    match pair.rule {
        Rule::Expr | Rule::Primary | Rule::Grouping => {
            let inner = match part(pair, 0) {
                Ok(inner) => inner,
                Err(error) => {
                    return Err(error);
                },
            };
            parse_expression(inner)
        },
        Rule::Binding => {
            if pair.inner.len() > 1 {
                return Err(Error::IllegalBinding { node: pair.meta() });
            }
            let inner = match part(pair, 0) {
                Ok(inner) => inner,
                Err(error) => {
                    return Err(error);
                },
            };
            match parse_variable(inner) {
                Ok(variable) => Ok(Expression::Variable(variable).into_node(pair)),
                Err(error) => Err(error),
            }
        },
        Rule::LogicalOr
        | Rule::LogicalAnd
        | Rule::Equality
        | Rule::Comparison
        | Rule::Term
        | Rule::Factor => parse_left_assoc(pair),
        Rule::LogicalNot | Rule::UnaryMinus => parse_unary(pair),
        Rule::Closure => parse_closure(pair),
        Rule::Index => parse_index(pair),
        Rule::Access => parse_access(pair),
        Rule::Call => parse_call(pair),
        Rule::Literal => match parse_literal(pair) {
            Ok(literal) => Ok(Expression::Literal(literal).into_node(pair)),
            Err(error) => Err(error),
        },
        Rule::Path => {
            let mut components = match parse_binding(pair) {
                Ok(components) => components,
                Err(error) => {
                    return Err(error);
                },
            };
            if components.len() == 1 {
                match components.pop() {
                    Some(variable) => Ok(Expression::Variable(variable).into_node(pair)),
                    None => Err(Error::MissingPart { node: pair.meta() }),
                }
            } else {
                Ok(Expression::Path((Path { components }).into_node(pair)).into_node(pair))
            }
        },
        Rule::IfElse => parse_if_else(pair),
        _ => Err(Error::UnexpectedRule { node: pair.meta() }),
    }
}

/// Every expression from place `i` on is a variable exactly where every
/// part that they stand for makes one.
proof fn lemma_all_make_variables(pair: Pair, nodes: Seq<Node<Expression>>, i: nat)
    requires
        nodes.len() == pair.inner.len(),
        forall|k: int| 0 <= k < nodes.len() ==> made_by(pair.inner[k], #[trigger] nodes[k]),
    ensures
        meaning::all_make_variables(pair, i) <==> forall|k: int|
            i <= k < nodes.len() ==> (#[trigger] nodes[k]).v is Variable,
    decreases pair.inner.len() - i,
{
    if i < pair.inner.len() {
        lemma_all_make_variables(pair, nodes, i + 1);
        assert(made_by(pair.inner[i as int], nodes[i as int]));
    }
}

/// The variables that a list of expressions are, in order; `None` where
/// one of them is no variable.
fn variables_of(list: Vec<Node<Expression>>) -> (r: Option<Vec<Node<Variable>>>)
    ensures
        match r {
            Some(variables) => variables.len() == list.len() && forall|k: int|
                0 <= k < variables.len() ==> (#[trigger] list@[k]).v == Expression::Variable(
                    variables@[k],
                ),
            None => exists|k: int| 0 <= k < list.len() && !((#[trigger] list@[k]).v is Variable),
        },
{
    let ghost all = list@;
    let mut expressions = list;
    let mut reversed: Vec<Node<Variable>> = Vec::new();
    while expressions.len() > 0
        invariant
            all == list@,
            expressions.len() + reversed.len() == all.len(),
            expressions@ == all.take(expressions.len() as int),
            forall|k: int|
                0 <= k < reversed.len() ==> all[all.len() - 1 - k].v == Expression::Variable(
                    #[trigger] reversed@[k],
                ),
        decreases expressions.len(),
    {
        let ghost n = expressions.len();
        let last = expressions.pop();
        proof {
            assert(expressions@ =~= all.take(n - 1));
            assert(last == Some(all[n - 1]));
        }
        match last {
            Some(node) => match node.v {
                Expression::Variable(variable) => {
                    reversed.push(variable);
                },
                _ => {
                    proof {
                        assert(!(all[n - 1].v is Variable));
                    }
                    return None;
                },
            },
            None => {},
        }
    }
    let mut variables: Vec<Node<Variable>> = Vec::new();
    let ghost turned = reversed@;
    while reversed.len() > 0
        invariant
            all == list@,
            reversed.len() + variables.len() == all.len(),
            turned.len() == all.len(),
            reversed@ == turned.take(reversed.len() as int),
            forall|k: int|
                0 <= k < turned.len() ==> all[all.len() - 1 - k].v == Expression::Variable(
                    #[trigger] turned[k],
                ),
            forall|k: int|
                0 <= k < variables.len() ==> all[k].v == Expression::Variable(
                    #[trigger] variables@[k],
                ),
        decreases reversed.len(),
    {
        let ghost n = reversed.len();
        match reversed.pop() {
            Some(variable) => {
                proof {
                    assert(reversed@ =~= turned.take(n - 1));
                    assert(variable == turned[n - 1]);
                }
                variables.push(variable);
            },
            None => {},
        }
    }
    Some(variables)
}

/// The target of an assignment that the pair stands for: the variables of
/// a tuple, or an index, an access or a single variable. Fails with
/// `IllegalBinding` where an item of the tuple is no variable, and with
/// `IllegalLValue` where the pair stands for another expression.
pub fn parse_lvalue(pair: &Pair) -> (r: Result<Node<LValue>, Error>)
    ensures
        match r {
            Ok(node) => lvalue_error(*pair) is None && is_lvalue(*pair, node),
            Err(error) => lvalue_error(*pair) == Some(error@),
        },
    decreases pair, 8nat,
{
    match assert_rule(pair, Rule::LValue) {
        Ok(()) => {},
        Err(error) => {
            return Err(error);
        },
    }
    let pair = match part(pair, 0) {
        Ok(pair) => pair,
        Err(error) => {
            return Err(error);
        },
    };
    match pair.rule {
        Rule::Tuple => {
            let expressions = match parse_expressions(pair) {
                Ok(expressions) => expressions,
                Err(error) => {
                    return Err(error);
                },
            };
            let ghost lowered = expressions@;
            proof {
                lemma_all_make_variables(*pair, lowered, 0);
            }
            match variables_of(expressions) {
                Some(variables) => {
                    proof {
                        assert forall|i: int|
                            0 <= i < pair.inner.len() && i < variables@.len() implies is_expression(
                            pair.inner[i],
                            Node {
                                meta: meta_of(origin(pair.inner[i])),
                                v: Expression::Variable(#[trigger] variables@[i]),
                            },
                        ) by {
                            assert(made_by(pair.inner[i], lowered[i]));
                            assert(lowered[i] == (Node {
                                meta: meta_of(origin(pair.inner[i])),
                                v: Expression::Variable(variables@[i]),
                            }));
                        }
                    }
                    Ok(LValue::Binding((Binding { variables }).into_node(pair)).into_node(pair))
                },
                None => Err(Error::IllegalBinding { node: pair.meta() }),
            }
        },
        Rule::Index => {
            let lvalue = match parse_index(pair) {
                Ok(lvalue) => lvalue,
                Err(error) => {
                    return Err(error);
                },
            };
            let ghost lowered = lvalue;
            match lvalue.v {
                Expression::Index(index) => Ok(LValue::Index(index).into_node(pair)),
                Expression::Access(access) => Ok(LValue::Access(access).into_node(pair)),
                Expression::Variable(variable) => {
                    let mut variables: Vec<Node<Variable>> = Vec::new();
                    variables.push(variable);
                    Ok(LValue::Binding((Binding { variables }).into_node(pair)).into_node(pair))
                },
                _ => Err(Error::IllegalLValue { lvalue: lvalue.meta }),
            }
        },
        _ => Err(Error::UnexpectedRule { node: pair.meta() }),
    }
}

/// The way from a parse tree to a program.
#[derive(Debug, Default)]
pub struct SourceParser {}

impl SourceParser {
    /// The program that the pair stands for, or the error that the pair
    /// has, as an error of the parsing stage.
    pub fn parse(self, pair: &Pair) -> (r: Result<Node<Program>, TopError>)
        ensures
            match r {
                Ok(node) => program_error(*pair) is None && is_program(*pair, node),
                Err(TopError::Parse(error)) => program_error(*pair) == Some(error@),
                Err(_) => false,
            },
    {
        match parse_program(pair) {
            Ok(program) => Ok(program),
            Err(error) => Err(TopError::Parse(error)),
        }
    }

    /// The statement that the pair stands for, or the error that the pair
    /// has.
    pub fn parse_statement(&mut self, pair: &Pair) -> (r: Result<Node<Statement>, Error>)
        ensures
            lowered_statement(*pair, r),
    {
        parse_statement(pair)
    }
}

} // verus!
