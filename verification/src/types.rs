//! The syntax tree that the evaluator walks, and the source locations its
//! nodes carry for diagnostics.

use crate::parse::{meta_of, Pair};
use crate::runtime::error::message;
use crate::text::{decimal, decimal_text, join3};
use std::rc::Rc;
use vstd::prelude::*;
use vstd::string::StringExecFns;

verus! {

/// The grammar rule that produced a syntax node.
#[derive(Debug, Clone, Copy, PartialEq, Eq, Structural)]
pub enum Rule {
    Program,
    Stmts,
    Stmt,
    Assignment,
    ClassDef,
    ParamList,
    Param,
    MethodDef,
    ClassMethodSpec,
    ForIn,
    WhileLoop,
    LoopBreak,
    LoopContinue,
    ReturnStmt,
    UseStmt,
    Expr,
    ExprList,
    ArgList,
    Primary,
    Grouping,
    Binding,
    LogicalOr,
    LogicalAnd,
    Equality,
    Comparison,
    Term,
    Factor,
    LogicalNot,
    UnaryMinus,
    Closure,
    Index,
    Access,
    Call,
    Literal,
    Path,
    IfElse,
    Nil,
    Bool,
    Number,
    Text,
    TextInner,
    Array,
    Dict,
    Tuple,
    LValue,
    Variable,
    Ident,
    OpEq,
    OpEqEq,
    OpNeq,
    OpGt,
    OpGte,
    OpLt,
    OpLte,
    OpMinus,
    OpPlus,
    OpStar,
    OpPercent,
    OpSlash,
    OpMinusEq,
    OpPlusEq,
    OpStarEq,
    OpSlashEq,
    OpNot,
    OpOr,
    OpAnd,
}

impl Rule {
    /// The rule's name in the grammar.
    pub open spec fn name_text(self) -> Seq<char> {
        match self {
            Rule::Program => "program"@,
            Rule::Stmts => "stmts"@,
            Rule::Stmt => "stmt"@,
            Rule::Assignment => "assignment"@,
            Rule::ClassDef => "class_def"@,
            Rule::ParamList => "param_list"@,
            Rule::Param => "param"@,
            Rule::MethodDef => "method_def"@,
            Rule::ClassMethodSpec => "class_method_spec"@,
            Rule::ForIn => "for_in"@,
            Rule::WhileLoop => "while_loop"@,
            Rule::LoopBreak => "loop_break"@,
            Rule::LoopContinue => "loop_continue"@,
            Rule::ReturnStmt => "return_stmt"@,
            Rule::UseStmt => "use_stmt"@,
            Rule::Expr => "expr"@,
            Rule::ExprList => "expr_list"@,
            Rule::ArgList => "arg_list"@,
            Rule::Primary => "primary"@,
            Rule::Grouping => "grouping"@,
            Rule::Binding => "binding"@,
            Rule::LogicalOr => "logical_or"@,
            Rule::LogicalAnd => "logical_and"@,
            Rule::Equality => "equality"@,
            Rule::Comparison => "comparison"@,
            Rule::Term => "term"@,
            Rule::Factor => "factor"@,
            Rule::LogicalNot => "logical_not"@,
            Rule::UnaryMinus => "unary_minus"@,
            Rule::Closure => "closure"@,
            Rule::Index => "index"@,
            Rule::Access => "access"@,
            Rule::Call => "call"@,
            Rule::Literal => "literal"@,
            Rule::Path => "path"@,
            Rule::IfElse => "if_else"@,
            Rule::Nil => "nil"@,
            Rule::Bool => "bool"@,
            Rule::Number => "number"@,
            Rule::Text => "string"@,
            Rule::TextInner => "string_inner"@,
            Rule::Array => "array"@,
            Rule::Dict => "dict"@,
            Rule::Tuple => "tuple"@,
            Rule::LValue => "lvalue"@,
            Rule::Variable => "variable"@,
            Rule::Ident => "ident"@,
            Rule::OpEq => "op_eq"@,
            Rule::OpEqEq => "op_eq_eq"@,
            Rule::OpNeq => "op_neq"@,
            Rule::OpGt => "op_gt"@,
            Rule::OpGte => "op_gte"@,
            Rule::OpLt => "op_lt"@,
            Rule::OpLte => "op_lte"@,
            Rule::OpMinus => "op_minus"@,
            Rule::OpPlus => "op_plus"@,
            Rule::OpStar => "op_star"@,
            Rule::OpPercent => "op_percent"@,
            Rule::OpSlash => "op_slash"@,
            Rule::OpMinusEq => "op_minus_eq"@,
            Rule::OpPlusEq => "op_plus_eq"@,
            Rule::OpStarEq => "op_star_eq"@,
            Rule::OpSlashEq => "op_slash_eq"@,
            Rule::OpNot => "op_not"@,
            Rule::OpOr => "op_or"@,
            Rule::OpAnd => "op_and"@,
        }
    }

    /// The rule's name in the grammar.
    pub fn name(self) -> (r: &'static str)
        ensures
            r@ == self.name_text(),
    {
        match self {
            Rule::Program => "program",
            Rule::Stmts => "stmts",
            Rule::Stmt => "stmt",
            Rule::Assignment => "assignment",
            Rule::ClassDef => "class_def",
            Rule::ParamList => "param_list",
            Rule::Param => "param",
            Rule::MethodDef => "method_def",
            Rule::ClassMethodSpec => "class_method_spec",
            Rule::ForIn => "for_in",
            Rule::WhileLoop => "while_loop",
            Rule::LoopBreak => "loop_break",
            Rule::LoopContinue => "loop_continue",
            Rule::ReturnStmt => "return_stmt",
            Rule::UseStmt => "use_stmt",
            Rule::Expr => "expr",
            Rule::ExprList => "expr_list",
            Rule::ArgList => "arg_list",
            Rule::Primary => "primary",
            Rule::Grouping => "grouping",
            Rule::Binding => "binding",
            Rule::LogicalOr => "logical_or",
            Rule::LogicalAnd => "logical_and",
            Rule::Equality => "equality",
            Rule::Comparison => "comparison",
            Rule::Term => "term",
            Rule::Factor => "factor",
            Rule::LogicalNot => "logical_not",
            Rule::UnaryMinus => "unary_minus",
            Rule::Closure => "closure",
            Rule::Index => "index",
            Rule::Access => "access",
            Rule::Call => "call",
            Rule::Literal => "literal",
            Rule::Path => "path",
            Rule::IfElse => "if_else",
            Rule::Nil => "nil",
            Rule::Bool => "bool",
            Rule::Number => "number",
            Rule::Text => "string",
            Rule::TextInner => "string_inner",
            Rule::Array => "array",
            Rule::Dict => "dict",
            Rule::Tuple => "tuple",
            Rule::LValue => "lvalue",
            Rule::Variable => "variable",
            Rule::Ident => "ident",
            Rule::OpEq => "op_eq",
            Rule::OpEqEq => "op_eq_eq",
            Rule::OpNeq => "op_neq",
            Rule::OpGt => "op_gt",
            Rule::OpGte => "op_gte",
            Rule::OpLt => "op_lt",
            Rule::OpLte => "op_lte",
            Rule::OpMinus => "op_minus",
            Rule::OpPlus => "op_plus",
            Rule::OpStar => "op_star",
            Rule::OpPercent => "op_percent",
            Rule::OpSlash => "op_slash",
            Rule::OpMinusEq => "op_minus_eq",
            Rule::OpPlusEq => "op_plus_eq",
            Rule::OpStarEq => "op_star_eq",
            Rule::OpSlashEq => "op_slash_eq",
            Rule::OpNot => "op_not",
            Rule::OpOr => "op_or",
            Rule::OpAnd => "op_and",
        }
    }
}

/// Where a syntax node came from: its source text, the rule that matched it,
/// and the line and column at which it starts. Used for diagnostics only.
#[derive(Debug)]
pub struct NodeMeta {
    pub source: String,
    pub rule: Rule,
    pub line_col: (usize, usize),
}

impl Clone for NodeMeta {
    fn clone(&self) -> (r: Self)
        ensures
            r == *self,
    {
        NodeMeta { source: self.source.clone(), rule: self.rule, line_col: self.line_col }
    }
}

impl NodeMeta {
    /// The text that shows the location: the source between quotes, the
    /// line and the column, and the rule's name.
    pub open spec fn text(self) -> Seq<char> {
        "'"@ + self.source@ + "' at "@ + decimal_text(self.line_col.0 as nat) + ":"@ + decimal_text(
            self.line_col.1 as nat,
        ) + " ("@ + self.rule.name_text() + ")"@
    }

    /// The text that shows the location.
    pub fn to_string(&self) -> (r: String)
        ensures
            r@ == self.text(),
    {
        let mut r = join3("'", self.source.as_str(), "' at ");
        r.append(decimal(self.line_col.0).as_str());
        r.append(":");
        r.append(decimal(self.line_col.1).as_str());
        r.append(" (");
        r.append(self.rule.name());
        r.append(")");
        r
    }
}

/// A source location that may be absent, for errors raised by calls that no
/// syntax node stands behind.
#[derive(Debug)]
pub struct MaybeNodeMeta(pub Option<NodeMeta>);

impl Clone for MaybeNodeMeta {
    fn clone(&self) -> (r: Self)
        ensures
            r == *self,
    {
        match &self.0 {
            Some(meta) => MaybeNodeMeta(Some(meta.clone())),
            None => MaybeNodeMeta(None),
        }
    }
}

impl MaybeNodeMeta {
    /// The text that shows the location, or that there is none.
    pub open spec fn text(self) -> Seq<char> {
        match self.0 {
            Some(meta) => meta.text(),
            None => "(no AST)"@,
        }
    }

    /// The text that shows the location, or that there is none.
    pub fn to_string(&self) -> (r: String)
        ensures
            r@ == self.text(),
    {
        match &self.0 {
            Some(meta) => meta.to_string(),
            None => "(no AST)".to_owned(),
        }
    }

    /// The location of a node that is there.
    pub fn from_meta(value: NodeMeta) -> (r: Self)
        ensures
            r.0 == Some(value),
    {
        MaybeNodeMeta(Some(value))
    }

    /// A location that may be absent.
    pub fn from_option(value: Option<NodeMeta>) -> (r: Self)
        ensures
            r.0 == value,
    {
        MaybeNodeMeta(value)
    }
}

/// A syntax node: a variant together with its source location.
#[derive(Debug)]
pub struct Node<V> {
    pub meta: NodeMeta,
    pub v: V,
}

/// What a syntax node can hold.
pub trait NodeVariant: Sized {
    /// The node that holds this variant at the location of `pair`.
    fn into_node(self, pair: &Pair) -> (r: Node<Self>)
        ensures
            r == (Node { meta: meta_of(*pair), v: self }),
    {
        Node { meta: pair.meta(), v: self }
    }
}

/// An operator of the language.
#[derive(Debug, Copy, Clone, PartialEq, Eq, Structural)]
pub enum Operator {
    Equal,
    EqualEqual,
    NotEqual,
    Greater,
    GreaterEqual,
    Less,
    LessEqual,
    Plus,
    Minus,
    Star,
    Percent,
    Slash,
    PlusEqual,
    MinusEqual,
    StarEqual,
    SlashEqual,
    LogicalAnd,
    LogicalOr,
    LogicalNot,
}

/// An identifier.
#[derive(Debug)]
pub struct Ident {
    pub name: String,
}

/// A number literal. `value` is the bit pattern of the double-precision
/// number that the literal denotes.
#[derive(Debug)]
pub struct Number {
    pub value: u64,
}

/// A boolean literal.
#[derive(Debug)]
pub struct Boolean {
    pub value: bool,
}

/// A string literal.
#[derive(Debug)]
pub struct StringLit {
    pub value: String,
}

/// A list literal.
#[derive(Debug)]
pub struct Array {
    pub elements: Vec<Node<Expression>>,
}

/// A tuple literal.
#[derive(Debug)]
pub struct Tuple {
    pub items: Vec<Node<Expression>>,
}

/// A dictionary literal: keys with their values, in order.
#[derive(Debug)]
pub struct Dictionary {
    pub entries: Vec<(Node<Ident>, Node<Expression>)>,
}

/// A program: a block of statements.
#[derive(Debug)]
pub struct Program {
    pub body: Node<Block>,
}

/// A conditional expression.
#[derive(Debug)]
pub struct IfElse {
    pub condition: Box<Node<Expression>>,
    pub then_body: Node<Block>,
    pub else_body: Option<Node<Block>>,
}

/// A `for` loop over what an iterable yields.
#[derive(Debug)]
pub struct ForIn {
    pub binding: Vec<Node<Variable>>,
    pub iterable: Node<Expression>,
    pub body: Node<Block>,
}

/// A `break`.
#[derive(Debug)]
pub struct Break {}

/// A `continue`.
#[derive(Debug)]
pub struct Continue {}

/// The literal `nil`.
#[derive(Debug)]
pub struct Nil {}

/// A `return`, with a value or without.
#[derive(Debug)]
pub struct Return {
    pub retval: Option<Node<Expression>>,
}

/// A `while` loop.
#[derive(Debug)]
pub struct WhileLoop {
    pub condition: Node<Expression>,
    pub body: Node<Block>,
}

/// A binary operation.
#[derive(Debug)]
pub struct Binary {
    pub lhs: Box<Node<Expression>>,
    pub op: Node<Operator>,
    pub rhs: Box<Node<Expression>>,
}

/// A unary operation.
#[derive(Debug)]
pub struct Unary {
    pub op: Node<Operator>,
    pub rhs: Box<Node<Expression>>,
}

/// A member access: a property of the target, or a call of a method on it.
#[derive(Debug)]
pub struct Access {
    pub target: Box<Node<Expression>>,
    pub member: Box<Node<Expression>>,
}

/// A closure expression. The body is shared, so that the closure object made
/// from it can hold it without copying the tree.
#[derive(Debug)]
pub struct Closure {
    pub binding: Vec<Node<Variable>>,
    pub body: Rc<Node<Block>>,
}

/// An assignment, plain or compound.
#[derive(Debug)]
pub struct Assignment {
    pub target: Node<LValue>,
    pub op: Node<Operator>,
    pub value: Node<Expression>,
}

/// An indexing.
#[derive(Debug)]
pub struct Index {
    pub target: Box<Node<Expression>>,
    pub index: Box<Node<Expression>>,
}

/// A call.
#[derive(Debug)]
pub struct Call {
    pub target: Box<Node<Expression>>,
    pub arguments: Vec<Node<Expression>>,
}

/// The variables that an assignment binds.
#[derive(Debug)]
pub struct Binding {
    pub variables: Vec<Node<Variable>>,
}

/// A variable.
#[derive(Debug)]
pub struct Variable {
    pub ident: Node<Ident>,
}

/// A path of names separated by `::`.
#[derive(Debug)]
pub struct Path {
    pub components: Vec<Node<Variable>>,
}

/// A `use` of a class.
#[derive(Debug)]
pub struct Use {
    pub path: Node<Path>,
}

/// A block of statements.
#[derive(Debug)]
pub struct Block {
    pub statements: Vec<Node<Statement>>,
}

/// A class definition.
#[derive(Debug)]
pub struct ClassDefinition {
    pub name: Node<Ident>,
    pub fields: Vec<Node<Parameter>>,
    pub body: Node<Block>,
}

/// A parameter of a method or a field of a class, with an optional default
/// value.
#[derive(Debug)]
pub struct Parameter {
    pub name: Node<Ident>,
    pub default: Option<Node<Expression>>,
}

/// A method definition. The body is shared, so that the method made from it
/// can hold it without copying the tree.
#[derive(Debug)]
pub struct MethodDefinition {
    pub is_class_method: bool,
    pub name: Node<Ident>,
    pub parameters: Vec<Node<Parameter>>,
    pub body: Rc<Node<Block>>,
}

/// A statement.
#[derive(Debug)]
pub enum Statement {
    ForIn(Node<ForIn>),
    WhileLoop(Node<WhileLoop>),
    Break(Node<Break>),
    Continue(Node<Continue>),
    Return(Node<Return>),
    Assignment(Node<Assignment>),
    Expression(Node<Expression>),
    MethodDefinition(Node<MethodDefinition>),
    ClassDefinition(Node<ClassDefinition>),
    Use(Node<Use>),
}

/// An expression.
#[derive(Debug)]
pub enum Expression {
    Index(Node<Index>),
    Access(Node<Access>),
    Call(Node<Call>),
    Literal(Node<Literal>),
    Path(Node<Path>),
    IfElse(Node<IfElse>),
    Binary(Node<Binary>),
    Unary(Node<Unary>),
    Closure(Node<Closure>),
    Variable(Node<Variable>),
}

/// A literal.
#[derive(Debug)]
pub enum Literal {
    Array(Node<Array>),
    Tuple(Node<Tuple>),
    Dictionary(Node<Dictionary>),
    StringLit(Node<StringLit>),
    Number(Node<Number>),
    Boolean(Node<Boolean>),
    Nil(Node<Nil>),
}

/// The target of an assignment.
#[derive(Debug)]
pub enum LValue {
    Access(Node<Access>),
    Index(Node<Index>),
    Binding(Node<Binding>),
}

impl NodeVariant for Operator {
}

impl NodeVariant for Ident {
}

impl NodeVariant for Number {
}

impl NodeVariant for Boolean {
}

impl NodeVariant for StringLit {
}

impl NodeVariant for Array {
}

impl NodeVariant for Tuple {
}

impl NodeVariant for Dictionary {
}

impl NodeVariant for Program {
}

impl NodeVariant for IfElse {
}

impl NodeVariant for ForIn {
}

impl NodeVariant for Break {
}

impl NodeVariant for Continue {
}

impl NodeVariant for Nil {
}

impl NodeVariant for Return {
}

impl NodeVariant for WhileLoop {
}

impl NodeVariant for Binary {
}

impl NodeVariant for Unary {
}

impl NodeVariant for Access {
}

impl NodeVariant for Closure {
}

impl NodeVariant for Assignment {
}

impl NodeVariant for Index {
}

impl NodeVariant for Call {
}

impl NodeVariant for Binding {
}

impl NodeVariant for Variable {
}

impl NodeVariant for Path {
}

impl NodeVariant for Use {
}

impl NodeVariant for Block {
}

impl NodeVariant for ClassDefinition {
}

impl NodeVariant for Parameter {
}

impl NodeVariant for MethodDefinition {
}

impl NodeVariant for Statement {
}

impl NodeVariant for Expression {
}

impl NodeVariant for Literal {
}

impl NodeVariant for LValue {
}

/// An error of any stage: of the runtime, of the parser, or of reading the
/// source, of which the text tells.
#[derive(Debug)]
pub enum TopError {
    Runtime(crate::runtime::Error),
    Parse(crate::parse::Error),
    IO(String),
}

impl TopError {
    /// The message that tells of the error: the stage, then the message of
    /// the stage's error.
    pub open spec fn text(self) -> Seq<char> {
        match self {
            TopError::Runtime(error) => "runtime error: "@ + message(error@),
            TopError::Parse(error) => "parse error: "@ + crate::parse::message(error@),
            TopError::IO(text) => "I/O error: "@ + text@,
        }
    }

    /// The message that tells of the error.
    pub fn to_string(&self) -> (r: String)
        ensures
            r@ == self.text(),
    {
        match self {
            TopError::Runtime(error) => {
                let mut r = "runtime error: ".to_owned();
                r.append(error.to_string().as_str());
                r
            },
            TopError::Parse(error) => {
                let mut r = "parse error: ".to_owned();
                r.append(error.to_string().as_str());
                r
            },
            TopError::IO(text) => {
                let mut r = "I/O error: ".to_owned();
                r.append(text.as_str());
                r
            },
        }
    }
}

impl From<crate::runtime::Error> for TopError {
    fn from(value: crate::runtime::Error) -> (r: Self) {
        TopError::Runtime(value)
    }
}

impl vstd::std_specs::convert::FromSpecImpl<crate::runtime::Error> for TopError {
    open spec fn obeys_from_spec() -> bool {
        true
    }

    open spec fn from_spec(value: crate::runtime::Error) -> Self {
        TopError::Runtime(value)
    }
}

impl From<crate::parse::Error> for TopError {
    fn from(value: crate::parse::Error) -> (r: Self) {
        TopError::Parse(value)
    }
}

impl vstd::std_specs::convert::FromSpecImpl<crate::parse::Error> for TopError {
    open spec fn obeys_from_spec() -> bool {
        true
    }

    open spec fn from_spec(value: crate::parse::Error) -> Self {
        TopError::Parse(value)
    }
}

impl From<NodeMeta> for MaybeNodeMeta {
    fn from(value: NodeMeta) -> (r: Self) {
        MaybeNodeMeta(Some(value))
    }
}

impl vstd::std_specs::convert::FromSpecImpl<NodeMeta> for MaybeNodeMeta {
    open spec fn obeys_from_spec() -> bool {
        true
    }

    open spec fn from_spec(value: NodeMeta) -> Self {
        MaybeNodeMeta(Some(value))
    }
}

impl From<Option<NodeMeta>> for MaybeNodeMeta {
    fn from(value: Option<NodeMeta>) -> (r: Self) {
        MaybeNodeMeta(value)
    }
}

impl vstd::std_specs::convert::FromSpecImpl<Option<NodeMeta>> for MaybeNodeMeta {
    open spec fn obeys_from_spec() -> bool {
        true
    }

    open spec fn from_spec(value: Option<NodeMeta>) -> Self {
        MaybeNodeMeta(value)
    }
}

} // verus!
