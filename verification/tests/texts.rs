use concorde::parse;
use concorde::runtime::builtin;
use concorde::runtime::builtin::op::{
    method_for_assignment_op, method_for_binary_op, method_for_unary_op,
};
use concorde::runtime::stdlib::join_texts;
use concorde::runtime::Error;
use concorde::parse::pretty::{pretty_pair_lines, Chain};
use concorde::parse::Pair;
use concorde::runtime::object::{Object, ObjectRef};
use concorde::text::{decimal, escape_newlines, join3, repeat, same_text, starts_reserved};
use concorde::types::{MaybeNodeMeta, NodeMeta, Operator, Rule, TopError};
use std::ops::ControlFlow;

fn meta() -> NodeMeta {
    NodeMeta { source: "a + b".to_string(), rule: Rule::Term, line_col: (3, 14) }
}

#[test]
fn operators_name_their_methods() {
    assert_eq!(method_for_assignment_op(&Operator::PlusEqual), Some("__add__"));
    assert_eq!(method_for_assignment_op(&Operator::MinusEqual), Some("__sub__"));
    assert_eq!(method_for_assignment_op(&Operator::StarEqual), Some("__mul__"));
    assert_eq!(method_for_assignment_op(&Operator::SlashEqual), Some("__div__"));
    assert_eq!(method_for_assignment_op(&Operator::Equal), None);
    assert_eq!(method_for_assignment_op(&Operator::Plus), None);
    assert_eq!(method_for_binary_op(&Operator::EqualEqual), Some("__eq__"));
    assert_eq!(method_for_binary_op(&Operator::NotEqual), Some("__neq__"));
    assert_eq!(method_for_binary_op(&Operator::Greater), Some("__gt__"));
    assert_eq!(method_for_binary_op(&Operator::GreaterEqual), Some("__gte__"));
    assert_eq!(method_for_binary_op(&Operator::Less), Some("__lt__"));
    assert_eq!(method_for_binary_op(&Operator::LessEqual), Some("__lte__"));
    assert_eq!(method_for_binary_op(&Operator::Plus), Some("__add__"));
    assert_eq!(method_for_binary_op(&Operator::Minus), Some("__sub__"));
    assert_eq!(method_for_binary_op(&Operator::Star), Some("__mul__"));
    assert_eq!(method_for_binary_op(&Operator::Slash), Some("__div__"));
    assert_eq!(method_for_binary_op(&Operator::LogicalNot), Some("__not__"));
    assert_eq!(method_for_binary_op(&Operator::Percent), None);
    assert_eq!(method_for_binary_op(&Operator::LogicalAnd), None);
    assert_eq!(method_for_binary_op(&Operator::LogicalOr), None);
    assert_eq!(method_for_binary_op(&Operator::PlusEqual), None);
    assert_eq!(method_for_unary_op(&Operator::Minus), Some("__neg__"));
    assert_eq!(method_for_unary_op(&Operator::LogicalNot), Some("__not__"));
    assert_eq!(method_for_unary_op(&Operator::Plus), None);
}

#[test]
fn reserved_names_are_as_the_language_writes_them() {
    assert_eq!(builtin::SELF, "self");
    assert_eq!(builtin::method::init, "init");
    assert_eq!(builtin::method::to_s, "to_s");
    assert_eq!(builtin::method::iter, "iter");
    assert_eq!(builtin::method::next, "next");
    assert_eq!(builtin::op::__index__, "__index__");
    assert_eq!(builtin::op::__set_index__, "__set_index__");
    assert_eq!(builtin::op::__call__, "__call__");
    assert_eq!(builtin::property::__name__, "__name__");
    assert_eq!(builtin::property::__class__, "__class__");
    assert_eq!(builtin::property::__binding__, "__binding__");
    assert_eq!(builtin::class::NilClass, "NilClass");
}

#[test]
fn numbers_are_written_in_decimal() {
    assert_eq!(decimal(0), "0");
    assert_eq!(decimal(7), "7");
    assert_eq!(decimal(10), "10");
    assert_eq!(decimal(1234567890), "1234567890");
    assert_eq!(decimal(usize::MAX), usize::MAX.to_string());
}

#[test]
fn texts_are_compared_and_joined() {
    assert!(same_text("abc", "abc"));
    assert!(!same_text("abc", "abd"));
    assert!(!same_text("abc", "ab"));
    assert!(same_text("", ""));
    assert_eq!(join3("a", "", "c"), "ac");
    assert_eq!(join3("ä", "→", "c"), "ä→c");
    assert!(starts_reserved("__x"));
    assert!(starts_reserved("__"));
    assert!(!starts_reserved("_x_"));
    assert!(!starts_reserved("_"));
    assert!(!starts_reserved(""));
    assert!(!starts_reserved("x__"));
    assert_eq!(join_texts(&vec![], ", "), "");
    assert_eq!(join_texts(&vec!["a".to_string()], ", "), "a");
    assert_eq!(join_texts(&vec!["a".to_string(), "b".to_string(), "".to_string()], ", "), "a, b, ");
}

#[test]
fn locations_show_source_place_and_rule() {
    assert_eq!(meta().to_string(), "'a + b' at 3:14 (term)");
    assert_eq!(MaybeNodeMeta(Some(meta())).to_string(), "'a + b' at 3:14 (term)");
    assert_eq!(MaybeNodeMeta(None).to_string(), "(no AST)");
    assert_eq!(MaybeNodeMeta::from(meta()).0.unwrap().line_col, (3, 14));
    assert!(MaybeNodeMeta::from(None).0.is_none());
    assert!(MaybeNodeMeta::from_meta(meta()).0.is_some());
    assert!(MaybeNodeMeta::from_option(None).0.is_none());
    assert_eq!(Rule::ClassDef.name(), "class_def");
    assert_eq!(Rule::Text.name(), "string");
    assert_eq!(Rule::LValue.name(), "lvalue");
    assert_eq!(Rule::OpPlusEq.name(), "op_plus_eq");
    let copy = meta().clone();
    assert_eq!(copy.source, "a + b");
    assert_eq!(copy.rule, Rule::Term);
}

#[test]
fn runtime_errors_tell_what_happened() {
    let at = "'a + b' at 3:14 (term)";
    let cases: Vec<(Error, String)> = vec![
        (Error::ControlFlow(ControlFlow::Break(())), "control flow".to_string()),
        (
            Error::ReturnFromMethod { retval: None, node: meta() },
            format!("illegal return outside of function: {at}"),
        ),
        (
            Error::ReturnFromInitializer { node: meta() },
            format!("illegal return of value inside initializer: {at}"),
        ),
        (
            Error::DuplicateMethodDefinition { class: "A".to_string(), name: "m".to_string() },
            "duplicate definition of method 'A::m'".to_string(),
        ),
        (
            Error::NoSuchVariable { name: "x".to_string(), node: meta() },
            format!("no such variable 'x': {at}"),
        ),
        (
            Error::NoSuchProperty { name: "x".to_string(), node: meta() },
            format!("no such property 'x': {at}"),
        ),
        (
            Error::NoSuchMethod { node: MaybeNodeMeta(None), search: "A.m".to_string() },
            "no such method 'A.m': (no AST)".to_string(),
        ),
        (
            Error::NotAClassMethod { class_name: "A".to_string(), method_name: "m".to_string() },
            "method 'A::m' is not for this kind of receiver".to_string(),
        ),
        (
            Error::ObjectNotCallable { node: MaybeNodeMeta(Some(meta())) },
            format!("object not callable (has no __call__ method): {at}"),
        ),
        (
            Error::ArityMismatch {
                class_name: "A".to_string(),
                method_name: "m".to_string(),
                expected: 2,
                actual: 13,
            },
            "arity mismatch for 'A::m()': expected 2 args, got 13".to_string(),
        ),
        (
            Error::UndefinedProperty {
                target: "#<A 5>".to_string(),
                member: "x".to_string(),
                node: meta(),
            },
            format!("object #<A 5> has no property 'x': {at}"),
        ),
        (Error::NotCallable { node: meta() }, format!("expression is not callable: {at}")),
        (Error::InvalidMember { node: meta() }, format!("invalid member: {at}")),
        (
            Error::IllegalAssignmentTarget { node: meta() },
            format!("illegal assignment target: {at}"),
        ),
        (
            Error::IllegalAssignmentOperator { node: meta() },
            format!("illegal assignment operator: {at}"),
        ),
        (
            Error::AssignmentRhsMustBeTuple { node: meta() },
            format!("assignment rhs must be tuple: {at}"),
        ),
        (Error::Index { error: "pop from empty list" }, "index error: pop from empty list".to_string()),
        (
            Error::IllegalConstructorCall { class: "NilClass".to_string() },
            "illegal constructor call: NilClass".to_string(),
        ),
        (
            Error::TypeMismatch { expected: "Number".to_string(), class: "String".to_string() },
            "type error: expected Number, got String".to_string(),
        ),
        (
            Error::IndexOutOfBounds { index: 12, node: meta() },
            format!("index out of bounds: 12 in {at}"),
        ),
        (
            Error::BadPath { non_class: "x".to_string(), path: meta() },
            format!("bad path contains non-class 'x': {at}"),
        ),
        (
            Error::BadIterator { reason: "iterable has no .iter() method", node: meta() },
            format!("bad iterator, iterable has no .iter() method: {at}"),
        ),
        (
            Error::SyntaxError { reason: "odd", node: MaybeNodeMeta(None) },
            "syntax error: odd: (no AST)".to_string(),
        ),
        (Error::BudgetExhausted, "evaluation budget exhausted".to_string()),
    ];
    for (error, expected) in cases {
        assert_eq!(error.to_string(), expected);
    }
}

#[test]
fn parse_errors_tell_what_happened() {
    let at = "'a + b' at 3:14 (term)";
    assert_eq!(parse::Error::Pest("line 1".to_string()).to_string(), "pest error: line 1");
    assert_eq!(
        parse::Error::ParseFloat { source: "1.2.3".to_string() }.to_string(),
        "parse float error: invalid float literal '1.2.3'"
    );
    assert_eq!(
        parse::Error::IllegalLValue { lvalue: meta() }.to_string(),
        format!("illegal lvalue for assignment: {at}")
    );
    assert_eq!(
        parse::Error::RuleMismatch { expected: Rule::Call, actual: Rule::Index }.to_string(),
        "rule mismatch: expected 'call', got 'index'"
    );
    assert_eq!(
        parse::Error::ClassHasTwoInitializers { class: "A".to_string() }.to_string(),
        "class cannot both have fields and an initializer method: 'A'"
    );
    assert_eq!(
        parse::Error::IllegalBinding { node: meta() }.to_string(),
        format!("syntax error, illegal multi-variable binding expression: '{at}'")
    );
    assert_eq!(
        parse::Error::UnexpectedRule { node: meta() }.to_string(),
        format!("syntax error, unexpected rule: {at}")
    );
    assert_eq!(
        parse::Error::MissingPart { node: meta() }.to_string(),
        format!("syntax error, incomplete rule: {at}")
    );
}

#[test]
fn top_errors_name_their_stage() {
    let runtime: TopError = Error::BudgetExhausted.into();
    assert_eq!(runtime.to_string(), "runtime error: evaluation budget exhausted");
    let parse: TopError = parse::Error::Pest("x".to_string()).into();
    assert_eq!(parse.to_string(), "parse error: pest error: x");
    assert_eq!(TopError::IO("gone".to_string()).to_string(), "I/O error: gone");
}

#[test]
fn line_breaks_are_written_out() {
    assert_eq!(escape_newlines(""), "");
    assert_eq!(escape_newlines("a"), "a");
    assert_eq!(escape_newlines("a\nb\n"), "a\\nb\\n");
    assert_eq!(escape_newlines("ä\n→"), "ä\\n→");
    assert_eq!(repeat(". ", 0), "");
    assert_eq!(repeat(". ", 3), ". . . ");
    assert_eq!(Chain::One.longer(), Chain::Two);
    assert_eq!(Chain::Two.longer(), Chain::Many);
    assert_eq!(Chain::Many.longer(), Chain::Many);
}

fn tree(rule: Rule, source: &str, inner: Vec<Pair>) -> Pair {
    Pair { rule, source: source.to_string(), line_col: (1, 1), number: None, inner }
}

#[test]
fn parse_tree_is_written_one_pair_to_a_line() {
    let one = tree(Rule::Number, "1", vec![]);
    let literal = tree(Rule::Literal, "1", vec![one]);
    let primary = tree(Rule::Primary, "1", vec![literal]);
    let two = tree(Rule::Literal, "2", vec![tree(Rule::Number, "2", vec![])]);
    let term = tree(Rule::Term, "1 +\n2", vec![primary, tree(Rule::OpPlus, "+", vec![]), two]);
    let expr = tree(Rule::Expr, "1 +\n2", vec![term]);
    assert_eq!(
        pretty_pair_lines(&expr),
        vec![
            "expr > term '1 +\\n2'".to_string(),
            ". primary > .. > number '1'".to_string(),
            ". op_plus '+'".to_string(),
            ". literal > number '2'".to_string(),
        ]
    );
    let nested = tree(
        Rule::Stmts,
        "a b",
        vec![tree(Rule::Stmt, "a", vec![tree(Rule::Expr, "a", vec![])]), tree(Rule::Ident, "b", vec![])],
    );
    assert_eq!(
        pretty_pair_lines(&tree(Rule::Program, "a b ", vec![nested])),
        vec![
            "program 'a b '".to_string(),
            ". stmts 'a b'".to_string(),
            ". . stmt > expr 'a'".to_string(),
            ". . ident 'b'".to_string(),
        ]
    );
}

#[test]
fn objects_are_equal_by_identity() {
    let class = ObjectRef { id: 0 };
    let mut a = Object::new_of_class(ObjectRef { id: 1 }, class);
    let b = Object::new_of_class(ObjectRef { id: 2 }, class);
    let same = Object::new_of_class(ObjectRef { id: 1 }, class);
    a.set_property("p".to_string(), class);
    assert!(a != b);
    assert!(a == same);
}
