use concorde::parse::{
    assert_rule, parse_binding, parse_block, parse_expression, parse_ident,
    parse_literal, parse_lvalue, parse_operator, parse_program, parse_statement, parse_variable,
    Error, Pair, SourceParser,
};
use concorde::runtime::host::NoHost;
use concorde::runtime::Runtime;
use concorde::types::{
    Expression, Ident, LValue, Literal, NodeVariant, Operator, Rule, Statement,
};

fn pair(rule: Rule, source: &str, inner: Vec<Pair>) -> Pair {
    Pair { rule, source: source.to_string(), line_col: (1, 1), number: None, inner }
}

fn leaf(rule: Rule, source: &str) -> Pair {
    pair(rule, source, vec![])
}

fn variable_pair(name: &str) -> Pair {
    pair(Rule::Variable, name, vec![leaf(Rule::Ident, name)])
}

fn path_pair(names: Vec<&str>) -> Pair {
    let source = names.join("::");
    pair(Rule::Path, &source, names.into_iter().map(variable_pair).collect())
}

fn number_pair(text: &str, value: f64) -> Pair {
    let mut number = leaf(Rule::Number, text);
    number.number = Some(value.to_bits());
    pair(Rule::Literal, text, vec![number])
}

fn string_pair(text: &str) -> Pair {
    let quoted = format!("\"{}\"", text);
    pair(Rule::Literal, &quoted, vec![pair(Rule::Text, &quoted, vec![leaf(Rule::TextInner, text)])])
}

fn primary(inner: Pair) -> Pair {
    let source = inner.source.clone();
    pair(Rule::Primary, &source, vec![inner])
}

/// Wraps a primary in the chain of rules that the grammar puts around it.
fn operand(inner: Pair) -> Pair {
    let mut wrapped = primary(inner);
    for rule in [Rule::Call, Rule::Access, Rule::Index, Rule::UnaryMinus, Rule::LogicalNot] {
        let source = wrapped.source.clone();
        wrapped = pair(rule, &source, vec![wrapped]);
    }
    wrapped
}

fn chain(rule: Rule, parts: Vec<Pair>) -> Pair {
    let source = parts.iter().map(|p| p.source.clone()).collect::<Vec<_>>().join(" ");
    pair(rule, &source, parts)
}

/// Wraps a factor in the chain of rules from a term up to an expression.
fn expr_of_factor(factor: Pair) -> Pair {
    let mut wrapped = factor;
    for rule in [
        Rule::Term,
        Rule::Comparison,
        Rule::Equality,
        Rule::LogicalAnd,
        Rule::LogicalOr,
        Rule::Expr,
    ] {
        let source = wrapped.source.clone();
        wrapped = pair(rule, &source, vec![wrapped]);
    }
    wrapped
}

fn expr_of(inner: Pair) -> Pair {
    expr_of_factor(chain(Rule::Factor, vec![operand(inner)]))
}

fn lvalue_of(name: &str) -> Pair {
    let index = pair(
        Rule::Index,
        name,
        vec![pair(
            Rule::Access,
            name,
            vec![pair(Rule::Call, name, vec![primary(path_pair(vec![name]))])],
        )],
    );
    pair(Rule::LValue, name, vec![index])
}

fn stmt(inner: Pair) -> Pair {
    let source = inner.source.clone();
    pair(Rule::Stmt, &source, vec![inner])
}

fn stmts(inner: Vec<Pair>) -> Pair {
    let source = inner.iter().map(|p| p.source.clone()).collect::<Vec<_>>().join("\n");
    pair(Rule::Stmts, &source, inner)
}

fn number_value(expression: &Expression) -> f64 {
    match expression {
        Expression::Literal(literal) => match &literal.v {
            Literal::Number(number) => f64::from_bits(number.v.value),
            other => panic!("unexpected {:?}", other),
        },
        other => panic!("unexpected {:?}", other),
    }
}

/// `x = 1 + 2 * 3`
fn sum_assignment() -> Pair {
    let product = chain(
        Rule::Factor,
        vec![operand(number_pair("2", 2.0)), leaf(
            Rule::OpStar,
            "*",
        ), operand(number_pair("3", 3.0))],
    );
    let one = chain(Rule::Factor, vec![operand(number_pair("1", 1.0))]);
    let mut sum = chain(Rule::Term, vec![one, leaf(Rule::OpPlus, "+"), product]);
    for rule in [Rule::Comparison, Rule::Equality, Rule::LogicalAnd, Rule::LogicalOr, Rule::Expr] {
        let source = sum.source.clone();
        sum = pair(rule, &source, vec![sum]);
    }
    stmt(chain(Rule::Assignment, vec![lvalue_of("x"), leaf(Rule::OpEq, "="), sum]))
}

#[test]
fn leaves_are_lowered_exactly() {
    let name = leaf(Rule::Ident, "abc");
    let ident = parse_ident(&name);
    assert_eq!(ident.v.name, "abc");
    assert_eq!(ident.meta.rule, Rule::Ident);
    assert_eq!(ident.meta.source, "abc");
    let node = Ident { name: "other".to_string() }.into_node(&name);
    assert_eq!(node.v.name, "other");
    assert_eq!(node.meta.source, "abc");
    assert_eq!(node.meta.line_col, (1, 1));
    let node = Operator::Plus.into_node(&name);
    assert_eq!(node.v, Operator::Plus);
    assert_eq!(node.meta.rule, Rule::Ident);
    assert_eq!(name.meta().source, "abc");
    let variable = parse_variable(&variable_pair("v")).unwrap();
    assert_eq!(variable.v.ident.v.name, "v");
    assert!(matches!(
        parse_variable(&name),
        Err(Error::RuleMismatch { expected: Rule::Variable, actual: Rule::Ident })
    ));
    assert!(assert_rule(&name, Rule::Ident).is_ok());
    assert!(matches!(
        assert_rule(&name, Rule::Call),
        Err(Error::RuleMismatch { expected: Rule::Call, actual: Rule::Ident })
    ));
}

#[test]
fn every_operator_rule_has_its_operator() {
    let cases = [
        (Rule::OpEq, Operator::Equal),
        (Rule::OpEqEq, Operator::EqualEqual),
        (Rule::OpNeq, Operator::NotEqual),
        (Rule::OpGt, Operator::Greater),
        (Rule::OpGte, Operator::GreaterEqual),
        (Rule::OpLt, Operator::Less),
        (Rule::OpLte, Operator::LessEqual),
        (Rule::OpMinus, Operator::Minus),
        (Rule::OpPlus, Operator::Plus),
        (Rule::OpStar, Operator::Star),
        (Rule::OpPercent, Operator::Percent),
        (Rule::OpSlash, Operator::Slash),
        (Rule::OpMinusEq, Operator::MinusEqual),
        (Rule::OpPlusEq, Operator::PlusEqual),
        (Rule::OpStarEq, Operator::StarEqual),
        (Rule::OpSlashEq, Operator::SlashEqual),
        (Rule::OpNot, Operator::LogicalNot),
        (Rule::OpOr, Operator::LogicalOr),
        (Rule::OpAnd, Operator::LogicalAnd),
    ];
    for (rule, operator) in cases {
        assert_eq!(parse_operator(&leaf(rule, "op")).unwrap().v, operator);
    }
    assert!(matches!(parse_operator(&leaf(Rule::Ident, "x")), Err(Error::UnexpectedRule { .. })));
}

#[test]
fn binary_chains_lean_left() {
    let minus = chain(
        Rule::Term,
        vec![
            chain(Rule::Factor, vec![operand(number_pair("1", 1.0))]),
            leaf(Rule::OpMinus, "-"),
            chain(Rule::Factor, vec![operand(number_pair("2", 2.0))]),
            leaf(Rule::OpMinus, "-"),
            chain(Rule::Factor, vec![operand(number_pair("3", 3.0))]),
        ],
    );
    let expression = parse_expression(&minus).unwrap();
    let Expression::Binary(outer) = expression.v else { panic!("no binary") };
    assert_eq!(outer.v.op.v, Operator::Minus);
    assert_eq!(number_value(&outer.v.rhs.v), 3.0);
    let Expression::Binary(inner) = &outer.v.lhs.v else { panic!("no binary") };
    assert_eq!(number_value(&inner.v.lhs.v), 1.0);
    assert_eq!(number_value(&inner.v.rhs.v), 2.0);
}

#[test]
fn unary_chains_apply_from_the_inside() {
    let mut operand_pair = primary(number_pair("1", 1.0));
    for rule in [Rule::Call, Rule::Access, Rule::Index] {
        let source = operand_pair.source.clone();
        operand_pair = pair(rule, &source, vec![operand_pair]);
    }
    let negated = pair(
        Rule::UnaryMinus,
        "--1",
        vec![leaf(Rule::OpMinus, "-"), leaf(Rule::OpMinus, "-"), operand_pair],
    );
    let not = pair(Rule::LogicalNot, "!--1", vec![leaf(Rule::OpNot, "!"), negated]);
    let expression = parse_expression(&not).unwrap();
    let Expression::Unary(outer) = expression.v else { panic!("no unary") };
    assert_eq!(outer.v.op.v, Operator::LogicalNot);
    let Expression::Unary(middle) = &outer.v.rhs.v else { panic!("no unary") };
    assert_eq!(middle.v.op.v, Operator::Minus);
    let Expression::Unary(inner) = &middle.v.rhs.v else { panic!("no unary") };
    assert_eq!(number_value(&inner.v.rhs.v), 1.0);
}

#[test]
fn literals_are_lowered_by_kind() {
    let nil = parse_literal(&pair(Rule::Literal, "nil", vec![leaf(Rule::Nil, "nil")])).unwrap();
    assert!(matches!(nil.v, Literal::Nil(_)));
    for (text, value) in [("true", true), ("false", false)] {
        let literal =
            parse_literal(&pair(Rule::Literal, text, vec![leaf(Rule::Bool, text)])).unwrap();
        let Literal::Boolean(boolean) = literal.v else { panic!("no boolean") };
        assert_eq!(boolean.v.value, value);
    }
    let number = parse_literal(&number_pair("1.5", 1.5)).unwrap();
    let Literal::Number(number) = number.v else { panic!("no number") };
    assert_eq!(f64::from_bits(number.v.value), 1.5);
    let string = parse_literal(&string_pair("hi there")).unwrap();
    let Literal::StringLit(string) = string.v else { panic!("no string") };
    assert_eq!(string.v.value, "hi there");
    let list = pair(
        Rule::Literal,
        "[1, 2]",
        vec![pair(
            Rule::Array,
            "[1, 2]",
            vec![pair(
                Rule::ExprList,
                "1, 2",
                vec![expr_of(number_pair("1", 1.0)), expr_of(number_pair("2", 2.0))],
            )],
        )],
    );
    let Literal::Array(array) = parse_literal(&list).unwrap().v else { panic!("no array") };
    assert_eq!(array.v.elements.len(), 2);
    assert_eq!(number_value(&array.v.elements[1].v), 2.0);
    let empty = pair(Rule::Literal, "[]", vec![leaf(Rule::Array, "[]")]);
    let Literal::Array(array) = parse_literal(&empty).unwrap().v else { panic!("no array") };
    assert!(array.v.elements.is_empty());
    let tuple = pair(
        Rule::Literal,
        "(1, 2)",
        vec![pair(
            Rule::Tuple,
            "(1, 2)",
            vec![expr_of(number_pair("1", 1.0)), expr_of(number_pair("2", 2.0))],
        )],
    );
    let Literal::Tuple(tuple) = parse_literal(&tuple).unwrap().v else { panic!("no tuple") };
    assert_eq!(tuple.v.items.len(), 2);
    let dict = pair(
        Rule::Literal,
        "[a: 1, b: 2]",
        vec![pair(
            Rule::Dict,
            "[a: 1, b: 2]",
            vec![
                leaf(Rule::Ident, "a"),
                expr_of(number_pair("1", 1.0)),
                leaf(Rule::Ident, "b"),
                expr_of(number_pair("2", 2.0)),
            ],
        )],
    );
    let Literal::Dictionary(dict) = parse_literal(&dict).unwrap().v else { panic!("no dict") };
    assert_eq!(dict.v.entries.len(), 2);
    assert_eq!(dict.v.entries[0].0.v.name, "a");
    assert_eq!(dict.v.entries[1].0.v.name, "b");
    assert_eq!(number_value(&dict.v.entries[1].1.v), 2.0);
}

#[test]
fn malformed_literals_are_refused() {
    let unparsed = pair(Rule::Literal, "1e", vec![leaf(Rule::Number, "1e")]);
    match parse_literal(&unparsed) {
        Err(Error::ParseFloat { source }) => assert_eq!(source, "1e"),
        other => panic!("unexpected {:?}", other),
    }
    assert!(matches!(
        parse_literal(&leaf(Rule::Nil, "nil")),
        Err(Error::RuleMismatch { expected: Rule::Literal, actual: Rule::Nil })
    ));
    assert!(matches!(parse_literal(&leaf(Rule::Literal, "")), Err(Error::MissingPart { .. })));
    assert!(matches!(
        parse_literal(&pair(Rule::Literal, "x", vec![leaf(Rule::Ident, "x")])),
        Err(Error::UnexpectedRule { .. })
    ));
    assert!(matches!(
        parse_literal(&pair(Rule::Literal, "\"", vec![leaf(Rule::Text, "\"")])),
        Err(Error::MissingPart { .. })
    ));
}

#[test]
fn path_of_one_name_is_a_variable() {
    let expression = parse_expression(&path_pair(vec!["x"])).unwrap();
    let Expression::Variable(variable) = expression.v else { panic!("no variable") };
    assert_eq!(variable.v.ident.v.name, "x");
    let expression = parse_expression(&path_pair(vec!["A", "B", "c"])).unwrap();
    let Expression::Path(path) = expression.v else { panic!("no path") };
    let names: Vec<&str> = path.v.components.iter().map(|c| c.v.ident.v.name.as_str()).collect();
    assert_eq!(names, vec!["A", "B", "c"]);
    let binding = pair(Rule::Binding, "x", vec![variable_pair("x")]);
    assert!(matches!(parse_expression(&binding).unwrap().v, Expression::Variable(_)));
    let wide = pair(Rule::Binding, "x, y", vec![variable_pair("x"), variable_pair("y")]);
    assert!(matches!(parse_expression(&wide), Err(Error::IllegalBinding { .. })));
    assert!(matches!(parse_expression(&leaf(Rule::Stmts, "")), Err(Error::UnexpectedRule { .. })));
    assert_eq!(parse_binding(&wide).unwrap().len(), 2);
}

#[test]
fn calls_indexes_and_accesses_chain() {
    let arguments = pair(
        Rule::ArgList,
        "(1)",
        vec![pair(Rule::ExprList, "1", vec![expr_of(number_pair("1", 1.0))])],
    );
    let no_arguments = leaf(Rule::ArgList, "()");
    let call = pair(
        Rule::Call,
        "f(1)()",
        vec![primary(path_pair(vec!["f"])), arguments, no_arguments],
    );
    let expression = parse_expression(&call).unwrap();
    let Expression::Call(outer) = expression.v else { panic!("no call") };
    assert!(outer.v.arguments.is_empty());
    let Expression::Call(inner) = &outer.v.target.v else { panic!("no call") };
    assert_eq!(inner.v.arguments.len(), 1);
    assert!(matches!(inner.v.target.v, Expression::Variable(_)));

    let member = pair(Rule::Call, "x", vec![primary(path_pair(vec!["x"]))]);
    let target = pair(Rule::Call, "p", vec![primary(path_pair(vec!["p"]))]);
    let access = pair(Rule::Access, "p.x", vec![target, member]);
    let expression = parse_expression(&access).unwrap();
    let Expression::Access(access_node) = expression.v else { panic!("no access") };
    assert!(matches!(access_node.v.member.v, Expression::Variable(_)));

    let target = pair(
        Rule::Access,
        "a",
        vec![pair(Rule::Call, "a", vec![primary(path_pair(vec!["a"]))])],
    );
    let index = pair(Rule::Index, "a[1]", vec![target, expr_of(number_pair("1", 1.0))]);
    let expression = parse_expression(&index).unwrap();
    let Expression::Index(index_node) = expression.v else { panic!("no index") };
    assert_eq!(number_value(&index_node.v.index.v), 1.0);
}

#[test]
fn assignment_targets_are_checked() {
    let target = parse_lvalue(&lvalue_of("x")).unwrap();
    let LValue::Binding(binding) = target.v else { panic!("no binding") };
    assert_eq!(binding.v.variables.len(), 1);
    assert_eq!(binding.v.variables[0].v.ident.v.name, "x");

    let tuple = pair(
        Rule::LValue,
        "(a, b)",
        vec![pair(
            Rule::Tuple,
            "(a, b)",
            vec![expr_of(path_pair(vec!["a"])), expr_of(path_pair(vec!["b"]))],
        )],
    );
    let LValue::Binding(binding) = parse_lvalue(&tuple).unwrap().v else { panic!("no binding") };
    let names: Vec<&str> =
        binding.v.variables.iter().map(|v| v.v.ident.v.name.as_str()).collect();
    assert_eq!(names, vec!["a", "b"]);

    let bad_tuple = pair(
        Rule::LValue,
        "(a, 1)",
        vec![pair(
            Rule::Tuple,
            "(a, 1)",
            vec![expr_of(path_pair(vec!["a"])), expr_of(number_pair("1", 1.0))],
        )],
    );
    assert!(matches!(parse_lvalue(&bad_tuple), Err(Error::IllegalBinding { .. })));

    let literal_target = pair(
        Rule::LValue,
        "1",
        vec![pair(
            Rule::Index,
            "1",
            vec![pair(
                Rule::Access,
                "1",
                vec![pair(Rule::Call, "1", vec![primary(number_pair("1", 1.0))])],
            )],
        )],
    );
    assert!(matches!(parse_lvalue(&literal_target), Err(Error::IllegalLValue { .. })));
    assert!(matches!(
        parse_lvalue(&leaf(Rule::Index, "x")),
        Err(Error::RuleMismatch { expected: Rule::LValue, actual: Rule::Index })
    ));

    let member = pair(Rule::Call, "x", vec![primary(path_pair(vec!["x"]))]);
    let receiver = pair(Rule::Call, "self", vec![primary(path_pair(vec!["self"]))]);
    let property = pair(
        Rule::LValue,
        "self.x",
        vec![pair(
            Rule::Index,
            "self.x",
            vec![pair(Rule::Access, "self.x", vec![receiver, member])],
        )],
    );
    assert!(matches!(parse_lvalue(&property).unwrap().v, LValue::Access(_)));
}

#[test]
fn statements_are_lowered_by_rule() {
    let statement = parse_statement(&sum_assignment()).unwrap();
    let Statement::Assignment(assignment) = statement.v else { panic!("no assignment") };
    assert_eq!(assignment.v.op.v, Operator::Equal);
    let Expression::Binary(sum) = &assignment.v.value.v else { panic!("no binary") };
    assert_eq!(sum.v.op.v, Operator::Plus);
    assert_eq!(number_value(&sum.v.lhs.v), 1.0);
    let Expression::Binary(product) = &sum.v.rhs.v else { panic!("no binary") };
    assert_eq!(product.v.op.v, Operator::Star);

    assert!(matches!(parse_statement(&leaf(Rule::LoopBreak, "break")).unwrap().v, Statement::Break(_)));
    assert!(matches!(
        parse_statement(&leaf(Rule::LoopContinue, "continue")).unwrap().v,
        Statement::Continue(_)
    ));
    let bare = parse_statement(&leaf(Rule::ReturnStmt, "return")).unwrap();
    let Statement::Return(bare) = bare.v else { panic!("no return") };
    assert!(bare.v.retval.is_none());
    let valued =
        parse_statement(&pair(Rule::ReturnStmt, "return 1", vec![expr_of(number_pair("1", 1.0))]))
            .unwrap();
    let Statement::Return(valued) = valued.v else { panic!("no return") };
    assert_eq!(number_value(&valued.v.retval.unwrap().v), 1.0);
    let expression = parse_statement(&expr_of(number_pair("1", 1.0))).unwrap();
    assert!(matches!(expression.v, Statement::Expression(_)));
    let used = parse_statement(
        &pair(Rule::UseStmt, "use A::B", vec![path_pair(vec!["A", "B"])]),
    ).unwrap();
    let Statement::Use(used) = used.v else { panic!("no use") };
    assert_eq!(used.v.path.v.components.len(), 2);
    assert!(matches!(parse_statement(&leaf(Rule::Ident, "x")), Err(Error::UnexpectedRule { .. })));
    assert!(matches!(parse_statement(&leaf(Rule::Stmt, "")), Err(Error::MissingPart { .. })));
    assert!(matches!(parse_statement(&leaf(Rule::Assignment, "")), Err(Error::MissingPart { .. })));
}

#[test]
fn loops_and_conditionals_take_blocks_or_short_statements() {
    let body = stmts(vec![stmt(leaf(Rule::LoopBreak, "break"))]);
    let while_loop = pair(
        Rule::WhileLoop,
        "while x { break }",
        vec![expr_of(path_pair(vec!["x"])), body],
    );
    let Statement::WhileLoop(lowered) = parse_statement(&while_loop).unwrap().v else {
        panic!("no while")
    };
    assert_eq!(lowered.v.body.v.statements.len(), 1);
    let short = pair(
        Rule::WhileLoop,
        "while x => break",
        vec![expr_of(path_pair(vec!["x"])), stmt(leaf(Rule::LoopBreak, "break"))],
    );
    let Statement::WhileLoop(lowered) = parse_statement(&short).unwrap().v else {
        panic!("no while")
    };
    assert_eq!(lowered.v.body.v.statements.len(), 1);
    assert!(matches!(lowered.v.body.v.statements[0].v, Statement::Break(_)));

    let for_in = pair(
        Rule::ForIn,
        "for a, b in xs {}",
        vec![
            pair(Rule::Binding, "a, b", vec![variable_pair("a"), variable_pair("b")]),
            expr_of(path_pair(vec!["xs"])),
            stmts(vec![]),
        ],
    );
    let Statement::ForIn(lowered) = parse_statement(&for_in).unwrap().v else { panic!("no for") };
    assert_eq!(lowered.v.binding.len(), 2);
    assert!(lowered.v.body.v.statements.is_empty());

    let conditional = pair(
        Rule::IfElse,
        "if x { 1 } else { 2 }",
        vec![
            expr_of(path_pair(vec!["x"])),
            stmts(vec![stmt(expr_of(number_pair("1", 1.0)))]),
            stmts(vec![stmt(expr_of(number_pair("2", 2.0)))]),
        ],
    );
    let Expression::IfElse(lowered) = parse_expression(&conditional).unwrap().v else {
        panic!("no conditional")
    };
    assert!(lowered.v.else_body.is_some());
    let without_else = pair(
        Rule::IfElse,
        "if x { 1 }",
        vec![expr_of(path_pair(vec!["x"])), stmts(vec![stmt(expr_of(number_pair("1", 1.0)))])],
    );
    let Expression::IfElse(lowered) = parse_expression(&without_else).unwrap().v else {
        panic!("no conditional")
    };
    assert!(lowered.v.else_body.is_none());

    let closure = pair(
        Rule::Closure,
        "|a| { a }",
        vec![
            pair(Rule::Binding, "a", vec![variable_pair("a")]),
            stmts(vec![stmt(expr_of(path_pair(vec!["a"])))]),
        ],
    );
    let Expression::Closure(lowered) = parse_expression(&closure).unwrap().v else {
        panic!("no closure")
    };
    assert_eq!(lowered.v.binding.len(), 1);
    assert_eq!(lowered.v.body.v.statements.len(), 1);
}

fn method_pair(name: &str, params: Vec<&str>, class_method: bool) -> Pair {
    let mut inner = Vec::new();
    if class_method {
        inner.push(leaf(Rule::ClassMethodSpec, "static"));
    }
    inner.push(leaf(Rule::Ident, name));
    inner.push(pair(
        Rule::ParamList,
        "(..)",
        params.into_iter().map(|p| pair(Rule::Param, p, vec![leaf(Rule::Ident, p)])).collect(),
    ));
    inner.push(stmts(vec![]));
    pair(Rule::MethodDef, name, inner)
}

#[test]
fn method_definitions_keep_name_parameters_and_kind() {
    let Statement::MethodDefinition(plain) =
        parse_statement(&method_pair("m", vec!["a", "b"], false)).unwrap().v
    else {
        panic!("no method")
    };
    assert_eq!(plain.v.name.v.name, "m");
    assert!(!plain.v.is_class_method);
    let names: Vec<&str> = plain.v.parameters.iter().map(|p| p.v.name.v.name.as_str()).collect();
    assert_eq!(names, vec!["a", "b"]);
    let Statement::MethodDefinition(of_class) =
        parse_statement(&method_pair("c", vec![], true)).unwrap().v
    else {
        panic!("no method")
    };
    assert!(of_class.v.is_class_method);
    assert!(of_class.v.parameters.is_empty());
    let short = pair(Rule::MethodDef, "m", vec![leaf(Rule::Ident, "m")]);
    assert!(matches!(parse_statement(&short), Err(Error::MissingPart { .. })));
}

#[test]
fn class_with_fields_gets_a_constructor() {
    let fields = pair(
        Rule::ParamList,
        "(x, y = 2)",
        vec![
            pair(Rule::Param, "x", vec![leaf(Rule::Ident, "x")]),
            pair(
                Rule::Param,
                "y = 2",
                vec![leaf(Rule::Ident, "y"), expr_of(number_pair("2", 2.0))],
            ),
        ],
    );
    let class = pair(
        Rule::ClassDef,
        "class P(x, y = 2) { m() {} }",
        vec![leaf(Rule::Ident, "P"), fields, stmts(vec![stmt(method_pair("m", vec![], false))])],
    );
    let Statement::ClassDefinition(lowered) = parse_statement(&class).unwrap().v else {
        panic!("no class")
    };
    assert_eq!(lowered.v.name.v.name, "P");
    assert_eq!(lowered.v.fields.len(), 2);
    assert!(lowered.v.fields[0].v.default.is_none());
    assert!(lowered.v.fields[1].v.default.is_some());
    assert_eq!(lowered.v.body.v.statements.len(), 2);
    let Statement::MethodDefinition(init) = &lowered.v.body.v.statements[1].v else {
        panic!("no constructor")
    };
    assert_eq!(init.v.name.v.name, "init");
    assert!(!init.v.is_class_method);
    let params: Vec<&str> = init.v.parameters.iter().map(|p| p.v.name.v.name.as_str()).collect();
    assert_eq!(params, vec!["x"]);
    assert_eq!(init.v.body.v.statements.len(), 2);
    let Statement::Assignment(second) = &init.v.body.v.statements[1].v else {
        panic!("no assignment")
    };
    assert_eq!(number_value(&second.v.value.v), 2.0);
    let LValue::Access(target) = &second.v.target.v else { panic!("no access") };
    let Expression::Variable(receiver) = &target.v.target.v else { panic!("no receiver") };
    assert_eq!(receiver.v.ident.v.name, "self");
    let Expression::Variable(member) = &target.v.member.v else { panic!("no member") };
    assert_eq!(member.v.ident.v.name, "y");
}

#[test]
fn class_with_fields_and_constructor_is_refused() {
    let fields =
        pair(Rule::ParamList, "(x)", vec![pair(Rule::Param, "x", vec![leaf(Rule::Ident, "x")])]);
    let class = pair(
        Rule::ClassDef,
        "class P(x) { init() {} }",
        vec![leaf(Rule::Ident, "P"), fields, stmts(vec![stmt(method_pair("init", vec![], false))])],
    );
    match parse_statement(&class) {
        Err(Error::ClassHasTwoInitializers { class }) => assert_eq!(class, "P"),
        other => panic!("unexpected {:?}", other),
    }
    let plain = pair(
        Rule::ClassDef,
        "class P { init() {} }",
        vec![leaf(Rule::Ident, "P"), stmts(vec![stmt(method_pair("init", vec![], false))])],
    );
    let Statement::ClassDefinition(lowered) = parse_statement(&plain).unwrap().v else {
        panic!("no class")
    };
    assert!(lowered.v.fields.is_empty());
    assert_eq!(lowered.v.body.v.statements.len(), 1);
}

#[test]
fn blocks_and_programs_keep_every_statement() {
    let body = stmts(vec![sum_assignment(), stmt(leaf(Rule::LoopBreak, "break"))]);
    let block = parse_block(&body).unwrap();
    assert_eq!(block.v.statements.len(), 2);
    assert_eq!(block.meta.rule, Rule::Stmts);
    let program = parse_program(&pair(Rule::Program, "..", vec![body])).unwrap();
    assert_eq!(program.v.body.v.statements.len(), 2);
    assert_eq!(program.meta.rule, Rule::Program);
    assert!(matches!(parse_program(&leaf(Rule::Program, "")), Err(Error::MissingPart { .. })));
}

#[test]
fn lowered_class_with_fields_runs() {
    let fields = pair(
        Rule::ParamList,
        "(x, y = nil)",
        vec![
            pair(Rule::Param, "x", vec![leaf(Rule::Ident, "x")]),
            pair(
                Rule::Param,
                "y = nil",
                vec![
                    leaf(Rule::Ident, "y"),
                    expr_of(pair(Rule::Literal, "nil", vec![leaf(Rule::Nil, "nil")])),
                ],
            ),
        ],
    );
    let class = stmt(pair(
        Rule::ClassDef,
        "class P(x, y = nil) {}",
        vec![leaf(Rule::Ident, "P"), fields, stmts(vec![])],
    ));
    let arguments = pair(
        Rule::ArgList,
        "(true)",
        vec![pair(
            Rule::ExprList,
            "true",
            vec![expr_of(pair(Rule::Literal, "true", vec![leaf(Rule::Bool, "true")]))],
        )],
    );
    let construct = pair(Rule::Call, "P(true)", vec![primary(path_pair(vec!["P"])), arguments]);
    let mut wrapped = pair(Rule::Access, "P(true)", vec![construct]);
    for rule in [Rule::Index, Rule::UnaryMinus, Rule::LogicalNot] {
        wrapped = pair(rule, "P(true)", vec![wrapped]);
    }
    let value = expr_of_factor(chain(Rule::Factor, vec![wrapped]));
    let assignment =
        stmt(chain(Rule::Assignment, vec![lvalue_of("p"), leaf(Rule::OpEq, "="), value]));
    let program =
        parse_program(&pair(Rule::Program, "..", vec![stmts(vec![class, assignment])])).unwrap();
    let mut rt = Runtime::new();
    rt.exec_program(&NoHost, &program, 200).unwrap();
    let p = rt.resolve_variable("p").unwrap();
    assert_eq!(rt.get_property(p, "x"), Some(rt.builtins().bool_true));
    assert_eq!(rt.get_property(p, "y"), Some(rt.nil()));
    assert_eq!(rt.class_of(p), rt.resolve_variable("P").unwrap());
}

#[test]
fn source_parser_lowers_programs() {
    let body = stmts(vec![sum_assignment()]);
    let program = SourceParser::default().parse(&pair(Rule::Program, "..", vec![body])).unwrap();
    assert_eq!(program.v.body.v.statements.len(), 1);
    let r = SourceParser::default().parse(&leaf(Rule::Program, ""));
    assert!(matches!(r, Err(concorde::types::TopError::Parse(Error::MissingPart { .. }))));
    let statement = SourceParser::default().parse_statement(&sum_assignment()).unwrap();
    assert!(matches!(statement.v, Statement::Assignment(_)));
}
