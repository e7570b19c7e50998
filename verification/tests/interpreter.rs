use concorde::runtime::object::{MethodBody, MethodReceiver, ObjectRef, Param, SystemMethod};
use concorde::runtime::stdlib::function;
use concorde::runtime::closure::{
    find_closed_vars_in_block, find_closed_vars_in_expr, find_closed_vars_in_stmt,
};
use concorde::runtime::host::SystemHost;
use concorde::runtime::{Error, Runtime};
use concorde::types::{
    Access, Array, Assignment, Binary, Binding, Block, Boolean, Break, Call, ClassDefinition,
    Closure, Continue, Expression, ForIn, Ident, IfElse, Index, LValue, Literal, MethodDefinition,
    Nil, Node, NodeMeta, Number, Operator, Parameter, Program, Return, Rule, Statement, StringLit,
    Tuple, Unary, Variable, WhileLoop,
};
use std::cell::RefCell;
use std::rc::Rc;

const BUDGET: usize = 400;

const PROBE: usize = 1000;

struct TestHost {
    printed: RefCell<Vec<String>>,
    probes: RefCell<usize>,
}

fn host() -> TestHost {
    TestHost { printed: RefCell::new(Vec::new()), probes: RefCell::new(0) }
}

fn number_of(rt: &Runtime, object: ObjectRef) -> f64 {
    f64::from_bits(rt.object(object).number().expect("a number"))
}

fn text_of(rt: &Runtime, object: ObjectRef) -> String {
    rt.object(object).string().expect("a string").clone()
}

impl SystemHost for TestHost {
    fn call_system(
        &self,
        rt: &mut Runtime,
        function: usize,
        this: ObjectRef,
        _method_name: String,
        arguments: Vec<ObjectRef>,
        budget: usize,
    ) -> Result<ObjectRef, Error> {
        if function == PROBE {
            *self.probes.borrow_mut() += 1;
            return Ok(rt.create_bool(true));
        }
        if function == function::IO_PRINT || function == function::IO_PRINTLN {
            let text = rt.objects_to_text(self, &arguments, " ", budget)?;
            self.printed.borrow_mut().push(text);
            return Ok(rt.nil());
        }
        if function == function::ARRAY_LEN {
            let n = rt.array_items(this).expect("an array").len();
            return Ok(rt.create_number((n as f64).to_bits()));
        }
        if function == function::ARRAY_INDEX {
            let items = rt.array_items(this).expect("an array");
            let index = number_of(rt, arguments[0]) as usize;
            return Ok(if index < items.len() { items[index] } else { rt.nil() });
        }
        let a = number_of(rt, this);
        if function == function::NUMBER_TO_S {
            return Ok(rt.create_string(&a.to_string()));
        }
        if function == function::NUMBER_NEG {
            return Ok(rt.create_number((-a).to_bits()));
        }
        let b = number_of(rt, arguments[0]);
        if function == function::NUMBER_ADD {
            Ok(rt.create_number((a + b).to_bits()))
        } else if function == function::NUMBER_SUB {
            Ok(rt.create_number((a - b).to_bits()))
        } else if function == function::NUMBER_MUL {
            Ok(rt.create_number((a * b).to_bits()))
        } else if function == function::NUMBER_LT {
            Ok(rt.create_bool(a < b))
        } else if function == function::NUMBER_EQ {
            Ok(rt.create_bool(a == b))
        } else {
            panic!("host function {} is not part of this test", function)
        }
    }
}

fn meta() -> NodeMeta {
    NodeMeta { source: String::from("test"), rule: Rule::Expr, line_col: (1, 1) }
}

fn node<V>(v: V) -> Node<V> {
    Node { meta: meta(), v }
}

fn ident(name: &str) -> Node<Ident> {
    node(Ident { name: name.to_string() })
}

fn variable(name: &str) -> Node<Variable> {
    node(Variable { ident: ident(name) })
}

fn var(name: &str) -> Node<Expression> {
    node(Expression::Variable(variable(name)))
}

fn literal(v: Literal) -> Node<Expression> {
    node(Expression::Literal(node(v)))
}

fn num(value: f64) -> Node<Expression> {
    literal(Literal::Number(node(Number { value: value.to_bits() })))
}

fn text(value: &str) -> Node<Expression> {
    literal(Literal::StringLit(node(StringLit { value: value.to_string() })))
}

fn boolean(value: bool) -> Node<Expression> {
    literal(Literal::Boolean(node(Boolean { value })))
}

fn nil() -> Node<Expression> {
    literal(Literal::Nil(node(Nil {})))
}

fn array(elements: Vec<Node<Expression>>) -> Node<Expression> {
    literal(Literal::Array(node(Array { elements })))
}

fn tuple(items: Vec<Node<Expression>>) -> Node<Expression> {
    literal(Literal::Tuple(node(Tuple { items })))
}

fn binary(lhs: Node<Expression>, op: Operator, rhs: Node<Expression>) -> Node<Expression> {
    node(Expression::Binary(node(Binary { lhs: Box::new(lhs), op: node(op), rhs: Box::new(rhs) })))
}

fn unary(op: Operator, rhs: Node<Expression>) -> Node<Expression> {
    node(Expression::Unary(node(Unary { op: node(op), rhs: Box::new(rhs) })))
}

fn call(target: Node<Expression>, arguments: Vec<Node<Expression>>) -> Node<Expression> {
    node(Expression::Call(node(Call { target: Box::new(target), arguments })))
}

fn access(target: Node<Expression>, member: Node<Expression>) -> Node<Expression> {
    node(Expression::Access(node(Access { target: Box::new(target), member: Box::new(member) })))
}

fn send(target: Node<Expression>, name: &str, arguments: Vec<Node<Expression>>) -> Node<Expression> {
    access(target, call(var(name), arguments))
}

fn index(target: Node<Expression>, place: Node<Expression>) -> Node<Expression> {
    node(Expression::Index(node(Index { target: Box::new(target), index: Box::new(place) })))
}

fn block(statements: Vec<Node<Statement>>) -> Node<Block> {
    node(Block { statements })
}

fn if_else(
    condition: Node<Expression>,
    then_body: Vec<Node<Statement>>,
    else_body: Option<Vec<Node<Statement>>>,
) -> Node<Expression> {
    node(Expression::IfElse(node(IfElse {
        condition: Box::new(condition),
        then_body: block(then_body),
        else_body: else_body.map(block),
    })))
}

fn closure(params: Vec<&str>, body: Vec<Node<Statement>>) -> Node<Expression> {
    node(Expression::Closure(node(Closure {
        binding: params.into_iter().map(variable).collect(),
        body: Rc::new(block(body)),
    })))
}

fn stmt(expression: Node<Expression>) -> Node<Statement> {
    node(Statement::Expression(expression))
}

fn assign_op(name: &str, op: Operator, value: Node<Expression>) -> Node<Statement> {
    node(Statement::Assignment(node(Assignment {
        target: node(LValue::Binding(node(Binding { variables: vec![variable(name)] }))),
        op: node(op),
        value,
    })))
}

fn assign(name: &str, value: Node<Expression>) -> Node<Statement> {
    assign_op(name, Operator::Equal, value)
}

fn assign_many(names: Vec<&str>, value: Node<Expression>) -> Node<Statement> {
    node(Statement::Assignment(node(Assignment {
        target: node(LValue::Binding(node(Binding {
            variables: names.into_iter().map(variable).collect(),
        }))),
        op: node(Operator::Equal),
        value,
    })))
}

fn assign_property(target: Node<Expression>, member: &str, value: Node<Expression>) -> Node<Statement> {
    node(Statement::Assignment(node(Assignment {
        target: node(LValue::Access(node(Access {
            target: Box::new(target),
            member: Box::new(var(member)),
        }))),
        op: node(Operator::Equal),
        value,
    })))
}

fn method(name: &str, params: Vec<&str>, body: Vec<Node<Statement>>) -> Node<Statement> {
    node(Statement::MethodDefinition(node(MethodDefinition {
        is_class_method: false,
        name: ident(name),
        parameters: params
            .into_iter()
            .map(|p| node(Parameter { name: ident(p), default: None }))
            .collect(),
        body: Rc::new(block(body)),
    })))
}

fn class(name: &str, body: Vec<Node<Statement>>) -> Node<Statement> {
    node(Statement::ClassDefinition(node(ClassDefinition {
        name: ident(name),
        fields: Vec::new(),
        body: block(body),
    })))
}

fn ret(value: Option<Node<Expression>>) -> Node<Statement> {
    node(Statement::Return(node(Return { retval: value })))
}

fn while_loop(condition: Node<Expression>, body: Vec<Node<Statement>>) -> Node<Statement> {
    node(Statement::WhileLoop(node(WhileLoop { condition, body: block(body) })))
}

fn for_in(names: Vec<&str>, iterable: Node<Expression>, body: Vec<Node<Statement>>) -> Node<Statement> {
    node(Statement::ForIn(node(ForIn {
        binding: names.into_iter().map(variable).collect(),
        iterable,
        body: block(body),
    })))
}

fn path(names: Vec<&str>) -> Node<concorde::types::Path> {
    node(concorde::types::Path { components: names.into_iter().map(variable).collect() })
}

fn path_expr(names: Vec<&str>) -> Node<Expression> {
    node(Expression::Path(path(names)))
}

fn use_stmt(names: Vec<&str>) -> Node<Statement> {
    node(Statement::Use(node(concorde::types::Use { path: path(names) })))
}

fn class_method(name: &str, params: Vec<&str>, body: Vec<Node<Statement>>) -> Node<Statement> {
    node(Statement::MethodDefinition(node(MethodDefinition {
        is_class_method: true,
        name: ident(name),
        parameters: params
            .into_iter()
            .map(|p| node(Parameter { name: ident(p), default: None }))
            .collect(),
        body: Rc::new(block(body)),
    })))
}

fn assign_index_op(
    target: Node<Expression>,
    place: Node<Expression>,
    op: Operator,
    value: Node<Expression>,
) -> Node<Statement> {
    node(Statement::Assignment(node(Assignment {
        target: node(LValue::Index(node(Index {
            target: Box::new(target),
            index: Box::new(place),
        }))),
        op: node(op),
        value,
    })))
}

fn assign_property_op(
    target: Node<Expression>,
    member: Node<Expression>,
    op: Operator,
    value: Node<Expression>,
) -> Node<Statement> {
    node(Statement::Assignment(node(Assignment {
        target: node(LValue::Access(node(Access {
            target: Box::new(target),
            member: Box::new(member),
        }))),
        op: node(op),
        value,
    })))
}

fn program(statements: Vec<Node<Statement>>) -> Node<Program> {
    node(Program { body: block(statements) })
}

fn run(rt: &mut Runtime, h: &TestHost, statements: Vec<Node<Statement>>) -> Result<(), Error> {
    rt.exec_program(h, &program(statements), BUDGET)
}

fn eval(rt: &mut Runtime, h: &TestHost, expression: Node<Expression>) -> Result<ObjectRef, Error> {
    rt.eval(h, &expression, BUDGET)
}

#[test]
fn arithmetic_follows_the_tree() {
    let mut rt = Runtime::new();
    let h = host();
    let sum = binary(num(1.0), Operator::Plus, binary(num(2.0), Operator::Star, num(3.0)));
    run(&mut rt, &h, vec![assign("x", sum)]).unwrap();
    let x = eval(&mut rt, &h, var("x")).unwrap();
    assert_eq!(number_of(&rt, x), 7.0);
}

#[test]
fn constructor_sets_properties() {
    let mut rt = Runtime::new();
    let h = host();
    let init = method(
        "init",
        vec!["x", "y"],
        vec![
            assign_property(var("self"), "x", var("x")),
            assign_property(var("self"), "y", var("y")),
        ],
    );
    run(
        &mut rt,
        &h,
        vec![
            class("Point", vec![init]),
            assign("p", call(var("Point"), vec![num(1.0), num(2.0)])),
        ],
    )
    .unwrap();
    let x = eval(&mut rt, &h, access(var("p"), var("x"))).unwrap();
    assert_eq!(number_of(&rt, x), 1.0);
    let y = eval(&mut rt, &h, access(var("p"), var("y"))).unwrap();
    assert_eq!(number_of(&rt, y), 2.0);
}

#[test]
fn constructor_returns_the_instance_with_or_without_bare_return() {
    let mut rt = Runtime::new();
    let h = host();
    let plain = method("init", vec!["x"], vec![assign_property(var("self"), "x", var("x"))]);
    let returning =
        method("init", vec!["x"], vec![assign_property(var("self"), "x", var("x")), ret(None)]);
    let ending_in_expression = method(
        "init",
        vec!["x"],
        vec![assign_property(var("self"), "x", var("x")), stmt(num(99.0))],
    );
    run(
        &mut rt,
        &h,
        vec![
            class("Foo", vec![plain]),
            class("Bar", vec![returning]),
            class("Baz", vec![ending_in_expression]),
        ],
    )
    .unwrap();
    for name in ["Foo", "Bar", "Baz"] {
        let object = eval(&mut rt, &h, call(var(name), vec![num(5.0)])).unwrap();
        let class = eval(&mut rt, &h, var(name)).unwrap();
        assert_eq!(rt.class_of(object), class);
        let x = rt.get_property(object, "x").unwrap();
        assert_eq!(number_of(&rt, x), 5.0);
    }
}

#[test]
fn constructor_that_returns_a_value_is_an_error() {
    let mut rt = Runtime::new();
    let h = host();
    let init = method("init", vec![], vec![ret(Some(num(1.0)))]);
    run(&mut rt, &h, vec![class("Foo", vec![init])]).unwrap();
    let r = eval(&mut rt, &h, call(var("Foo"), vec![]));
    assert!(matches!(r, Err(Error::ReturnFromInitializer { .. })));
}

#[test]
fn class_without_constructor_yields_an_instance() {
    let mut rt = Runtime::new();
    let h = host();
    run(&mut rt, &h, vec![class("Empty", vec![])]).unwrap();
    let object = eval(&mut rt, &h, call(var("Empty"), vec![])).unwrap();
    let class = eval(&mut rt, &h, var("Empty")).unwrap();
    assert_eq!(rt.class_of(object), class);
    assert!(!rt.is_class(object));
}

#[test]
fn list_push_and_pop() {
    let mut rt = Runtime::new();
    let h = host();
    run(
        &mut rt,
        &h,
        vec![
            assign("arr", array(vec![num(1.0), num(2.0), num(3.0)])),
            stmt(send(var("arr"), "push", vec![num(4.0)])),
        ],
    )
    .unwrap();
    let arr = eval(&mut rt, &h, var("arr")).unwrap();
    assert_eq!(rt.array_items(arr).unwrap().len(), 4);
    let popped = eval(&mut rt, &h, send(var("arr"), "pop", vec![])).unwrap();
    assert_eq!(number_of(&rt, popped), 4.0);
    let len = eval(&mut rt, &h, send(var("arr"), "len", vec![])).unwrap();
    assert_eq!(number_of(&rt, len), 3.0);
}

#[test]
fn pop_from_empty_list_is_an_index_error() {
    let mut rt = Runtime::new();
    let h = host();
    let r = eval(&mut rt, &h, send(array(vec![]), "pop", vec![]));
    assert!(matches!(r, Err(Error::Index { error: "pop from empty list" })));
}

#[test]
fn and_skips_the_right_operand() {
    let mut rt = Runtime::new();
    let h = host();
    let io = rt.builtins().IO;
    rt.define_method(
        io,
        MethodReceiver::Class,
        "probe".to_string(),
        Vec::new(),
        MethodBody::System(SystemMethod::Host(PROBE)),
    )
    .unwrap();
    run(&mut rt, &h, vec![use_stmt(vec!["IO"])]).unwrap();
    let side = || call(var("probe"), vec![]);

    let expr = if_else(
        binary(boolean(true), Operator::LogicalAnd, boolean(false)),
        vec![stmt(num(1.0))],
        Some(vec![stmt(num(2.0))]),
    );
    let r = eval(&mut rt, &h, expr).unwrap();
    assert_eq!(number_of(&rt, r), 2.0);

    let r = eval(&mut rt, &h, binary(boolean(false), Operator::LogicalAnd, side())).unwrap();
    assert_eq!(r, rt.builtins().bool_false);
    assert_eq!(*h.probes.borrow(), 0);
    let r = eval(&mut rt, &h, binary(nil(), Operator::LogicalAnd, side())).unwrap();
    assert_eq!(r, rt.nil());
    assert_eq!(*h.probes.borrow(), 0);
    let r = eval(&mut rt, &h, binary(boolean(true), Operator::LogicalOr, side())).unwrap();
    assert_eq!(r, rt.builtins().bool_true);
    assert_eq!(*h.probes.borrow(), 0);

    let r = eval(&mut rt, &h, binary(boolean(true), Operator::LogicalAnd, side())).unwrap();
    assert_eq!(r, rt.builtins().bool_true);
    assert_eq!(*h.probes.borrow(), 1);
    let r = eval(&mut rt, &h, binary(boolean(false), Operator::LogicalOr, side())).unwrap();
    assert_eq!(r, rt.builtins().bool_true);
    assert_eq!(*h.probes.borrow(), 2);
}

#[test]
fn only_false_and_nil_are_falsy() {
    let mut rt = Runtime::new();
    let h = host();
    let pick = |condition: Node<Expression>| {
        if_else(condition, vec![stmt(text("a"))], Some(vec![stmt(text("b"))]))
    };
    let r = eval(&mut rt, &h, pick(num(0.0))).unwrap();
    assert_eq!(text_of(&rt, r), "a");
    let r = eval(&mut rt, &h, pick(text(""))).unwrap();
    assert_eq!(text_of(&rt, r), "a");
    let r = eval(&mut rt, &h, pick(array(vec![]))).unwrap();
    assert_eq!(text_of(&rt, r), "a");
    let r = eval(&mut rt, &h, pick(nil())).unwrap();
    assert_eq!(text_of(&rt, r), "b");
    let r = eval(&mut rt, &h, pick(boolean(false))).unwrap();
    assert_eq!(text_of(&rt, r), "b");
    let r = eval(&mut rt, &h, pick(boolean(true))).unwrap();
    assert_eq!(text_of(&rt, r), "a");
}

#[test]
fn if_without_else_yields_nil() {
    let mut rt = Runtime::new();
    let h = host();
    let r = eval(&mut rt, &h, if_else(boolean(false), vec![stmt(num(1.0))], None)).unwrap();
    assert_eq!(r, rt.nil());
}

#[test]
fn closure_captures_the_value_at_creation() {
    let mut rt = Runtime::new();
    let h = host();
    run(
        &mut rt,
        &h,
        vec![
            assign("x", num(1.0)),
            assign("f", closure(vec![], vec![stmt(var("x"))])),
            assign("x", num(2.0)),
        ],
    )
    .unwrap();
    let r = eval(&mut rt, &h, call(var("f"), vec![])).unwrap();
    assert_eq!(number_of(&rt, r), 1.0);
    let x = eval(&mut rt, &h, var("x")).unwrap();
    assert_eq!(number_of(&rt, x), 2.0);
}

#[test]
fn closure_takes_arguments() {
    let mut rt = Runtime::new();
    let h = host();
    run(
        &mut rt,
        &h,
        vec![
            assign("k", num(10.0)),
            assign(
                "add",
                closure(vec!["a"], vec![stmt(binary(var("a"), Operator::Plus, var("k")))]),
            ),
        ],
    )
    .unwrap();
    let r = eval(&mut rt, &h, call(var("add"), vec![num(5.0)])).unwrap();
    assert_eq!(number_of(&rt, r), 15.0);
    let r = eval(&mut rt, &h, call(var("add"), vec![]));
    assert!(matches!(r, Err(Error::ArityMismatch { expected: 1, actual: 0, .. })));
}

#[test]
fn for_in_over_empty_list_runs_no_round() {
    let mut rt = Runtime::new();
    let h = host();
    run(
        &mut rt,
        &h,
        vec![
            assign("count", num(0.0)),
            for_in(
                vec!["item"],
                array(vec![]),
                vec![assign_op("count", Operator::PlusEqual, num(1.0))],
            ),
        ],
    )
    .unwrap();
    let count = eval(&mut rt, &h, var("count")).unwrap();
    assert_eq!(number_of(&rt, count), 0.0);
}

#[test]
fn for_in_visits_each_item_in_order() {
    let mut rt = Runtime::new();
    let h = host();
    run(
        &mut rt,
        &h,
        vec![
            assign("sum", num(0.0)),
            assign("seen", array(vec![])),
            for_in(
                vec!["item"],
                array(vec![num(1.0), num(2.0), num(3.0)]),
                vec![
                    assign_op("sum", Operator::PlusEqual, var("item")),
                    stmt(send(var("seen"), "push", vec![var("item")])),
                ],
            ),
        ],
    )
    .unwrap();
    let sum = eval(&mut rt, &h, var("sum")).unwrap();
    assert_eq!(number_of(&rt, sum), 6.0);
    let seen = eval(&mut rt, &h, var("seen")).unwrap();
    let items: Vec<f64> =
        rt.array_items(seen).unwrap().into_iter().map(|o| number_of(&rt, o)).collect();
    assert_eq!(items, vec![1.0, 2.0, 3.0]);
}

#[test]
fn for_in_binds_tuples() {
    let mut rt = Runtime::new();
    let h = host();
    let pairs = array(vec![tuple(vec![num(1.0), num(10.0)]), tuple(vec![num(2.0), num(20.0)])]);
    run(
        &mut rt,
        &h,
        vec![
            assign("sum", num(0.0)),
            for_in(
                vec!["a", "b"],
                pairs,
                vec![assign_op(
                    "sum",
                    Operator::PlusEqual,
                    binary(var("a"), Operator::Star, var("b")),
                )],
            ),
        ],
    )
    .unwrap();
    let sum = eval(&mut rt, &h, var("sum")).unwrap();
    assert_eq!(number_of(&rt, sum), 50.0);
    let r = run(
        &mut rt,
        &h,
        vec![for_in(vec!["a", "b"], array(vec![tuple(vec![num(1.0)])]), vec![])],
    );
    assert!(matches!(r, Err(Error::BadIterator { reason: "iterator binding arity mismatch", .. })));
    let r = run(&mut rt, &h, vec![for_in(vec!["a", "b"], array(vec![num(1.0)]), vec![])]);
    assert!(matches!(r, Err(Error::BadIterator { reason: "iterator returned unbindable item", .. })));
}

#[test]
fn for_in_needs_an_iterator() {
    let mut rt = Runtime::new();
    let h = host();
    let r = run(&mut rt, &h, vec![for_in(vec!["x"], num(1.0), vec![])]);
    assert!(matches!(r, Err(Error::BadIterator { reason: "iterable has no .iter() method", .. })));
}

#[test]
fn while_loop_with_break_and_continue() {
    let mut rt = Runtime::new();
    let h = host();
    let body = vec![
        assign_op("i", Operator::PlusEqual, num(1.0)),
        stmt(if_else(
            binary(var("i"), Operator::EqualEqual, num(2.0)),
            vec![node(Statement::Continue(node(Continue {})))],
            None,
        )),
        stmt(if_else(
            binary(var("i"), Operator::EqualEqual, num(5.0)),
            vec![node(Statement::Break(node(Break {})))],
            None,
        )),
        assign_op("sum", Operator::PlusEqual, var("i")),
    ];
    run(
        &mut rt,
        &h,
        vec![
            assign("i", num(0.0)),
            assign("sum", num(0.0)),
            while_loop(binary(var("i"), Operator::Less, num(10.0)), body),
        ],
    )
    .unwrap();
    let sum = eval(&mut rt, &h, var("sum")).unwrap();
    assert_eq!(number_of(&rt, sum), 1.0 + 3.0 + 4.0);
    let i = eval(&mut rt, &h, var("i")).unwrap();
    assert_eq!(number_of(&rt, i), 5.0);
}

#[test]
fn endless_loop_exhausts_the_budget() {
    let mut rt = Runtime::new();
    let h = host();
    let r = run(&mut rt, &h, vec![while_loop(boolean(true), vec![])]);
    assert!(matches!(r, Err(Error::BudgetExhausted)));
    let r = rt.eval(&h, &num(1.0), 0);
    assert!(matches!(r, Err(Error::BudgetExhausted)));
}

#[test]
fn endless_recursion_exhausts_the_budget() {
    let mut rt = Runtime::new();
    let h = host();
    let forever = method("forever", vec![], vec![stmt(call(var("forever"), vec![]))]);
    run(&mut rt, &h, vec![forever]).unwrap();
    let r = eval(&mut rt, &h, call(var("forever"), vec![]));
    assert!(matches!(r, Err(Error::BudgetExhausted)));
}

#[test]
fn user_method_checks_arity() {
    let mut rt = Runtime::new();
    let h = host();
    let two = method("two", vec!["a", "b"], vec![stmt(var("a"))]);
    run(
        &mut rt,
        &h,
        vec![class("Foo", vec![two]), assign("foo", call(var("Foo"), vec![]))],
    ).unwrap();
    let r = eval(&mut rt, &h, send(var("foo"), "two", vec![num(1.0)]));
    match r {
        Err(Error::ArityMismatch { class_name, method_name, expected, actual }) => {
            assert_eq!(class_name, "Foo");
            assert_eq!(method_name, "two");
            assert_eq!(expected, 2);
            assert_eq!(actual, 1);
        }
        other => panic!("unexpected {:?}", other),
    }
    let r = eval(&mut rt, &h, send(var("foo"), "two", vec![num(1.0), num(2.0), num(3.0)]));
    assert!(matches!(r, Err(Error::ArityMismatch { expected: 2, actual: 3, .. })));
    let r = eval(&mut rt, &h, send(var("foo"), "two", vec![num(1.0), num(2.0)])).unwrap();
    assert_eq!(number_of(&rt, r), 1.0);
}

#[test]
fn method_returns_value_or_nil() {
    let mut rt = Runtime::new();
    let h = host();
    let early = method(
        "early",
        vec!["a"],
        vec![ret(Some(binary(var("a"), Operator::Plus, num(1.0)))), stmt(num(100.0))],
    );
    let nothing = method("nothing", vec![], vec![assign("t", num(1.0))]);
    let bare = method("bare", vec![], vec![ret(None)]);
    let last = method("last", vec![], vec![stmt(num(8.0))]);
    run(
        &mut rt,
        &h,
        vec![class("Foo", vec![early, nothing, bare, last]), assign(
            "foo",
            call(var("Foo"), vec![]),
        )],
    )
    .unwrap();
    let r = eval(&mut rt, &h, send(var("foo"), "early", vec![num(1.0)])).unwrap();
    assert_eq!(number_of(&rt, r), 2.0);
    let r = eval(&mut rt, &h, send(var("foo"), "nothing", vec![])).unwrap();
    assert_eq!(r, rt.nil());
    let r = eval(&mut rt, &h, send(var("foo"), "bare", vec![])).unwrap();
    assert_eq!(r, rt.nil());
    let r = eval(&mut rt, &h, send(var("foo"), "last", vec![])).unwrap();
    assert_eq!(number_of(&rt, r), 8.0);
}

#[test]
fn top_level_method_is_called_by_name() {
    let mut rt = Runtime::new();
    let h = host();
    let double = method(
        "double",
        vec!["a"],
        vec![stmt(binary(var("a"), Operator::Star, num(2.0)))],
    );
    run(&mut rt, &h, vec![double]).unwrap();
    let r = eval(&mut rt, &h, call(var("double"), vec![num(21.0)])).unwrap();
    assert_eq!(number_of(&rt, r), 42.0);
}

#[test]
fn method_calls_sibling_on_current_instance() {
    let mut rt = Runtime::new();
    let h = host();
    let helper = method("helper", vec![], vec![stmt(num(3.0))]);
    let entry = method("entry", vec![], vec![stmt(call(var("helper"), vec![]))]);
    run(
        &mut rt,
        &h,
        vec![class("Foo", vec![helper, entry]), assign("foo", call(var("Foo"), vec![]))],
    )
    .unwrap();
    let r = eval(&mut rt, &h, send(var("foo"), "entry", vec![])).unwrap();
    assert_eq!(number_of(&rt, r), 3.0);
}

#[test]
fn unknown_names_are_reported() {
    let mut rt = Runtime::new();
    let h = host();
    let r = eval(&mut rt, &h, var("missing"));
    match r {
        Err(Error::NoSuchVariable { name, .. }) => assert_eq!(name, "missing"),
        other => panic!("unexpected {:?}", other),
    }
    let r = eval(&mut rt, &h, call(var("missing"), vec![]));
    match r {
        Err(Error::NoSuchMethod { search, .. }) => assert_eq!(search, "missing"),
        other => panic!("unexpected {:?}", other),
    }
    let r = eval(&mut rt, &h, send(text("abc"), "missing", vec![]));
    match r {
        Err(Error::NoSuchMethod { search, .. }) => assert_eq!(search, "String.missing"),
        other => panic!("unexpected {:?}", other),
    }
    let r = eval(&mut rt, &h, access(text("abc"), var("missing")));
    match r {
        Err(Error::UndefinedProperty { member, target, .. }) => {
            assert_eq!(member, "missing");
            assert!(target.starts_with("#<String "));
            assert!(target.ends_with(">"));
        }
        other => panic!("unexpected {:?}", other),
    }
    run(&mut rt, &h, vec![assign("n", num(1.0))]).unwrap();
    let r = eval(&mut rt, &h, call(var("n"), vec![]));
    assert!(matches!(r, Err(Error::ObjectNotCallable { .. })));
}

#[test]
fn duplicate_method_is_an_error() {
    let mut rt = Runtime::new();
    let h = host();
    let r = run(
        &mut rt,
        &h,
        vec![class("Foo", vec![method("a", vec![], vec![]), method("a", vec![], vec![])])],
    );
    match r {
        Err(Error::DuplicateMethodDefinition { class, name }) => {
            assert_eq!(class, "Foo");
            assert_eq!(name, "a");
        }
        other => panic!("unexpected {:?}", other),
    }
    assert_eq!(rt.current_instance(), None);
    assert_eq!(rt.current_class(), rt.builtins().Main);
}

#[test]
fn string_literals_are_interned() {
    let mut rt = Runtime::new();
    let h = host();
    let a = eval(&mut rt, &h, text("abc")).unwrap();
    run(&mut rt, &h, vec![assign("x", num(1.0))]).unwrap();
    let b = eval(&mut rt, &h, text("abc")).unwrap();
    assert_eq!(a, b);
    let c = eval(&mut rt, &h, text("abd")).unwrap();
    assert_ne!(a, c);
}

#[test]
fn string_methods() {
    let mut rt = Runtime::new();
    let h = host();
    let r = eval(&mut rt, &h, binary(text("ab"), Operator::Plus, text("cd"))).unwrap();
    assert_eq!(text_of(&rt, r), "abcd");
    let r = eval(&mut rt, &h, binary(text("n="), Operator::Plus, num(1.5))).unwrap();
    assert_eq!(text_of(&rt, r), "n=1.5");
    let r = eval(&mut rt, &h, send(text("  padded \n"), "trim", vec![])).unwrap();
    assert_eq!(text_of(&rt, r), "padded");
    let r = eval(&mut rt, &h, binary(text("a"), Operator::EqualEqual, text("a"))).unwrap();
    assert_eq!(r, rt.builtins().bool_true);
    let r = eval(&mut rt, &h, binary(text("a"), Operator::EqualEqual, text("b"))).unwrap();
    assert_eq!(r, rt.builtins().bool_false);
    let r = eval(&mut rt, &h, binary(text("a"), Operator::EqualEqual, num(1.0))).unwrap();
    assert_eq!(r, rt.builtins().bool_false);
    let r = eval(&mut rt, &h, binary(text("a"), Operator::NotEqual, text("b"))).unwrap();
    assert_eq!(r, rt.builtins().bool_true);
}

#[test]
fn texts_of_lists_and_singletons() {
    let mut rt = Runtime::new();
    let h = host();
    let r = eval(
        &mut rt,
        &h,
        send(array(vec![num(1.0), text("a"), nil()]), "to_s", vec![]),
    ).unwrap();
    assert_eq!(text_of(&rt, r), "[1, a, nil]");
    let r = eval(&mut rt, &h, send(array(vec![]), "to_s", vec![])).unwrap();
    assert_eq!(text_of(&rt, r), "[]");
    let r = eval(&mut rt, &h, send(tuple(vec![boolean(true)]), "to_s", vec![])).unwrap();
    assert_eq!(text_of(&rt, r), "(true,)");
    let r = eval(
        &mut rt,
        &h,
        send(tuple(vec![boolean(true), boolean(false)]), "to_s", vec![]),
    ).unwrap();
    assert_eq!(text_of(&rt, r), "(true, false)");
    run(&mut rt, &h, vec![class("Foo", vec![])]).unwrap();
    let r = eval(&mut rt, &h, send(call(var("Foo"), vec![]), "to_s", vec![])).unwrap();
    assert_eq!(text_of(&rt, r), "Object()");
}

#[test]
fn instance_method_on_a_class_is_refused() {
    let mut rt = Runtime::new();
    let h = host();
    let r = eval(&mut rt, &h, send(var("String"), "to_s", vec![]));
    match r {
        Err(Error::NotAClassMethod { class_name, method_name }) => {
            assert_eq!(class_name, "Class");
            assert_eq!(method_name, "to_s");
        }
        other => panic!("unexpected {:?}", other),
    }
    let string = rt.builtins().String;
    let name = rt.call_builtin(
        &h,
        concorde::runtime::stdlib::Builtin::ClassToS,
        string,
        "to_s".to_string(),
        Vec::new(),
        BUDGET,
    )
    .unwrap();
    assert_eq!(text_of(&rt, name), "String");
}

#[test]
fn unary_operators_call_their_methods() {
    let mut rt = Runtime::new();
    let h = host();
    let r = eval(&mut rt, &h, unary(Operator::Minus, num(2.0))).unwrap();
    assert_eq!(number_of(&rt, r), -2.0);
    let r = eval(&mut rt, &h, unary(Operator::LogicalNot, boolean(false))).unwrap();
    assert_eq!(r, rt.builtins().bool_true);
    let r = eval(&mut rt, &h, unary(Operator::LogicalNot, boolean(true))).unwrap();
    assert_eq!(r, rt.builtins().bool_false);
    let r = eval(&mut rt, &h, unary(Operator::Plus, num(2.0)));
    assert!(matches!(r, Err(Error::SyntaxError { .. })));
    let r = eval(&mut rt, &h, binary(num(2.0), Operator::Percent, num(2.0)));
    assert!(matches!(r, Err(Error::SyntaxError { .. })));
}

#[test]
fn nil_cannot_be_constructed() {
    let mut rt = Runtime::new();
    let h = host();
    let r = eval(&mut rt, &h, call(var("NilClass"), vec![]));
    match r {
        Err(Error::IllegalConstructorCall { class }) => assert_eq!(class, "NilClass"),
        other => panic!("unexpected {:?}", other),
    }
}

#[test]
fn tuple_assignment_takes_items() {
    let mut rt = Runtime::new();
    let h = host();
    run(&mut rt, &h, vec![assign_many(vec!["a", "b"], tuple(vec![num(1.0), num(2.0)]))]).unwrap();
    let a = eval(&mut rt, &h, var("a")).unwrap();
    let b = eval(&mut rt, &h, var("b")).unwrap();
    assert_eq!((number_of(&rt, a), number_of(&rt, b)), (1.0, 2.0));
    let r = run(&mut rt, &h, vec![assign_many(vec!["a", "b"], num(1.0))]);
    assert!(matches!(r, Err(Error::AssignmentRhsMustBeTuple { .. })));
    let r = run(&mut rt, &h, vec![assign_many(vec!["a", "b"], tuple(vec![num(1.0)]))]);
    assert!(matches!(r, Err(Error::AssignmentRhsMustBeTuple { .. })));
}

#[test]
fn dictionary_stores_and_finds() {
    let mut rt = Runtime::new();
    let h = host();
    let dict = literal(Literal::Dictionary(node(concorde::types::Dictionary {
        entries: vec![(ident("a"), num(1.0)), (ident("b"), num(2.0)), (ident("a"), num(3.0))],
    })));
    run(&mut rt, &h, vec![assign("d", dict)]).unwrap();
    let r = eval(&mut rt, &h, index(var("d"), text("a"))).unwrap();
    assert_eq!(number_of(&rt, r), 3.0);
    let r = eval(&mut rt, &h, index(var("d"), text("zzz"))).unwrap();
    assert_eq!(r, rt.nil());
    let set = node(Statement::Assignment(node(Assignment {
        target: node(LValue::Index(node(Index {
            target: Box::new(var("d")),
            index: Box::new(text("c")),
        }))),
        op: node(Operator::Equal),
        value: num(9.0),
    })));
    run(&mut rt, &h, vec![set]).unwrap();
    let r = eval(&mut rt, &h, index(var("d"), text("c"))).unwrap();
    assert_eq!(number_of(&rt, r), 9.0);
    let r = eval(&mut rt, &h, index(var("d"), num(1.0)));
    assert!(matches!(r, Err(Error::TypeMismatch { .. })));
}

#[test]
fn print_goes_to_the_host() {
    let mut rt = Runtime::new();
    let h = host();
    run(
        &mut rt,
        &h,
        vec![
            use_stmt(vec!["IO"]),
            stmt(call(var("println"), vec![text("a"), num(2.0), array(vec![nil()])])),
        ],
    )
    .unwrap();
    assert_eq!(*h.printed.borrow(), vec!["a 2 [nil]".to_string()]);
}

#[test]
fn frames_are_gone_after_errors() {
    let mut rt = Runtime::new();
    let h = host();
    let failing = method("failing", vec![], vec![stmt(var("missing"))]);
    run(
        &mut rt,
        &h,
        vec![class("Foo", vec![failing]), assign("foo", call(var("Foo"), vec![]))],
    ).unwrap();
    let r = eval(&mut rt, &h, send(var("foo"), "failing", vec![]));
    assert!(matches!(r, Err(Error::NoSuchVariable { .. })));
    assert_eq!(rt.current_instance(), None);
    let r = run(&mut rt, &h, vec![while_loop(var("missing"), vec![])]);
    assert!(matches!(r, Err(Error::NoSuchVariable { .. })));
    run(&mut rt, &h, vec![assign("top", num(1.0))]).unwrap();
    let r = eval(&mut rt, &h, var("top")).unwrap();
    assert_eq!(number_of(&rt, r), 1.0);
}

#[test]
fn class_methods_are_called_by_path_and_through_use() {
    let mut rt = Runtime::new();
    let h = host();
    let twice = class_method(
        "twice",
        vec!["a"],
        vec![stmt(binary(var("a"), Operator::Star, num(2.0)))],
    );
    run(&mut rt, &h, vec![class("Maths", vec![twice])]).unwrap();
    let r = eval(&mut rt, &h, call(path_expr(vec!["Maths", "twice"]), vec![num(4.0)])).unwrap();
    assert_eq!(number_of(&rt, r), 8.0);
    let r = eval(&mut rt, &h, call(var("twice"), vec![num(4.0)]));
    assert!(matches!(r, Err(Error::NoSuchMethod { .. })));
    run(&mut rt, &h, vec![use_stmt(vec!["Maths"])]).unwrap();
    let r = eval(&mut rt, &h, call(var("twice"), vec![num(5.0)])).unwrap();
    assert_eq!(number_of(&rt, r), 10.0);
    let r = eval(&mut rt, &h, call(path_expr(vec!["Maths", "missing"]), vec![]));
    match r {
        Err(Error::NoSuchMethod { search, .. }) => assert_eq!(search, "Maths::missing"),
        other => panic!("unexpected {:?}", other),
    }
    let maths = eval(&mut rt, &h, var("Maths")).unwrap();
    let instance = rt.create_object(maths);
    rt.assign_global("m".to_string(), instance);
    let r = eval(&mut rt, &h, send(var("m"), "twice", vec![num(1.0)]));
    match r {
        Err(Error::NoSuchMethod { search, .. }) => assert_eq!(search, "Maths.twice"),
        other => panic!("unexpected {:?}", other),
    }
}

#[test]
fn paths_walk_properties_that_are_classes() {
    let mut rt = Runtime::new();
    let h = host();
    run(&mut rt, &h, vec![class("Outer", vec![]), class("Inner", vec![method("init", vec!["v"], vec![
        assign_property(var("self"), "v", var("v")),
    ])])]).unwrap();
    let outer = eval(&mut rt, &h, var("Outer")).unwrap();
    let inner = eval(&mut rt, &h, var("Inner")).unwrap();
    rt.set_property(outer, "Inner".to_string(), inner);
    let text_object = rt.create_string("no class");
    rt.set_property(outer, "label".to_string(), text_object);
    let r = eval(&mut rt, &h, path_expr(vec!["Outer", "Inner"])).unwrap();
    assert_eq!(r, inner);
    let made = eval(&mut rt, &h, call(path_expr(vec!["Outer", "Inner"]), vec![num(3.0)])).unwrap();
    assert_eq!(rt.class_of(made), inner);
    let v = rt.get_property(made, "v").unwrap();
    assert_eq!(number_of(&rt, v), 3.0);
    let r = eval(&mut rt, &h, path_expr(vec!["Outer", "label"]));
    match r {
        Err(Error::BadPath { non_class, .. }) => assert_eq!(non_class, "label"),
        other => panic!("unexpected {:?}", other),
    }
    let r = eval(&mut rt, &h, path_expr(vec!["Outer", "missing"]));
    match r {
        Err(Error::UndefinedProperty { member, .. }) => assert_eq!(member, "missing"),
        other => panic!("unexpected {:?}", other),
    }
    let r = eval(&mut rt, &h, path_expr(vec!["Nowhere", "Inner"]));
    assert!(matches!(r, Err(Error::NoSuchVariable { .. })));
    let r = eval(&mut rt, &h, path_expr(vec![]));
    assert!(matches!(r, Err(Error::SyntaxError { .. })));
    let r = run(&mut rt, &h, vec![use_stmt(vec!["Outer", "label"])]);
    assert!(matches!(r, Err(Error::BadPath { .. })));
}

#[test]
fn compound_assignment_reads_then_writes() {
    let mut rt = Runtime::new();
    let h = host();
    run(
        &mut rt,
        &h,
        vec![
            class("Box", vec![]),
            assign("b", call(var("Box"), vec![])),
            assign_property(var("b"), "n", num(1.0)),
            assign_property_op(var("b"), var("n"), Operator::PlusEqual, num(2.0)),
            assign_property_op(var("b"), var("n"), Operator::StarEqual, num(5.0)),
            assign("d", literal(Literal::Dictionary(node(concorde::types::Dictionary {
                entries: vec![(ident("k"), text("a"))],
            })))),
            assign_index_op(var("d"), text("k"), Operator::PlusEqual, text("b")),
            assign("n", num(10.0)),
            assign_op("n", Operator::MinusEqual, num(4.0)),
        ],
    )
    .unwrap();
    let n = eval(&mut rt, &h, access(var("b"), var("n"))).unwrap();
    assert_eq!(number_of(&rt, n), 15.0);
    let k = eval(&mut rt, &h, index(var("d"), text("k"))).unwrap();
    assert_eq!(text_of(&rt, k), "ab");
    let n = eval(&mut rt, &h, var("n")).unwrap();
    assert_eq!(number_of(&rt, n), 6.0);

    let r = run(&mut rt, &h, vec![assign_op("fresh", Operator::PlusEqual, num(1.0))]);
    match r {
        Err(Error::NoSuchVariable { name, .. }) => assert_eq!(name, "fresh"),
        other => panic!("unexpected {:?}", other),
    }
    let r = run(
        &mut rt,
        &h,
        vec![assign_property_op(var("b"), var("fresh"), Operator::PlusEqual, num(1.0))],
    );
    match r {
        Err(Error::NoSuchProperty { name, .. }) => assert_eq!(name, "fresh"),
        other => panic!("unexpected {:?}", other),
    }
}

#[test]
fn malformed_targets_and_members_are_errors() {
    let mut rt = Runtime::new();
    let h = host();
    run(&mut rt, &h, vec![class("Box", vec![]), assign("b", call(var("Box"), vec![]))]).unwrap();
    let r = run(
        &mut rt,
        &h,
        vec![assign_property_op(var("b"), num(1.0), Operator::Equal, num(1.0))],
    );
    assert!(matches!(r, Err(Error::IllegalAssignmentTarget { .. })));
    let r = eval(&mut rt, &h, access(var("b"), num(1.0)));
    assert!(matches!(r, Err(Error::InvalidMember { .. })));
    let r = eval(&mut rt, &h, access(var("b"), call(num(1.0), vec![])));
    assert!(matches!(r, Err(Error::NotCallable { .. })));
    let many = node(Statement::Assignment(node(Assignment {
        target: node(LValue::Binding(node(Binding {
            variables: vec![variable("a"), variable("b")],
        }))),
        op: node(Operator::PlusEqual),
        value: tuple(vec![num(1.0), num(2.0)]),
    })));
    assert!(matches!(run(&mut rt, &h, vec![many]), Err(Error::IllegalAssignmentOperator { .. })));
}

#[test]
fn signals_that_nothing_catches_come_out_as_errors() {
    let mut rt = Runtime::new();
    let h = host();
    let r = run(&mut rt, &h, vec![ret(Some(num(1.0)))]);
    match r {
        Err(Error::ReturnFromMethod { retval: Some(value), .. }) => {
            assert_eq!(number_of(&rt, value), 1.0)
        }
        other => panic!("unexpected {:?}", other),
    }
    let r = run(&mut rt, &h, vec![node(Statement::Break(node(Break {})))]);
    assert!(matches!(r, Err(Error::ControlFlow(std::ops::ControlFlow::Break(())))));
    let r = run(&mut rt, &h, vec![node(Statement::Continue(node(Continue {})))]);
    assert!(matches!(r, Err(Error::ControlFlow(std::ops::ControlFlow::Continue(())))));
    let r = run(&mut rt, &h, vec![class("K", vec![ret(None)])]);
    assert!(matches!(r, Err(Error::ReturnFromMethod { retval: None, .. })));
    assert_eq!(rt.current_class(), rt.builtins().Main);
}

#[test]
fn class_definition_reopens_a_class() {
    let mut rt = Runtime::new();
    let h = host();
    run(
        &mut rt,
        &h,
        vec![
            class("K", vec![method("a", vec![], vec![stmt(num(1.0))])]),
            assign("first", var("K")),
            class("K", vec![method("b", vec![], vec![stmt(num(2.0))])]),
            assign("k", call(var("K"), vec![])),
        ],
    )
    .unwrap();
    let first = eval(&mut rt, &h, var("first")).unwrap();
    let second = eval(&mut rt, &h, var("K")).unwrap();
    assert_eq!(first, second);
    let a = eval(&mut rt, &h, send(var("k"), "a", vec![])).unwrap();
    let b = eval(&mut rt, &h, send(var("k"), "b", vec![])).unwrap();
    assert_eq!((number_of(&rt, a), number_of(&rt, b)), (1.0, 2.0));
    assert_eq!(rt.object(second).superclass, Some(rt.builtins().Object));
}

#[test]
fn closure_shares_objects_but_not_variables() {
    let mut rt = Runtime::new();
    let h = host();
    run(
        &mut rt,
        &h,
        vec![
            assign("list", array(vec![])),
            assign(
                "grow",
                closure(vec!["v"], vec![stmt(send(var("list"), "push", vec![var("v")]))]),
            ),
            stmt(call(var("grow"), vec![num(1.0)])),
            assign("list", array(vec![num(9.0), num(9.0)])),
            stmt(call(var("grow"), vec![num(2.0)])),
        ],
    )
    .unwrap();
    let list = eval(&mut rt, &h, var("list")).unwrap();
    assert_eq!(rt.array_items(list).unwrap().len(), 2);
    let grow = eval(&mut rt, &h, var("grow")).unwrap();
    assert_eq!(rt.class_of(grow), rt.builtins().Closure);
    let captured = rt.get_property(grow, "list").unwrap();
    assert_ne!(captured, list);
    let items: Vec<f64> =
        rt.array_items(captured).unwrap().into_iter().map(|o| number_of(&rt, o)).collect();
    assert_eq!(items, vec![1.0, 2.0]);
    let binding = rt.get_property(grow, "__binding__").unwrap();
    let names: Vec<String> =
        rt.array_items(binding).unwrap().into_iter().map(|o| text_of(&rt, o)).collect();
    assert_eq!(names, vec!["v".to_string()]);
    let three = rt.create_number(3f64.to_bits());
    rt.call_closure(&h, grow, vec![three], BUDGET).unwrap();
    assert_eq!(rt.array_items(captured).unwrap().len(), 3);
    let r = rt.call_closure(&h, list, vec![], BUDGET);
    assert!(matches!(r, Err(Error::ObjectNotCallable { .. })));
}

#[test]
fn operands_are_evaluated_left_to_right() {
    let mut rt = Runtime::new();
    let h = host();
    run(&mut rt, &h, vec![assign("log", array(vec![]))]).unwrap();
    let note = |value: f64| {
        binary(
            binary(send(var("log"), "push", vec![num(value)]), Operator::LogicalOr, num(value)),
            Operator::Plus,
            num(0.0),
        )
    };
    let r = eval(&mut rt, &h, binary(note(1.0), Operator::Minus, note(2.0))).unwrap();
    assert_eq!(number_of(&rt, r), -1.0);
    let log = eval(&mut rt, &h, var("log")).unwrap();
    let order: Vec<f64> =
        rt.array_items(log).unwrap().into_iter().map(|o| number_of(&rt, o)).collect();
    assert_eq!(order, vec![1.0, 2.0]);
}

#[test]
fn larger_budget_gives_the_same_answer() {
    let statements = || {
        vec![
            assign("i", num(0.0)),
            assign("sum", num(0.0)),
            while_loop(
                binary(var("i"), Operator::Less, num(20.0)),
                vec![
                    assign_op("i", Operator::PlusEqual, num(1.0)),
                    assign_op("sum", Operator::PlusEqual, var("i")),
                ],
            ),
        ]
    };
    let mut answers = Vec::new();
    for budget in [40, 41, 100, 5000] {
        let mut rt = Runtime::new();
        let h = host();
        rt.exec_program(&h, &program(statements()), budget).unwrap();
        let sum = rt.eval(&h, &var("sum"), budget).unwrap();
        answers.push((number_of(&rt, sum), sum));
    }
    assert_eq!(answers[0].0, 210.0);
    assert!(answers.iter().all(|answer| *answer == answers[0]));
    let mut rt = Runtime::new();
    let h = host();
    let r = rt.exec_program(&h, &program(statements()), 15);
    assert!(matches!(r, Err(Error::BudgetExhausted)));
}

#[test]
fn captured_names_are_the_variables_that_are_read() {
    let read = binary(var("a"), Operator::Plus, send(var("b"), "m", vec![var("c"), num(1.0)]));
    assert_eq!(find_closed_vars_in_expr(&read.v), vec!["a", "b", "c"]);
    let nested = closure(vec!["p"], vec![stmt(index(var("list"), var("p")))]);
    assert_eq!(find_closed_vars_in_expr(&nested.v), vec!["list", "p"]);
    assert_eq!(find_closed_vars_in_expr(&path_expr(vec!["A", "b"]).v), Vec::<String>::new());
    assert_eq!(
        find_closed_vars_in_expr(&array(vec![var("x"), tuple(vec![var("y")])]).v),
        vec!["x", "y"]
    );
    assert_eq!(find_closed_vars_in_stmt(&assign("t", var("v")).v), vec!["v"]);
    assert_eq!(
        find_closed_vars_in_stmt(&assign_op("t", Operator::PlusEqual, var("v")).v),
        vec!["v", "t"]
    );
    assert_eq!(find_closed_vars_in_stmt(&ret(None).v), Vec::<String>::new());
    assert_eq!(
        find_closed_vars_in_stmt(&method("m", vec![], vec![stmt(var("hidden"))]).v),
        Vec::<String>::new()
    );
    let body = block(vec![
        while_loop(var("going"), vec![stmt(call(var("step"), vec![var("n")]))]),
        for_in(vec!["i"], var("items"), vec![ret(Some(var("i")))]),
        stmt(if_else(var("c"), vec![stmt(var("d"))], Some(vec![stmt(var("e"))]))),
    ]);
    assert_eq!(
        find_closed_vars_in_block(&body.v),
        vec!["going", "step", "n", "items", "i", "c", "d", "e"]
    );
}
