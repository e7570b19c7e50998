//! The variables that a closure captures: every variable that its body
//! reads.

use crate::runtime::builtin::op::assignment_op_method;
use crate::types::{Block, Expression, Ident, LValue, Literal, Node, Statement, Variable};
use vstd::prelude::*;

verus! {

/// The views of a list of names.
pub open spec fn names_view(names: Seq<String>) -> Seq<Seq<char>> {
    Seq::new(names.len(), |i: int| names[i]@)
}

/// The names of a list of variables.
pub open spec fn variable_names(variables: Seq<Node<Variable>>) -> Seq<Seq<char>> {
    Seq::new(variables.len(), |i: int| variables[i].v.ident.v.name@)
}

/// The variables that a block reads, in the order of their occurrence.
pub open spec fn closed_vars_in_block(block: Block) -> Seq<Seq<char>>
    decreases block,
{
    closed_vars_in_stmts(block.statements, 0)
}

/// The variables that the statements from place `i` on read.
pub open spec fn closed_vars_in_stmts(statements: Vec<Node<Statement>>, i: nat) -> Seq<Seq<char>>
    decreases statements, statements.len() - i,
{
    if i >= statements.len() {
        Seq::empty()
    } else {
        closed_vars_in_stmt(statements[i as int].v) + closed_vars_in_stmts(statements, i + 1)
    }
}

/// The variables that the expressions from place `i` on read.
pub open spec fn closed_vars_in_exprs(exprs: Vec<Node<Expression>>, i: nat) -> Seq<Seq<char>>
    decreases exprs, exprs.len() - i,
{
    if i >= exprs.len() {
        Seq::empty()
    } else {
        closed_vars_in_expr(exprs[i as int].v) + closed_vars_in_exprs(exprs, i + 1)
    }
}

/// The variables that the values of the entries from place `i` on read.
pub open spec fn closed_vars_in_entries(
    entries: Vec<(Node<Ident>, Node<Expression>)>,
    i: nat,
) -> Seq<Seq<char>>
    decreases entries, entries.len() - i,
{
    if i >= entries.len() {
        Seq::empty()
    } else {
        closed_vars_in_expr(entries[i as int].1.v) + closed_vars_in_entries(entries, i + 1)
    }
}

/// The variables that a statement reads. A compound assignment reads the
/// variable that it assigns; definitions, `use`, `break` and `continue` read
/// none.
pub open spec fn closed_vars_in_stmt(stmt: Statement) -> Seq<Seq<char>>
    decreases stmt,
{
    match stmt {
        Statement::ForIn(for_in) => closed_vars_in_expr(for_in.v.iterable.v) + closed_vars_in_block(
            for_in.v.body.v,
        ),
        Statement::WhileLoop(while_loop) => closed_vars_in_expr(while_loop.v.condition.v)
            + closed_vars_in_block(while_loop.v.body.v),
        Statement::Expression(expression) => closed_vars_in_expr(expression.v),
        Statement::Return(return_stmt) => match return_stmt.v.retval {
            Some(retval) => closed_vars_in_expr(retval.v),
            None => Seq::empty(),
        },
        Statement::Assignment(assignment) => closed_vars_in_expr(assignment.v.value.v) + (
        match assignment.v.target.v {
            LValue::Access(access) => closed_vars_in_expr(access.v.target.v),
            LValue::Index(index) => closed_vars_in_expr(index.v.target.v) + closed_vars_in_expr(
                index.v.index.v,
            ),
            LValue::Binding(binding) => if assignment_op_method(assignment.v.op.v) is Some {
                variable_names(binding.v.variables@)
            } else {
                Seq::empty()
            },
        }),
        Statement::MethodDefinition(_) => Seq::empty(),
        Statement::ClassDefinition(_) => Seq::empty(),
        Statement::Use(_) => Seq::empty(),
        Statement::Break(_) => Seq::empty(),
        Statement::Continue(_) => Seq::empty(),
    }
}

/// The variables that an expression reads. The member of an access is a
/// name, not a variable; a path names classes.
pub open spec fn closed_vars_in_expr(expr: Expression) -> Seq<Seq<char>>
    decreases expr,
{
    match expr {
        Expression::Index(index) => closed_vars_in_expr(index.v.target.v) + closed_vars_in_expr(
            index.v.index.v,
        ),
        Expression::Access(access) => closed_vars_in_expr(access.v.target.v) + (
        match access.v.member.v {
            Expression::Call(call) => closed_vars_in_exprs(call.v.arguments, 0),
            _ => Seq::empty(),
        }),
        Expression::Call(call) => closed_vars_in_expr(call.v.target.v) + closed_vars_in_exprs(
            call.v.arguments,
            0,
        ),
        Expression::Variable(var) => seq![var.v.ident.v.name@],
        Expression::IfElse(if_else) => closed_vars_in_expr(if_else.v.condition.v)
            + closed_vars_in_block(if_else.v.then_body.v) + (match if_else.v.else_body {
            Some(block) => closed_vars_in_block(block.v),
            None => Seq::empty(),
        }),
        Expression::Binary(binary) => closed_vars_in_expr(binary.v.lhs.v) + closed_vars_in_expr(
            binary.v.rhs.v,
        ),
        Expression::Unary(unary) => closed_vars_in_expr(unary.v.rhs.v),
        Expression::Closure(closure) => closed_vars_in_block(closure.v.body.v),
        Expression::Literal(literal) => match literal.v {
            Literal::Array(array) => closed_vars_in_exprs(array.v.elements, 0),
            Literal::Tuple(tuple) => closed_vars_in_exprs(tuple.v.items, 0),
            Literal::Dictionary(dictionary) => closed_vars_in_entries(dictionary.v.entries, 0),
            _ => Seq::empty(),
        },
        Expression::Path(_) => Seq::empty(),
    }
}

/// The view of a list of names with one more name at its end.
pub proof fn lemma_names_push(names: Seq<String>, name: String)
    ensures
        names_view(names.push(name)) == names_view(names) + seq![name@],
{
    assert(names_view(names.push(name)) =~= names_view(names) + seq![name@]);
}

fn collect_variables(variables: &Vec<Node<Variable>>, out: &mut Vec<String>)
    ensures
        names_view(final(out)@) == names_view(old(out)@) + variable_names(variables@),
{
    let mut i: usize = 0;
    while i < variables.len()
        invariant
            i <= variables.len(),
            names_view(out@) == names_view(old(out)@) + variable_names(variables@).take(i as int),
        decreases variables.len() - i,
    {
        let ghost before = out@;
        out.push(variables[i].v.ident.v.name.clone());
        proof {
            lemma_names_push(before, variables[i as int].v.ident.v.name);
            assert(variable_names(variables@).take(i + 1) =~= variable_names(variables@).take(
                i as int,
            ) + seq![variables[i as int].v.ident.v.name@]);
            assert(names_view(out@) =~= names_view(old(out)@) + variable_names(variables@).take(i + 1));
        }
        i = i + 1;
    }
    proof {
        assert(variable_names(variables@).take(i as int) =~= variable_names(variables@));
    }
}

fn collect_block(block: &Block, out: &mut Vec<String>)
    ensures
        names_view(final(out)@) == names_view(old(out)@) + closed_vars_in_block(*block),
    decreases block,
{
    collect_stmts(&block.statements, out);
}

fn collect_stmts(statements: &Vec<Node<Statement>>, out: &mut Vec<String>)
    ensures
        names_view(final(out)@) == names_view(old(out)@) + closed_vars_in_stmts(*statements, 0),
    decreases statements,
{
    let mut i: usize = 0;
    while i < statements.len()
        invariant
            i <= statements.len(),
            names_view(out@) + closed_vars_in_stmts(*statements, i as nat) == names_view(old(out)@)
                + closed_vars_in_stmts(*statements, 0),
        decreases statements.len() - i,
    {
        let ghost before = names_view(out@);
        collect_stmt(&statements[i].v, out);
        proof {
            let here = closed_vars_in_stmt(statements[i as int].v);
            let rest = closed_vars_in_stmts(*statements, (i + 1) as nat);
            assert((before + here) + rest =~= before + (here + rest));
        }
        i = i + 1;
    }
    proof {
        assert(names_view(out@) + Seq::<Seq<char>>::empty() =~= names_view(out@));
    }
}

fn collect_exprs(exprs: &Vec<Node<Expression>>, out: &mut Vec<String>)
    ensures
        names_view(final(out)@) == names_view(old(out)@) + closed_vars_in_exprs(*exprs, 0),
    decreases exprs,
{
    let mut i: usize = 0;
    while i < exprs.len()
        invariant
            i <= exprs.len(),
            names_view(out@) + closed_vars_in_exprs(*exprs, i as nat) == names_view(old(out)@)
                + closed_vars_in_exprs(*exprs, 0),
        decreases exprs.len() - i,
    {
        let ghost before = names_view(out@);
        collect_expr(&exprs[i].v, out);
        proof {
            let here = closed_vars_in_expr(exprs[i as int].v);
            let rest = closed_vars_in_exprs(*exprs, (i + 1) as nat);
            assert((before + here) + rest =~= before + (here + rest));
        }
        i = i + 1;
    }
    proof {
        assert(names_view(out@) + Seq::<Seq<char>>::empty() =~= names_view(out@));
    }
}

fn collect_entries(entries: &Vec<(Node<Ident>, Node<Expression>)>, out: &mut Vec<String>)
    ensures
        names_view(final(out)@) == names_view(old(out)@) + closed_vars_in_entries(*entries, 0),
    decreases entries,
{
    let mut i: usize = 0;
    while i < entries.len()
        invariant
            i <= entries.len(),
            names_view(out@) + closed_vars_in_entries(*entries, i as nat) == names_view(old(out)@)
                + closed_vars_in_entries(*entries, 0),
        decreases entries.len() - i,
    {
        let ghost before = names_view(out@);
        collect_expr(&entries[i].1.v, out);
        proof {
            let here = closed_vars_in_expr(entries[i as int].1.v);
            let rest = closed_vars_in_entries(*entries, (i + 1) as nat);
            assert((before + here) + rest =~= before + (here + rest));
        }
        i = i + 1;
    }
    proof {
        assert(names_view(out@) + Seq::<Seq<char>>::empty() =~= names_view(out@));
    }
}

fn collect_stmt(stmt: &Statement, out: &mut Vec<String>)
    ensures
        names_view(final(out)@) == names_view(old(out)@) + closed_vars_in_stmt(*stmt),
    decreases stmt,
{
    let ghost start = names_view(out@);
    match stmt {
        Statement::ForIn(for_in) => {
            collect_expr(&for_in.v.iterable.v, out);
            collect_block(&for_in.v.body.v, out);
            proof {
                let a = closed_vars_in_expr(for_in.v.iterable.v);
                let b = closed_vars_in_block(for_in.v.body.v);
                assert((start + a) + b =~= start + (a + b));
            }
        },
        Statement::WhileLoop(while_loop) => {
            collect_expr(&while_loop.v.condition.v, out);
            collect_block(&while_loop.v.body.v, out);
            proof {
                let a = closed_vars_in_expr(while_loop.v.condition.v);
                let b = closed_vars_in_block(while_loop.v.body.v);
                assert((start + a) + b =~= start + (a + b));
            }
        },
        Statement::Expression(expression) => {
            collect_expr(&expression.v, out);
        },
        Statement::Return(return_stmt) => {
            match &return_stmt.v.retval {
                Some(retval) => {
                    collect_expr(&retval.v, out);
                },
                None => {
                    proof {
                        assert(start + Seq::<Seq<char>>::empty() =~= start);
                    }
                },
            }
        },
        Statement::Assignment(assignment) => {
            collect_expr(&assignment.v.value.v, out);
            let ghost a = closed_vars_in_expr(assignment.v.value.v);
            match &assignment.v.target.v {
                LValue::Access(access) => {
                    collect_expr(&access.v.target.v, out);
                    proof {
                        let b = closed_vars_in_expr(access.v.target.v);
                        assert((start + a) + b =~= start + (a + b));
                    }
                },
                LValue::Index(index) => {
                    collect_expr(&index.v.target.v, out);
                    collect_expr(&index.v.index.v, out);
                    proof {
                        let b = closed_vars_in_expr(index.v.target.v);
                        let c = closed_vars_in_expr(index.v.index.v);
                        assert(((start + a) + b) + c =~= start + (a + (b + c)));
                    }
                },
                LValue::Binding(binding) => {
                    if crate::runtime::builtin::op::method_for_assignment_op(&assignment.v.op.v).is_some() {
                        collect_variables(&binding.v.variables, out);
                        proof {
                            let b = variable_names(binding.v.variables@);
                            assert((start + a) + b =~= start + (a + b));
                        }
                    } else {
                        proof {
                            assert(start + a =~= start + (a + Seq::<Seq<char>>::empty()));
                        }
                    }
                },
            }
        },
        _ => {
            proof {
                assert(start + Seq::<Seq<char>>::empty() =~= start);
            }
        },
    }
}

fn collect_expr(expr: &Expression, out: &mut Vec<String>)
    ensures
        names_view(final(out)@) == names_view(old(out)@) + closed_vars_in_expr(*expr),
    decreases expr,
{
    let ghost start = names_view(out@);
    match expr {
        Expression::Index(index) => {
            collect_expr(&index.v.target.v, out);
            collect_expr(&index.v.index.v, out);
            proof {
                let a = closed_vars_in_expr(index.v.target.v);
                let b = closed_vars_in_expr(index.v.index.v);
                assert((start + a) + b =~= start + (a + b));
            }
        },
        Expression::Access(access) => {
            collect_expr(&access.v.target.v, out);
            let ghost a = closed_vars_in_expr(access.v.target.v);
            match &access.v.member.v {
                Expression::Call(call) => {
                    collect_exprs(&call.v.arguments, out);
                    proof {
                        let b = closed_vars_in_exprs(call.v.arguments, 0);
                        assert((start + a) + b =~= start + (a + b));
                    }
                },
                _ => {
                    proof {
                        assert(start + a =~= start + (a + Seq::<Seq<char>>::empty()));
                    }
                },
            }
        },
        Expression::Call(call) => {
            collect_expr(&call.v.target.v, out);
            collect_exprs(&call.v.arguments, out);
            proof {
                let a = closed_vars_in_expr(call.v.target.v);
                let b = closed_vars_in_exprs(call.v.arguments, 0);
                assert((start + a) + b =~= start + (a + b));
            }
        },
        Expression::Variable(var) => {
            let ghost before = out@;
            out.push(var.v.ident.v.name.clone());
            proof {
                lemma_names_push(before, var.v.ident.v.name);
            }
        },
        Expression::IfElse(if_else) => {
            collect_expr(&if_else.v.condition.v, out);
            collect_block(&if_else.v.then_body.v, out);
            let ghost a = closed_vars_in_expr(if_else.v.condition.v);
            let ghost b = closed_vars_in_block(if_else.v.then_body.v);
            match &if_else.v.else_body {
                Some(block) => {
                    collect_block(&block.v, out);
                    proof {
                        let c = closed_vars_in_block(block.v);
                        assert(((start + a) + b) + c =~= start + ((a + b) + c));
                    }
                },
                None => {
                    proof {
                        assert((start + a) + b =~= start + ((a + b) + Seq::<Seq<char>>::empty()));
                    }
                },
            }
        },
        Expression::Binary(binary) => {
            collect_expr(&binary.v.lhs.v, out);
            collect_expr(&binary.v.rhs.v, out);
            proof {
                let a = closed_vars_in_expr(binary.v.lhs.v);
                let b = closed_vars_in_expr(binary.v.rhs.v);
                assert((start + a) + b =~= start + (a + b));
            }
        },
        Expression::Unary(unary) => {
            collect_expr(&unary.v.rhs.v, out);
        },
        Expression::Closure(closure) => {
            collect_block(&closure.v.body.v, out);
        },
        Expression::Literal(literal) => {
            match &literal.v {
                Literal::Array(array) => {
                    collect_exprs(&array.v.elements, out);
                },
                Literal::Tuple(tuple) => {
                    collect_exprs(&tuple.v.items, out);
                },
                Literal::Dictionary(dictionary) => {
                    collect_entries(&dictionary.v.entries, out);
                },
                _ => {
                    proof {
                        assert(start + Seq::<Seq<char>>::empty() =~= start);
                    }
                },
            }
        },
        Expression::Path(_) => {
            proof {
                assert(start + Seq::<Seq<char>>::empty() =~= start);
            }
        },
    }
}

/// The variables that a block reads, in the order of their occurrence.
pub fn find_closed_vars_in_block(block: &Block) -> (r: Vec<String>)
    ensures
        names_view(r@) == closed_vars_in_block(*block),
{
    let mut out: Vec<String> = Vec::new();
    collect_block(block, &mut out);
    proof {
        assert(names_view(Seq::<String>::empty()) + closed_vars_in_block(*block)
            =~= closed_vars_in_block(*block));
    }
    out
}

/// The variables that a statement reads.
pub fn find_closed_vars_in_stmt(stmt: &Statement) -> (r: Vec<String>)
    ensures
        names_view(r@) == closed_vars_in_stmt(*stmt),
{
    let mut out: Vec<String> = Vec::new();
    collect_stmt(stmt, &mut out);
    proof {
        assert(names_view(Seq::<String>::empty()) + closed_vars_in_stmt(*stmt) =~= closed_vars_in_stmt(
            *stmt,
        ));
    }
    out
}

/// The variables that an expression reads.
pub fn find_closed_vars_in_expr(expr: &Expression) -> (r: Vec<String>)
    ensures
        names_view(r@) == closed_vars_in_expr(*expr),
{
    let mut out: Vec<String> = Vec::new();
    collect_expr(expr, &mut out);
    proof {
        assert(names_view(Seq::<String>::empty()) + closed_vars_in_expr(*expr) =~= closed_vars_in_expr(
            *expr,
        ));
    }
    out
}

} // verus!
