//! The methods that operators stand for.

#![allow(non_upper_case_globals)]

use crate::types::Operator;
use vstd::prelude::*;

verus! {

pub const __add__: &'static str = "__add__";

pub const __sub__: &'static str = "__sub__";

pub const __mul__: &'static str = "__mul__";

pub const __div__: &'static str = "__div__";

pub const __gt__: &'static str = "__gt__";

pub const __gte__: &'static str = "__gte__";

pub const __lt__: &'static str = "__lt__";

pub const __lte__: &'static str = "__lte__";

pub const __eq__: &'static str = "__eq__";

pub const __neq__: &'static str = "__neq__";

pub const __neg__: &'static str = "__neg__";

pub const __not__: &'static str = "__not__";

pub const __index__: &'static str = "__index__";

pub const __set_index__: &'static str = "__set_index__";

pub const __call__: &'static str = "__call__";

/// The method that a compound assignment operator calls on the current value,
/// if `op` is one.
pub open spec fn assignment_op_method(op: Operator) -> Option<Seq<char>> {
    match op {
        Operator::PlusEqual => Some(__add__@),
        Operator::MinusEqual => Some(__sub__@),
        Operator::StarEqual => Some(__mul__@),
        Operator::SlashEqual => Some(__div__@),
        _ => None,
    }
}

/// The method that a binary operator calls on its left operand, if `op` is
/// dispatched as a method.
pub open spec fn binary_op_method(op: Operator) -> Option<Seq<char>> {
    match op {
        Operator::EqualEqual => Some(__eq__@),
        Operator::NotEqual => Some(__neq__@),
        Operator::Greater => Some(__gt__@),
        Operator::GreaterEqual => Some(__gte__@),
        Operator::Less => Some(__lt__@),
        Operator::LessEqual => Some(__lte__@),
        Operator::Plus => Some(__add__@),
        Operator::Minus => Some(__sub__@),
        Operator::Star => Some(__mul__@),
        Operator::Slash => Some(__div__@),
        Operator::LogicalNot => Some(__not__@),
        _ => None,
    }
}

/// The method that a unary operator calls on its operand, if `op` is one.
pub open spec fn unary_op_method(op: Operator) -> Option<Seq<char>> {
    match op {
        Operator::Minus => Some(__neg__@),
        Operator::LogicalNot => Some(__not__@),
        _ => None,
    }
}

/// The view of an optional name.
pub open spec fn name_view(name: Option<&'static str>) -> Option<Seq<char>> {
    match name {
        Some(s) => Some(s@),
        None => None,
    }
}

/// The method that a compound assignment operator calls on the current
/// value; `None` for every other operator.
pub fn method_for_assignment_op(op: &Operator) -> (r: Option<&'static str>)
    ensures
        name_view(r) == assignment_op_method(*op),
{
    match op {
        Operator::PlusEqual => Some(__add__),
        Operator::MinusEqual => Some(__sub__),
        Operator::StarEqual => Some(__mul__),
        Operator::SlashEqual => Some(__div__),
        _ => None,
    }
}

/// The method that a binary operator calls on its left operand; `None` for
/// an operator that is not dispatched as a method.
pub fn method_for_binary_op(op: &Operator) -> (r: Option<&'static str>)
    ensures
        name_view(r) == binary_op_method(*op),
{
    match op {
        Operator::EqualEqual => Some(__eq__),
        Operator::NotEqual => Some(__neq__),
        Operator::Greater => Some(__gt__),
        Operator::GreaterEqual => Some(__gte__),
        Operator::Less => Some(__lt__),
        Operator::LessEqual => Some(__lte__),
        Operator::Plus => Some(__add__),
        Operator::Minus => Some(__sub__),
        Operator::Star => Some(__mul__),
        Operator::Slash => Some(__div__),
        Operator::LogicalNot => Some(__not__),
        _ => None,
    }
}

/// The method that a unary operator calls on its operand; `None` for every
/// other operator.
pub fn method_for_unary_op(op: &Operator) -> (r: Option<&'static str>)
    ensures
        name_view(r) == unary_op_method(*op),
{
    match op {
        Operator::Minus => Some(__neg__),
        Operator::LogicalNot => Some(__not__),
        _ => None,
    }
}

} // verus!
