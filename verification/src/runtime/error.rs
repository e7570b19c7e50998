//! The errors of the runtime, and the signals that carry `break`, `continue`
//! and `return` to the loop or call that catches them.

use crate::runtime::object::ObjectRef;
use crate::types::{MaybeNodeMeta, NodeMeta};
use crate::text::{decimal, decimal_text};
use std::ops::ControlFlow;
use vstd::prelude::*;
use vstd::string::StringExecFns;

verus! {

/// What can go wrong in the runtime, and the signals of `break`, `continue`
/// and `return`.
#[derive(Debug)]
#[allow(inconsistent_fields)]
pub enum Error {
    /// `break` or `continue` on its way to the enclosing loop.
    ControlFlow(ControlFlow<()>),
    /// `return` on its way to the enclosing method call.
    ReturnFromMethod { retval: Option<ObjectRef>, node: NodeMeta },
    ReturnFromInitializer { node: NodeMeta },
    DuplicateMethodDefinition { class: String, name: String },
    NoSuchVariable { name: String, node: NodeMeta },
    NoSuchProperty { name: String, node: NodeMeta },
    NoSuchMethod { node: MaybeNodeMeta, search: String },
    /// A method was called on a receiver of the other kind: a class method
    /// on an instance, or an instance method on a class.
    NotAClassMethod { class_name: String, method_name: String },
    ObjectNotCallable { node: MaybeNodeMeta },
    ArityMismatch { class_name: String, method_name: String, expected: usize, actual: usize },
    UndefinedProperty { target: String, member: String, node: NodeMeta },
    NotCallable { node: NodeMeta },
    InvalidMember { node: NodeMeta },
    IllegalAssignmentTarget { node: NodeMeta },
    IllegalAssignmentOperator { node: NodeMeta },
    AssignmentRhsMustBeTuple { node: NodeMeta },
    Index { error: &'static str },
    IllegalConstructorCall { class: String },
    TypeMismatch { expected: String, class: String },
    IndexOutOfBounds { index: usize, node: NodeMeta },
    BadPath { non_class: String, path: NodeMeta },
    BadIterator { reason: &'static str, node: NodeMeta },
    SyntaxError { reason: &'static str, node: MaybeNodeMeta },
    /// The evaluation needed more nested calls, or more rounds of one loop,
    /// than its budget allows.
    BudgetExhausted,
}

/// What an [`Error`] holds, with its texts as sequences of characters.
#[allow(inconsistent_fields)]
pub ghost enum ErrorModel {
    ControlFlow(ControlFlow<()>),
    ReturnFromMethod { retval: Option<ObjectRef>, node: NodeMeta },
    ReturnFromInitializer { node: NodeMeta },
    DuplicateMethodDefinition { class: Seq<char>, name: Seq<char> },
    NoSuchVariable { name: Seq<char>, node: NodeMeta },
    NoSuchProperty { name: Seq<char>, node: NodeMeta },
    NoSuchMethod { node: MaybeNodeMeta, search: Seq<char> },
    NotAClassMethod { class_name: Seq<char>, method_name: Seq<char> },
    ObjectNotCallable { node: MaybeNodeMeta },
    ArityMismatch { class_name: Seq<char>, method_name: Seq<char>, expected: usize, actual: usize },
    UndefinedProperty { target: Seq<char>, member: Seq<char>, node: NodeMeta },
    NotCallable { node: NodeMeta },
    InvalidMember { node: NodeMeta },
    IllegalAssignmentTarget { node: NodeMeta },
    IllegalAssignmentOperator { node: NodeMeta },
    AssignmentRhsMustBeTuple { node: NodeMeta },
    Index { error: Seq<char> },
    IllegalConstructorCall { class: Seq<char> },
    TypeMismatch { expected: Seq<char>, class: Seq<char> },
    IndexOutOfBounds { index: usize, node: NodeMeta },
    BadPath { non_class: Seq<char>, path: NodeMeta },
    BadIterator { reason: Seq<char>, node: NodeMeta },
    SyntaxError { reason: Seq<char>, node: MaybeNodeMeta },
    BudgetExhausted,
}

impl View for Error {
    type V = ErrorModel;

    open spec fn view(&self) -> ErrorModel {
        match *self {
            Error::ControlFlow(signal) => ErrorModel::ControlFlow(signal),
            Error::ReturnFromMethod { retval, node } => ErrorModel::ReturnFromMethod { retval, node },
            Error::ReturnFromInitializer { node } => ErrorModel::ReturnFromInitializer { node },
            Error::DuplicateMethodDefinition { class, name } => ErrorModel::DuplicateMethodDefinition {
                class: class@,
                name: name@,
            },
            Error::NoSuchVariable { name, node } => ErrorModel::NoSuchVariable { name: name@, node },
            Error::NoSuchProperty { name, node } => ErrorModel::NoSuchProperty { name: name@, node },
            Error::NoSuchMethod { node, search } => ErrorModel::NoSuchMethod { node, search: search@ },
            Error::NotAClassMethod { class_name, method_name } => ErrorModel::NotAClassMethod {
                class_name: class_name@,
                method_name: method_name@,
            },
            Error::ObjectNotCallable { node } => ErrorModel::ObjectNotCallable { node },
            Error::ArityMismatch { class_name, method_name, expected, actual } => ErrorModel::ArityMismatch {
                class_name: class_name@,
                method_name: method_name@,
                expected,
                actual,
            },
            Error::UndefinedProperty { target, member, node } => ErrorModel::UndefinedProperty {
                target: target@,
                member: member@,
                node,
            },
            Error::NotCallable { node } => ErrorModel::NotCallable { node },
            Error::InvalidMember { node } => ErrorModel::InvalidMember { node },
            Error::IllegalAssignmentTarget { node } => ErrorModel::IllegalAssignmentTarget { node },
            Error::IllegalAssignmentOperator { node } => ErrorModel::IllegalAssignmentOperator { node },
            Error::AssignmentRhsMustBeTuple { node } => ErrorModel::AssignmentRhsMustBeTuple { node },
            Error::Index { error } => ErrorModel::Index { error: error@ },
            Error::IllegalConstructorCall { class } => ErrorModel::IllegalConstructorCall { class: class@ },
            Error::TypeMismatch { expected, class } => ErrorModel::TypeMismatch {
                expected: expected@,
                class: class@,
            },
            Error::IndexOutOfBounds { index, node } => ErrorModel::IndexOutOfBounds { index, node },
            Error::BadPath { non_class, path } => ErrorModel::BadPath { non_class: non_class@, path },
            Error::BadIterator { reason, node } => ErrorModel::BadIterator { reason: reason@, node },
            Error::SyntaxError { reason, node } => ErrorModel::SyntaxError { reason: reason@, node },
            Error::BudgetExhausted => ErrorModel::BudgetExhausted,
        }
    }
}

/// The message that tells of an error.
pub open spec fn message(error: ErrorModel) -> Seq<char> {
    match error {
        ErrorModel::ControlFlow(_) => "control flow"@,
        ErrorModel::ReturnFromMethod { node, .. } => "illegal return outside of function: "@
            + node.text(),
        ErrorModel::ReturnFromInitializer { node } => "illegal return of value inside initializer: "@
            + node.text(),
        ErrorModel::DuplicateMethodDefinition { class, name } => "duplicate definition of method '"@
            + class
            + "::"@
            + name
            + "'"@,
        ErrorModel::NoSuchVariable { name, node } => "no such variable '"@
            + name
            + "': "@
            + node.text(),
        ErrorModel::NoSuchProperty { name, node } => "no such property '"@
            + name
            + "': "@
            + node.text(),
        ErrorModel::NoSuchMethod { node, search } => "no such method '"@
            + search
            + "': "@
            + node.text(),
        ErrorModel::NotAClassMethod { class_name, method_name } => "method '"@
            + class_name
            + "::"@
            + method_name
            + "' is not for this kind of receiver"@,
        ErrorModel::ObjectNotCallable { node } => "object not callable (has no __call__ method): "@
            + node.text(),
        ErrorModel::ArityMismatch { class_name, method_name, expected, actual } => "arity mismatch for '"@
            + class_name
            + "::"@
            + method_name
            + "()': expected "@
            + decimal_text(expected as nat)
            + " args, got "@
            + decimal_text(actual as nat),
        ErrorModel::UndefinedProperty { target, member, node } => "object "@
            + target
            + " has no property '"@
            + member
            + "': "@
            + node.text(),
        ErrorModel::NotCallable { node } => "expression is not callable: "@ + node.text(),
        ErrorModel::InvalidMember { node } => "invalid member: "@ + node.text(),
        ErrorModel::IllegalAssignmentTarget { node } => "illegal assignment target: "@
            + node.text(),
        ErrorModel::IllegalAssignmentOperator { node } => "illegal assignment operator: "@
            + node.text(),
        ErrorModel::AssignmentRhsMustBeTuple { node } => "assignment rhs must be tuple: "@
            + node.text(),
        ErrorModel::Index { error } => "index error: "@ + error,
        ErrorModel::IllegalConstructorCall { class } => "illegal constructor call: "@ + class,
        ErrorModel::TypeMismatch { expected, class } => "type error: expected "@
            + expected
            + ", got "@
            + class,
        ErrorModel::IndexOutOfBounds { index, node } => "index out of bounds: "@
            + decimal_text(index as nat)
            + " in "@
            + node.text(),
        ErrorModel::BadPath { non_class, path } => "bad path contains non-class '"@
            + non_class
            + "': "@
            + path.text(),
        ErrorModel::BadIterator { reason, node } => "bad iterator, "@
            + reason
            + ": "@
            + node.text(),
        ErrorModel::SyntaxError { reason, node } => "syntax error: "@
            + reason
            + ": "@
            + node.text(),
        ErrorModel::BudgetExhausted => "evaluation budget exhausted"@,
    }
}

impl Error {
    /// The message that tells of the error.
    pub fn to_string(&self) -> (r: String)
        ensures
            r@ == message(self@),
    {
        let r = match self {
            Error::ControlFlow(_) => {
                let mut r = String::new();
                r.append("control flow");
                r
            },
            Error::ReturnFromMethod { node, .. } => {
                let mut r = String::new();
                r.append("illegal return outside of function: ");
                r.append(node.to_string().as_str());
                r
            },
            Error::ReturnFromInitializer { node } => {
                let mut r = String::new();
                r.append("illegal return of value inside initializer: ");
                r.append(node.to_string().as_str());
                r
            },
            Error::DuplicateMethodDefinition { class, name } => {
                let mut r = String::new();
                r.append("duplicate definition of method '");
                r.append(class.as_str());
                r.append("::");
                r.append(name.as_str());
                r.append("'");
                r
            },
            Error::NoSuchVariable { name, node } => {
                let mut r = String::new();
                r.append("no such variable '");
                r.append(name.as_str());
                r.append("': ");
                r.append(node.to_string().as_str());
                r
            },
            Error::NoSuchProperty { name, node } => {
                let mut r = String::new();
                r.append("no such property '");
                r.append(name.as_str());
                r.append("': ");
                r.append(node.to_string().as_str());
                r
            },
            Error::NoSuchMethod { node, search } => {
                let mut r = String::new();
                r.append("no such method '");
                r.append(search.as_str());
                r.append("': ");
                r.append(node.to_string().as_str());
                r
            },
            Error::NotAClassMethod { class_name, method_name } => {
                let mut r = String::new();
                r.append("method '");
                r.append(class_name.as_str());
                r.append("::");
                r.append(method_name.as_str());
                r.append("' is not for this kind of receiver");
                r
            },
            Error::ObjectNotCallable { node } => {
                let mut r = String::new();
                r.append("object not callable (has no __call__ method): ");
                r.append(node.to_string().as_str());
                r
            },
            Error::ArityMismatch { class_name, method_name, expected, actual } => {
                let mut r = String::new();
                r.append("arity mismatch for '");
                r.append(class_name.as_str());
                r.append("::");
                r.append(method_name.as_str());
                r.append("()': expected ");
                r.append(decimal(*expected).as_str());
                r.append(" args, got ");
                r.append(decimal(*actual).as_str());
                r
            },
            Error::UndefinedProperty { target, member, node } => {
                let mut r = String::new();
                r.append("object ");
                r.append(target.as_str());
                r.append(" has no property '");
                r.append(member.as_str());
                r.append("': ");
                r.append(node.to_string().as_str());
                r
            },
            Error::NotCallable { node } => {
                let mut r = String::new();
                r.append("expression is not callable: ");
                r.append(node.to_string().as_str());
                r
            },
            Error::InvalidMember { node } => {
                let mut r = String::new();
                r.append("invalid member: ");
                r.append(node.to_string().as_str());
                r
            },
            Error::IllegalAssignmentTarget { node } => {
                let mut r = String::new();
                r.append("illegal assignment target: ");
                r.append(node.to_string().as_str());
                r
            },
            Error::IllegalAssignmentOperator { node } => {
                let mut r = String::new();
                r.append("illegal assignment operator: ");
                r.append(node.to_string().as_str());
                r
            },
            Error::AssignmentRhsMustBeTuple { node } => {
                let mut r = String::new();
                r.append("assignment rhs must be tuple: ");
                r.append(node.to_string().as_str());
                r
            },
            Error::Index { error } => {
                let mut r = String::new();
                r.append("index error: ");
                r.append(error);
                r
            },
            Error::IllegalConstructorCall { class } => {
                let mut r = String::new();
                r.append("illegal constructor call: ");
                r.append(class.as_str());
                r
            },
            Error::TypeMismatch { expected, class } => {
                let mut r = String::new();
                r.append("type error: expected ");
                r.append(expected.as_str());
                r.append(", got ");
                r.append(class.as_str());
                r
            },
            Error::IndexOutOfBounds { index, node } => {
                let mut r = String::new();
                r.append("index out of bounds: ");
                r.append(decimal(*index).as_str());
                r.append(" in ");
                r.append(node.to_string().as_str());
                r
            },
            Error::BadPath { non_class, path } => {
                let mut r = String::new();
                r.append("bad path contains non-class '");
                r.append(non_class.as_str());
                r.append("': ");
                r.append(path.to_string().as_str());
                r
            },
            Error::BadIterator { reason, node } => {
                let mut r = String::new();
                r.append("bad iterator, ");
                r.append(reason);
                r.append(": ");
                r.append(node.to_string().as_str());
                r
            },
            Error::SyntaxError { reason, node } => {
                let mut r = String::new();
                r.append("syntax error: ");
                r.append(reason);
                r.append(": ");
                r.append(node.to_string().as_str());
                r
            },
            Error::BudgetExhausted => {
                let mut r = String::new();
                r.append("evaluation budget exhausted");
                r
            },
        };
        proof {
            assert(Seq::<char>::empty() + r@ =~= r@);
        }
        r
    }
}

/// What an evaluation yields: an object, or the view of an error.
pub type Outcome = Result<ObjectRef, ErrorModel>;

/// The view of a result that carries an object.
pub open spec fn outcome(result: Result<ObjectRef, Error>) -> Outcome {
    match result {
        Ok(object) => Ok(object),
        Err(error) => Err(error@),
    }
}

/// The view of a result that carries nothing.
pub open spec fn unit_outcome(result: Result<(), Error>) -> Result<(), ErrorModel> {
    match result {
        Ok(()) => Ok(()),
        Err(error) => Err(error@),
    }
}

} // verus!
