//! A tree-walking interpreter for the Concorde scripting language, a small
//! dynamically typed language with classes.
//!
//! The interpreter evaluates a syntax tree directly against a graph of
//! objects. Every value is an object: classes, instances, closures, and the
//! instances of the built-in classes, which hold a text, a number, a
//! boolean, a list or a dictionary. A [`runtime::Runtime`] owns all objects
//! in one table and hands out [`runtime::object::ObjectRef`]s to them; two
//! references name the same object exactly when they are equal.
//!
//! * [`types`] holds the syntax tree.
//! * [`parse`] makes a syntax tree from the parse tree of a source text.
//! * [`runtime`] holds the objects, the scope stack, method dispatch and
//!   the evaluator.
//!
//! What the functions of the runtime do is stated over
//! [`runtime::model::RuntimeModel`], the mathematical model of its state,
//! and what evaluation means is defined in [`runtime::semantics`].
//!
//! Evaluation takes a budget, which bounds how deep evaluation steps nest
//! and how many rounds each loop runs, so that every evaluation ends. The
//! methods of the standard library that compute with numbers, which are
//! double-precision floating point, and those that print are left to a
//! [`runtime::host::SystemHost`].

pub mod parse;
pub mod runtime;
pub mod text;
pub mod types;
