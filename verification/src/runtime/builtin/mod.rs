//! Names that the language reserves: built-in classes, properties, methods
//! and the methods that operators stand for.

#![allow(non_upper_case_globals)]

use vstd::prelude::*;

pub mod class;
pub mod method;
pub mod op;
pub mod property;

verus! {

/// The name under which a method body sees its receiver.
pub const SELF: &'static str = "self";

} // verus!
