//! Names of the built-in classes.

#![allow(non_upper_case_globals)]

use vstd::prelude::*;

verus! {

pub const Class: &'static str = "Class";

pub const Object: &'static str = "Object";

pub const String: &'static str = "String";

pub const NilClass: &'static str = "NilClass";

pub const Main: &'static str = "Main";

pub const IO: &'static str = "IO";

pub const Bool: &'static str = "Bool";

pub const Number: &'static str = "Number";

pub const Closure: &'static str = "Closure";

pub const Method: &'static str = "Method";

pub const Dictionary: &'static str = "Dictionary";

pub const DictionaryIter: &'static str = "DictionaryIter";

pub const Array: &'static str = "Array";

pub const ArrayIter: &'static str = "ArrayIter";

pub const Tuple: &'static str = "Tuple";

} // verus!
