//! Names of the methods that the runtime itself calls.

#![allow(non_upper_case_globals)]

use vstd::prelude::*;

verus! {

pub const init: &'static str = "init";

pub const to_s: &'static str = "to_s";

pub const iter: &'static str = "iter";

pub const next: &'static str = "next";

} // verus!
