//! Names of the properties that the runtime itself reads and writes.

#![allow(non_upper_case_globals)]

use vstd::prelude::*;

verus! {

pub const __name__: &'static str = "__name__";

pub const __class__: &'static str = "__class__";

pub const __binding__: &'static str = "__binding__";

pub const __receiver__: &'static str = "__receiver__";

} // verus!
