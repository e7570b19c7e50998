//! The numbers of the host's functions: for each method of the standard
//! library that the host implements, the number under which the bootstrap
//! registers it.

use vstd::prelude::*;

verus! {

/// `Number.init()`: gives the receiver the number zero and yields it.
pub const NUMBER_INIT: usize = 0;

/// `Number.__eq__(other)`: whether the argument is a number equal to the receiver.
pub const NUMBER_EQ: usize = 1;

/// `Number.__neq__(other)`: whether the argument is no number equal to the receiver.
pub const NUMBER_NEQ: usize = 2;

/// `Number.__lt__(other)`.
pub const NUMBER_LT: usize = 3;

/// `Number.__lte__(other)`.
pub const NUMBER_LTE: usize = 4;

/// `Number.__gt__(other)`.
pub const NUMBER_GT: usize = 5;

/// `Number.__gte__(other)`.
pub const NUMBER_GTE: usize = 6;

/// `Number.__add__(other)`.
pub const NUMBER_ADD: usize = 7;

/// `Number.__sub__(other)`.
pub const NUMBER_SUB: usize = 8;

/// `Number.__mul__(other)`.
pub const NUMBER_MUL: usize = 9;

/// `Number.__div__(other)`.
pub const NUMBER_DIV: usize = 10;

/// `Number.__neg__()`.
pub const NUMBER_NEG: usize = 11;

/// `Number.round()`.
pub const NUMBER_ROUND: usize = 12;

/// `Number.ceil()`.
pub const NUMBER_CEIL: usize = 13;

/// `Number.floor()`.
pub const NUMBER_FLOOR: usize = 14;

/// `Number.pow(power)`.
pub const NUMBER_POW: usize = 15;

/// `Number.to_s()`.
pub const NUMBER_TO_S: usize = 16;

/// `Array.__index__(index)`: the item at the index, counted from the end where it is negative, or `nil`.
pub const ARRAY_INDEX: usize = 17;

/// `Array.len()`: the number of items.
pub const ARRAY_LEN: usize = 18;


/// `IO.print(args)`: prints the arguments.
pub const IO_PRINT: usize = 19;

/// `IO.println(args)`: prints the arguments and ends the line.
pub const IO_PRINTLN: usize = 20;

/// `IO.debug(args)`: prints the arguments as a debugging line.
pub const IO_DEBUG: usize = 21;

} // verus!
