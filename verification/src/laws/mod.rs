//! What the operations of the library are for.
//!
//! Each law speaks of a call which has returned a certain result: it relates the result, and what
//! has become of the values the call may change, with what the call was given, in terms of the
//! values themselves.

use vstd::prelude::*;

pub mod file;
pub mod io;
pub mod net;
pub mod poll;
pub mod reactor;
pub mod text;
pub mod time;

verus! {

} // verus!
