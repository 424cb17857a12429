//! Type-safe descriptions of memory layouts for a message-passing engine.
//!
//! Descriptors name the layout of data, buffers pair a layout with a count of
//! elements, and partitions split a buffer into independent regions for
//! scatter and gather exchanges. The engine itself stays outside: the library
//! says what to ask of it and keeps track of the handles it gives back.
use vstd::prelude::*;

pub mod buffer;
pub mod count;
pub mod datatype;
pub mod partition;
pub mod view;

verus! {

/// Number of elements as the engine counts them.
pub type Count = i32;

/// Address-sized displacement, in bytes.
pub type Address = i64;

} // verus!
