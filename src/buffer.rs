//! Buffers: a layout, a number of elements and the memory they are in.
use vstd::prelude::*;

use crate::count::{count_of_len, CountError};
use crate::datatype::{Datatype, EquivalentDatatype, SystemDatatype};
use crate::Count;

verus! {

/// Something that has an associated datatype.
pub trait AsDatatype {
    /// The type of the associated datatype.
    type Out: Datatype;

    spec fn datatype_spec(&self) -> Self::Out;

    /// The associated datatype.
    fn as_datatype(&self) -> (r: Self::Out)
        ensures
            r == self.datatype_spec(),
    ;
}

impl<T: EquivalentDatatype> AsDatatype for T {
    type Out = SystemDatatype;

    open spec fn datatype_spec(&self) -> SystemDatatype {
        T::equivalent_spec()
    }

    fn as_datatype(&self) -> (r: SystemDatatype) {
        T::equivalent_datatype()
    }
}

impl<T: EquivalentDatatype> AsDatatype for [T] {
    type Out = SystemDatatype;

    open spec fn datatype_spec(&self) -> SystemDatatype {
        T::equivalent_spec()
    }

    fn as_datatype(&self) -> (r: SystemDatatype) {
        T::equivalent_datatype()
    }
}

/// A countable collection of things.
pub trait Collection {
    /// How many things there are.
    spec fn count_spec(&self) -> int;

    /// How many things there are, as a `Count`; fails, rather than wrap,
    /// where a `Count` cannot hold the number.
    fn count(&self) -> (r: Result<Count, CountError>)
        ensures
            r is Ok <==> self.count_spec() <= i32::MAX,
            r is Ok ==> r->Ok_0 == self.count_spec(),
    ;
}

impl<T: EquivalentDatatype> Collection for T {
    open spec fn count_spec(&self) -> int {
        1
    }

    fn count(&self) -> (r: Result<Count, CountError>) {
        Ok(1)
    }
}

impl<T: EquivalentDatatype> Collection for [T] {
    open spec fn count_spec(&self) -> int {
        self@.len() as int
    }

    fn count(&self) -> (r: Result<Count, CountError>) {
        count_of_len(self.len())
    }
}

/// A slice of `L` values counts exactly `L`: `count()` gives `L` for every
/// `L` that a `Count` holds, and fails for every other.
pub proof fn slice_count_is_its_length<T: EquivalentDatatype>(s: &[T])
    ensures
        s.count_spec() == s@.len(),
        s.count_spec() <= i32::MAX <==> s@.len() <= i32::MAX,
{
}

/// A region of memory that holds `count()` copies of `as_datatype()`.
///
/// The region is read; its start address is taken by the code that hands
/// the buffer to the engine.
pub trait Buffer: Collection + AsDatatype {

}

impl<T: EquivalentDatatype> Buffer for T {

}

impl<T: EquivalentDatatype> Buffer for [T] {

}

/// A region of memory that holds `count()` copies of `as_datatype()` and
/// that the engine may write.
pub trait BufferMut: Collection + AsDatatype {

}

impl<T: EquivalentDatatype> BufferMut for T {

}

impl<T: EquivalentDatatype> BufferMut for [T] {

}

} // verus!
