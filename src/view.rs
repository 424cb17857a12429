//! Views: buffers whose datatype and count the caller names.
use vstd::prelude::*;

use crate::buffer::{AsDatatype, Buffer, BufferMut, Collection};
use crate::count::CountError;
use crate::datatype::Datatype;
use crate::Count;

verus! {

/// A buffer with a caller-chosen count and datatype.
///
/// # Safety
///
/// Nothing checks that `buffer` really holds `count` copies of `datatype`:
/// the caller vouches for it. The engine is told to read whatever memory
/// the three describe, so the start address is only taken by code that
/// carries that obligation.
pub struct View<'d, 'b, D: Datatype, B: ?Sized> {
    datatype: &'d D,
    count: Count,
    buffer: &'b B,
}

impl<'d, 'b, D: Datatype, B: ?Sized> View<'d, 'b, D, B> {
    pub closed spec fn datatype_of(&self) -> D {
        *self.datatype
    }

    pub closed spec fn count_of(&self) -> Count {
        self.count
    }

    pub closed spec fn buffer_of(&self) -> &'b B {
        self.buffer
    }

    /// A view of `buffer` holding `count` instances of `datatype`, taken as
    /// given without any check.
    pub fn with_count_and_datatype(buffer: &'b B, count: Count, datatype: &'d D) -> (r: View<
        'd,
        'b,
        D,
        B,
    >)
        ensures
            r.buffer_of() == buffer,
            r.count_of() == count,
            r.datatype_of() == *datatype,
    {
        View { datatype, count, buffer }
    }

    /// The memory that the view describes.
    pub fn buffer(&self) -> (r: &'b B)
        ensures
            r == self.buffer_of(),
    {
        self.buffer
    }
}

impl<'d, 'b, D: Datatype, B: ?Sized> AsDatatype for View<'d, 'b, D, B> {
    type Out = &'d D;

    open spec fn datatype_spec(&self) -> &'d D {
        &self.datatype_of()
    }

    fn as_datatype(&self) -> (r: &'d D) {
        self.datatype
    }
}

impl<'d, 'b, D: Datatype, B: ?Sized> Collection for View<'d, 'b, D, B> {
    open spec fn count_spec(&self) -> int {
        self.count_of() as int
    }

    fn count(&self) -> (r: Result<Count, CountError>) {
        Ok(self.count)
    }
}

impl<'d, 'b, D: Datatype, B: ?Sized> Buffer for View<'d, 'b, D, B> {

}

/// A mutable buffer with a caller-chosen count and datatype.
///
/// # Safety
///
/// As for `View`: nothing checks that `buffer` really holds `count` copies
/// of `datatype`, and here the engine may write the memory described.
pub struct MutView<'d, 'b, D: Datatype, B: ?Sized> {
    datatype: &'d D,
    count: Count,
    buffer: &'b mut B,
}

impl<'d, 'b, D: Datatype, B: ?Sized> MutView<'d, 'b, D, B> {
    pub closed spec fn datatype_of(&self) -> D {
        *self.datatype
    }

    pub closed spec fn count_of(&self) -> Count {
        self.count
    }

    pub closed spec fn buffer_of(&self) -> &B {
        &*self.buffer
    }

    /// A mutable view of `buffer` holding `count` instances of `datatype`,
    /// taken as given without any check.
    pub fn with_count_and_datatype(buffer: &'b mut B, count: Count, datatype: &'d D) -> (r: MutView<
        'd,
        'b,
        D,
        B,
    >)
        ensures
            r.buffer_of() == &*old(buffer),
            r.count_of() == count,
            r.datatype_of() == *datatype,
    {
        MutView { datatype, count, buffer }
    }

    /// The memory that the view describes, for the engine to write.
    pub fn buffer_mut(&mut self) -> (r: &mut B)
        ensures
            &*r == old(self).buffer_of(),
    {
        self.buffer
    }
}

impl<'d, 'b, D: Datatype, B: ?Sized> AsDatatype for MutView<'d, 'b, D, B> {
    type Out = &'d D;

    open spec fn datatype_spec(&self) -> &'d D {
        &self.datatype_of()
    }

    fn as_datatype(&self) -> (r: &'d D) {
        self.datatype
    }
}

impl<'d, 'b, D: Datatype, B: ?Sized> Collection for MutView<'d, 'b, D, B> {
    open spec fn count_spec(&self) -> int {
        self.count_of() as int
    }

    fn count(&self) -> (r: Result<Count, CountError>) {
        Ok(self.count)
    }
}

impl<'d, 'b, D: Datatype, B: ?Sized> BufferMut for MutView<'d, 'b, D, B> {

}

/// A view reports exactly the buffer, count and datatype that it was built
/// from, whatever the memory holds.
pub proof fn view_reports_what_it_was_given<'d, 'b, D: Datatype, B: ?Sized>(
    v: View<'d, 'b, D, B>,
    buffer: &'b B,
    count: Count,
    datatype: &'d D,
)
    requires
        v.buffer_of() == buffer,
        v.count_of() == count,
        v.datatype_of() == *datatype,
    ensures
        v.count_spec() == count,
        v.datatype_spec() == datatype,
        v.datatype_spec().raw_spec() == datatype.raw_spec(),
{
}

} // verus!
