//! Partitions: a buffer split into regions for scatter and gather exchanges.
use vstd::prelude::*;

use crate::buffer::{AsDatatype, Buffer, BufferMut, Collection};
use crate::Count;

verus! {

/// A sequence of counts that a partition can borrow as a slice, whether the
/// caller hands it over owned or borrowed.
pub trait CountSequence {
    spec fn counts_view(&self) -> Seq<Count>;

    /// The counts, as a slice.
    fn as_counts(&self) -> (r: &[Count])
        ensures
            r@ == self.counts_view(),
    ;
}

impl CountSequence for Vec<Count> {
    open spec fn counts_view(&self) -> Seq<Count> {
        self@
    }

    fn as_counts(&self) -> (r: &[Count]) {
        self.as_slice()
    }
}

impl<'a> CountSequence for &'a [Count] {
    open spec fn counts_view(&self) -> Seq<Count> {
        self@
    }

    fn as_counts(&self) -> (r: &[Count]) {
        *self
    }
}

impl<'a> CountSequence for &'a Vec<Count> {
    open spec fn counts_view(&self) -> Seq<Count> {
        self@
    }

    fn as_counts(&self) -> (r: &[Count]) {
        self.as_slice()
    }
}

/// Why a partitioning was refused.
#[derive(Clone, Copy, Debug, PartialEq, Eq, Structural)]
pub enum PartitionError {
    /// Counts and displacements differ in number.
    LengthMismatch,
    /// The buffer holds more elements than a `Count` can express.
    BufferTooLarge,
    /// Some partition reaches past the end of the buffer.
    OutOfBounds,
}

/// Each partition, `counts[i]` elements from displacement `displs[i]`, ends
/// within a buffer of `total` elements.
pub open spec fn partitions_fit(counts: Seq<Count>, displs: Seq<Count>, total: int) -> bool {
    forall|i: int| 0 <= i < counts.len() ==> counts[i] + displs[i] <= total
}

/// The outcome of partitioning a buffer of `total` elements.
pub open spec fn partition_outcome(counts: Seq<Count>, displs: Seq<Count>, total: int) -> Result<
    (),
    PartitionError,
> {
    if counts.len() != displs.len() {
        Err(PartitionError::LengthMismatch)
    } else if total > i32::MAX {
        Err(PartitionError::BufferTooLarge)
    } else if !partitions_fit(counts, displs, total) {
        Err(PartitionError::OutOfBounds)
    } else {
        Ok(())
    }
}

/// Checks counts and displacements against a buffer of `total` elements.
fn check_partitions(counts: &[Count], displs: &[Count], total: Count) -> (r: bool)
    requires
        counts@.len() == displs@.len(),
    ensures
        r == partitions_fit(counts@, displs@, total as int),
{
    let mut i: usize = 0;
    while i < counts.len()
        invariant
            counts@.len() == displs@.len(),
            i <= counts@.len(),
            partitions_fit(counts@.subrange(0, i as int), displs@.subrange(0, i as int), total as int),
        decreases counts@.len() - i,
    {
        let end: i64 = counts[i] as i64 + displs[i] as i64;
        if end > total as i64 {
            assert(!partitions_fit(counts@, displs@, total as int)) by {
                assert(!(counts@[i as int] + displs@[i as int] <= total));
            }
            return false;
        }
        i = i + 1;
        assert(partitions_fit(counts@.subrange(0, i as int), displs@.subrange(0, i as int), total as int))
            by {
            assert forall|j: int| 0 <= j < i implies counts@.subrange(0, i as int)[j] + displs@.subrange(
                0,
                i as int,
            )[j] <= total by {
                if j < i - 1 {
                    assert(counts@.subrange(0, i - 1)[j] == counts@[j]);
                    assert(displs@.subrange(0, i - 1)[j] == displs@[j]);
                }
            }
        }
    }
    assert(counts@.subrange(0, i as int) == counts@);
    assert(displs@.subrange(0, i as int) == displs@);
    true
}

/// Describes how a buffer is partitioned: the count of elements and the
/// displacement from the start of the buffer of each partition.
pub trait Partitioned {
    spec fn counts_spec(&self) -> Seq<Count>;

    spec fn displs_spec(&self) -> Seq<Count>;

    /// The count of elements in each partition.
    fn counts(&self) -> (r: &[Count])
        ensures
            r@ == self.counts_spec(),
    ;

    /// The displacement from the start of the buffer of each partition.
    fn displs(&self) -> (r: &[Count])
        ensures
            r@ == self.displs_spec(),
    ;
}

/// A buffer that is `Partitioned`.
pub trait PartitionedBuffer: Partitioned + AsDatatype {

}

/// A mutable buffer that is `Partitioned`.
pub trait PartitionedBufferMut: Partitioned + AsDatatype {

}

/// Adds a partitioning to an existing `Buffer`.
pub struct Partition<'b, B: ?Sized, C, D> {
    buf: &'b B,
    counts: C,
    displs: D,
}

impl<'b, B: ?Sized, C, D> Partition<'b, B, C, D> {
    pub closed spec fn buffer_of(&self) -> &'b B {
        self.buf
    }

    pub closed spec fn counts_of(&self) -> C {
        self.counts
    }

    pub closed spec fn displs_of(&self) -> D {
        self.displs
    }

    /// The partitioned buffer.
    pub fn buffer(&self) -> (r: &'b B)
        ensures
            r == self.buffer_of(),
    {
        self.buf
    }
}

impl<'b, B: Buffer + ?Sized, C: CountSequence, D: CountSequence> Partition<'b, B, C, D> {
    /// Partitions `buf` using `counts` and `displs`.
    ///
    /// Refused unless there are as many counts as displacements, the
    /// buffer's element count is a `Count`, and every partition ends within
    /// the buffer.
    pub fn new(buf: &'b B, counts: C, displs: D) -> (r: Result<Partition<'b, B, C, D>, PartitionError>)
        ensures
            partition_outcome(counts.counts_view(), displs.counts_view(), buf.count_spec()) matches Err(
                e,
            ) ==> r matches Err(f) && f == e,
            partition_outcome(counts.counts_view(), displs.counts_view(), buf.count_spec()) is Ok
                ==> (r matches Ok(p) && p.buffer_of() == buf && p.counts_of() == counts
                && p.displs_of() == displs),
    {
        let c = counts.as_counts();
        let d = displs.as_counts();
        if c.len() != d.len() {
            return Err(PartitionError::LengthMismatch);
        }
        let n = match buf.count() {
            Ok(n) => n,
            Err(_) => return Err(PartitionError::BufferTooLarge),
        };
        if !check_partitions(c, d, n) {
            return Err(PartitionError::OutOfBounds);
        }
        Ok(Partition { buf, counts, displs })
    }
}

impl<'b, B: AsDatatype + ?Sized, C, D> AsDatatype for Partition<'b, B, C, D> {
    type Out = B::Out;

    open spec fn datatype_spec(&self) -> B::Out {
        self.buffer_of().datatype_spec()
    }

    fn as_datatype(&self) -> (r: B::Out) {
        self.buf.as_datatype()
    }
}

impl<'b, B: ?Sized, C: CountSequence, D: CountSequence> Partitioned for Partition<'b, B, C, D> {
    open spec fn counts_spec(&self) -> Seq<Count> {
        self.counts_of().counts_view()
    }

    open spec fn displs_spec(&self) -> Seq<Count> {
        self.displs_of().counts_view()
    }

    fn counts(&self) -> (r: &[Count]) {
        self.counts.as_counts()
    }

    fn displs(&self) -> (r: &[Count]) {
        self.displs.as_counts()
    }
}

impl<'b, B: AsDatatype + ?Sized, C: CountSequence, D: CountSequence> PartitionedBuffer for Partition<
    'b,
    B,
    C,
    D,
> {

}

/// Adds a partitioning to an existing `BufferMut`.
pub struct PartitionMut<'b, B: ?Sized, C, D> {
    buf: &'b mut B,
    counts: C,
    displs: D,
}

impl<'b, B: ?Sized, C, D> PartitionMut<'b, B, C, D> {
    pub closed spec fn buffer_of(&self) -> &B {
        &*self.buf
    }

    pub closed spec fn counts_of(&self) -> C {
        self.counts
    }

    pub closed spec fn displs_of(&self) -> D {
        self.displs
    }

    /// The partitioned buffer, for the engine to write.
    pub fn buffer_mut(&mut self) -> (r: &mut B)
        ensures
            &*r == old(self).buffer_of(),
    {
        self.buf
    }
}

impl<'b, B: BufferMut + ?Sized, C: CountSequence, D: CountSequence> PartitionMut<'b, B, C, D> {
    /// Partitions `buf` using `counts` and `displs`, on the same terms as
    /// `Partition::new`.
    pub fn new(buf: &'b mut B, counts: C, displs: D) -> (r: Result<
        PartitionMut<'b, B, C, D>,
        PartitionError,
    >)
        ensures
            partition_outcome(counts.counts_view(), displs.counts_view(), old(buf).count_spec()) matches Err(
                e,
            ) ==> r matches Err(f) && f == e,
            partition_outcome(counts.counts_view(), displs.counts_view(), old(buf).count_spec()) is Ok
                ==> (r matches Ok(p) && p.buffer_of() == &*old(buf) && p.counts_of() == counts
                && p.displs_of() == displs),
    {
        let c = counts.as_counts();
        let d = displs.as_counts();
        if c.len() != d.len() {
            return Err(PartitionError::LengthMismatch);
        }
        let n = match buf.count() {
            Ok(n) => n,
            Err(_) => return Err(PartitionError::BufferTooLarge),
        };
        if !check_partitions(c, d, n) {
            return Err(PartitionError::OutOfBounds);
        }
        Ok(PartitionMut { buf, counts, displs })
    }
}

impl<'b, B: AsDatatype + ?Sized, C, D> AsDatatype for PartitionMut<'b, B, C, D> {
    type Out = B::Out;

    open spec fn datatype_spec(&self) -> B::Out {
        self.buffer_of().datatype_spec()
    }

    fn as_datatype(&self) -> (r: B::Out) {
        self.buf.as_datatype()
    }
}

impl<'b, B: ?Sized, C: CountSequence, D: CountSequence> Partitioned for PartitionMut<'b, B, C, D> {
    open spec fn counts_spec(&self) -> Seq<Count> {
        self.counts_of().counts_view()
    }

    open spec fn displs_spec(&self) -> Seq<Count> {
        self.displs_of().counts_view()
    }

    fn counts(&self) -> (r: &[Count]) {
        self.counts.as_counts()
    }

    fn displs(&self) -> (r: &[Count]) {
        self.displs.as_counts()
    }
}

impl<'b, B: AsDatatype + ?Sized, C: CountSequence, D: CountSequence> PartitionedBufferMut for PartitionMut<
    'b,
    B,
    C,
    D,
> {

}

/// A partitioning that is accepted keeps every partition within the
/// buffer: for each index, count plus displacement is at most the buffer's
/// element count.
pub proof fn accepted_partitions_fit(counts: Seq<Count>, displs: Seq<Count>, total: int, i: int)
    requires
        partition_outcome(counts, displs, total) is Ok,
        0 <= i < counts.len(),
    ensures
        counts.len() == displs.len(),
        counts[i] + displs[i] <= total,
{
}

} // verus!
