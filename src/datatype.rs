//! Describing data: primitive and derived layout descriptors, buffers, views
//! and partitions.
use vstd::prelude::*;

use crate::count::{count_of_len, CountError};
use crate::{Address, Count};

verus! {

/// The primitive value types that have a canonical engine descriptor.
#[derive(Clone, Copy, Debug, PartialEq, Eq, Structural)]
pub enum Primitive {
    Float,
    Double,
    Int8,
    Int16,
    Int32,
    Int64,
    UInt8,
    UInt16,
    UInt32,
    UInt64,
}

/// An engine handle for a layout description.
#[derive(Clone, Copy, Debug, PartialEq, Eq, Structural)]
pub enum RawDatatype {
    /// The engine's own handle for a primitive type.
    Primitive(Primitive),
    /// A handle that the engine created for a derived layout.
    Derived(u64),
    /// The null descriptor.
    Null,
}

/// Something that names an engine layout.
pub trait Datatype {
    spec fn raw_spec(&self) -> RawDatatype;

    /// The engine handle of this layout.
    fn as_raw(&self) -> (r: RawDatatype)
        ensures
            r == self.raw_spec(),
    ;
}

/// A system datatype, owned by the engine, e.g. the one for `i32`.
#[derive(Clone, Copy, Debug, PartialEq, Eq, Structural)]
pub struct SystemDatatype(pub Primitive);

impl Datatype for SystemDatatype {
    open spec fn raw_spec(&self) -> RawDatatype {
        RawDatatype::Primitive(self.0)
    }

    fn as_raw(&self) -> (r: RawDatatype) {
        RawDatatype::Primitive(self.0)
    }
}

impl<'a, D: Datatype> Datatype for &'a D {
    open spec fn raw_spec(&self) -> RawDatatype {
        (**self).raw_spec()
    }

    fn as_raw(&self) -> (r: RawDatatype) {
        (**self).as_raw()
    }
}

/// The canonical descriptor of a primitive type.
pub open spec fn canonical(p: Primitive) -> SystemDatatype {
    SystemDatatype(p)
}

/// Looks up the canonical system descriptor of a primitive type.
pub fn primitive_datatype(p: Primitive) -> (r: SystemDatatype)
    ensures
        r == canonical(p),
{
    SystemDatatype(p)
}

/// The canonical descriptor of a primitive type is the same on every lookup,
/// and two different primitive types never share one.
pub proof fn canonical_is_deterministic_and_one_to_one(p: Primitive, q: Primitive)
    ensures
        canonical(p) == canonical(p),
        canonical(p) == canonical(q) <==> p == q,
        canonical(p).raw_spec() == canonical(q).raw_spec() <==> p == q,
{
}

/// A direct equivalence exists between the implementing type and an engine
/// datatype.
pub trait EquivalentDatatype {
    spec fn equivalent_spec() -> SystemDatatype;

    /// The datatype equivalent to this type; the same on every call.
    fn equivalent_datatype() -> (r: SystemDatatype)
        ensures
            r == Self::equivalent_spec(),
    ;
}

impl EquivalentDatatype for i8 {
    open spec fn equivalent_spec() -> SystemDatatype {
        canonical(Primitive::Int8)
    }

    fn equivalent_datatype() -> (r: SystemDatatype) {
        primitive_datatype(Primitive::Int8)
    }
}

impl EquivalentDatatype for i16 {
    open spec fn equivalent_spec() -> SystemDatatype {
        canonical(Primitive::Int16)
    }

    fn equivalent_datatype() -> (r: SystemDatatype) {
        primitive_datatype(Primitive::Int16)
    }
}

impl EquivalentDatatype for i32 {
    open spec fn equivalent_spec() -> SystemDatatype {
        canonical(Primitive::Int32)
    }

    fn equivalent_datatype() -> (r: SystemDatatype) {
        primitive_datatype(Primitive::Int32)
    }
}

impl EquivalentDatatype for i64 {
    open spec fn equivalent_spec() -> SystemDatatype {
        canonical(Primitive::Int64)
    }

    fn equivalent_datatype() -> (r: SystemDatatype) {
        primitive_datatype(Primitive::Int64)
    }
}

impl EquivalentDatatype for u8 {
    open spec fn equivalent_spec() -> SystemDatatype {
        canonical(Primitive::UInt8)
    }

    fn equivalent_datatype() -> (r: SystemDatatype) {
        primitive_datatype(Primitive::UInt8)
    }
}

impl EquivalentDatatype for u16 {
    open spec fn equivalent_spec() -> SystemDatatype {
        canonical(Primitive::UInt16)
    }

    fn equivalent_datatype() -> (r: SystemDatatype) {
        primitive_datatype(Primitive::UInt16)
    }
}

impl EquivalentDatatype for u32 {
    open spec fn equivalent_spec() -> SystemDatatype {
        canonical(Primitive::UInt32)
    }

    fn equivalent_datatype() -> (r: SystemDatatype) {
        primitive_datatype(Primitive::UInt32)
    }
}

impl EquivalentDatatype for u64 {
    open spec fn equivalent_spec() -> SystemDatatype {
        canonical(Primitive::UInt64)
    }

    fn equivalent_datatype() -> (r: SystemDatatype) {
        primitive_datatype(Primitive::UInt64)
    }
}

/// What can go wrong while building or releasing a derived datatype.
#[derive(Clone, Copy, Debug, PartialEq, Eq, Structural)]
pub enum DatatypeError {
    /// Block lengths and displacements differ in number.
    LengthMismatch,
    /// There are more blocks than a `Count` can express.
    TooManyBlocks,
    /// The engine gave back no derived handle.
    EngineFailure,
    /// The engine gave back the handle of the old type.
    HandleReused,
    /// The datatype was already released.
    AlreadyReleased,
}

/// A layout constructor, as the engine is asked to run it.
#[allow(inconsistent_fields)]
///
/// Each variant holds the metadata of the new layout and the handle of the
/// old type that it is built from.
#[derive(Clone, Debug, PartialEq, Eq)]
pub enum TypeConstructor {
    /// `count` back-to-back repetitions of `oldtype`.
    Contiguous { count: Count, oldtype: RawDatatype },
    /// `count` blocks of `blocklength` elements, block starts `stride` elements apart.
    Vector { count: Count, blocklength: Count, stride: Count, oldtype: RawDatatype },
    /// As `Vector`, with `stride` in bytes.
    HeterogeneousVector { count: Count, blocklength: Count, stride: Address, oldtype: RawDatatype },
    /// `count` blocks of individual length and displacement, in elements.
    Indexed {
        count: Count,
        blocklengths: Vec<Count>,
        displacements: Vec<Count>,
        oldtype: RawDatatype,
    },
    /// As `Indexed`, with displacements in bytes.
    HeterogeneousIndexed {
        count: Count,
        blocklengths: Vec<Count>,
        displacements: Vec<Address>,
        oldtype: RawDatatype,
    },
    /// `count` blocks of one length at individual displacements, in elements.
    IndexedBlock { count: Count, blocklength: Count, displacements: Vec<Count>, oldtype: RawDatatype },
    /// As `IndexedBlock`, with displacements in bytes.
    HeterogeneousIndexedBlock {
        count: Count,
        blocklength: Count,
        displacements: Vec<Address>,
        oldtype: RawDatatype,
    },
}

impl TypeConstructor {
    pub open spec fn oldtype_spec(&self) -> RawDatatype {
        match *self {
            TypeConstructor::Contiguous { oldtype, .. } => oldtype,
            TypeConstructor::Vector { oldtype, .. } => oldtype,
            TypeConstructor::HeterogeneousVector { oldtype, .. } => oldtype,
            TypeConstructor::Indexed { oldtype, .. } => oldtype,
            TypeConstructor::HeterogeneousIndexed { oldtype, .. } => oldtype,
            TypeConstructor::IndexedBlock { oldtype, .. } => oldtype,
            TypeConstructor::HeterogeneousIndexedBlock { oldtype, .. } => oldtype,
        }
    }

    /// The handle of the type that the new layout is built from.
    pub fn oldtype(&self) -> (r: RawDatatype)
        ensures
            r == self.oldtype_spec(),
    {
        match self {
            TypeConstructor::Contiguous { oldtype, .. } => *oldtype,
            TypeConstructor::Vector { oldtype, .. } => *oldtype,
            TypeConstructor::HeterogeneousVector { oldtype, .. } => *oldtype,
            TypeConstructor::Indexed { oldtype, .. } => *oldtype,
            TypeConstructor::HeterogeneousIndexed { oldtype, .. } => *oldtype,
            TypeConstructor::IndexedBlock { oldtype, .. } => *oldtype,
            TypeConstructor::HeterogeneousIndexedBlock { oldtype, .. } => *oldtype,
        }
    }
}

/// Copies a slice into a vector, element by element.
fn copy_slice<T: Copy>(s: &[T]) -> (r: Vec<T>)
    ensures
        r@ == s@,
{
    let mut r: Vec<T> = Vec::new();
    let mut i: usize = 0;
    while i < s.len()
        invariant
            i <= s@.len(),
            r@ == s@.subrange(0, i as int),
        decreases s@.len() - i,
    {
        r.push(s[i]);
        i = i + 1;
        assert(r@ == s@.subrange(0, i as int));
    }
    assert(s@.subrange(0, s@.len() as int) == s@);
    r
}

/// A user defined datatype, built by the engine and owned by this value.
///
/// The handle is the null descriptor once the datatype has been released.
pub struct UserDatatype {
    handle: Option<u64>,
}

impl View for UserDatatype {
    type V = Option<u64>;

    /// The engine handle while the datatype is live, `None` once released.
    closed spec fn view(&self) -> Option<u64> {
        self.handle
    }
}

impl Datatype for UserDatatype {
    open spec fn raw_spec(&self) -> RawDatatype {
        match self@ {
            Some(h) => RawDatatype::Derived(h),
            None => RawDatatype::Null,
        }
    }

    fn as_raw(&self) -> (r: RawDatatype) {
        match self.handle {
            Some(h) => RawDatatype::Derived(h),
            None => RawDatatype::Null,
        }
    }
}

impl UserDatatype {
    /// Asks for `count` repetitions of `oldtype` laid end to end.
    pub fn contiguous<D: Datatype>(count: Count, oldtype: D) -> (r: TypeConstructor)
        ensures
            r == (TypeConstructor::Contiguous { count, oldtype: oldtype.raw_spec() }),
    {
        TypeConstructor::Contiguous { count, oldtype: oldtype.as_raw() }
    }

    /// Asks for `count` blocks of `blocklength` elements of `oldtype`, the
    /// starts of consecutive blocks `stride` elements apart.
    pub fn vector<D: Datatype>(count: Count, blocklength: Count, stride: Count, oldtype: D) -> (r:
        TypeConstructor)
        ensures
            r == (TypeConstructor::Vector { count, blocklength, stride, oldtype: oldtype.raw_spec() }),
    {
        TypeConstructor::Vector { count, blocklength, stride, oldtype: oldtype.as_raw() }
    }

    /// Like `vector()` but `stride` is given in bytes rather than elements of
    /// `oldtype`.
    pub fn heterogeneous_vector<D: Datatype>(
        count: Count,
        blocklength: Count,
        stride: Address,
        oldtype: D,
    ) -> (r: TypeConstructor)
        ensures
            r == (TypeConstructor::HeterogeneousVector {
                count,
                blocklength,
                stride,
                oldtype: oldtype.raw_spec(),
            }),
    {
        TypeConstructor::HeterogeneousVector { count, blocklength, stride, oldtype: oldtype.as_raw() }
    }

    /// Asks for blocks of individual length and displacement: block `i` is
    /// `blocklengths[i]` elements of `oldtype`, displaced by
    /// `displacements[i]` elements of `oldtype`.
    pub fn indexed<D: Datatype>(blocklengths: &[Count], displacements: &[Count], oldtype: D) -> (r:
        Result<TypeConstructor, DatatypeError>)
        ensures
            blocklengths@.len() != displacements@.len() ==> r == Err::<TypeConstructor, DatatypeError>(
                DatatypeError::LengthMismatch,
            ),
            blocklengths@.len() == displacements@.len() && blocklengths@.len() > i32::MAX ==> r
                == Err::<TypeConstructor, DatatypeError>(DatatypeError::TooManyBlocks),
            blocklengths@.len() == displacements@.len() && blocklengths@.len() <= i32::MAX ==> r
                is Ok,
            r matches Ok(TypeConstructor::Indexed { count, blocklengths: b, displacements: d, oldtype: o })
                ==> count == blocklengths@.len() && b@ == blocklengths@ && d@ == displacements@
                && o == oldtype.raw_spec(),
            r matches Ok(c) ==> c is Indexed,
    {
        if blocklengths.len() != displacements.len() {
            return Err(DatatypeError::LengthMismatch);
        }
        match count_of_len(blocklengths.len()) {
            Ok(count) => Ok(
                TypeConstructor::Indexed {
                    count,
                    blocklengths: copy_slice(blocklengths),
                    displacements: copy_slice(displacements),
                    oldtype: oldtype.as_raw(),
                },
            ),
            Err(_) => Err(DatatypeError::TooManyBlocks),
        }
    }

    /// Asks for blocks of individual length and displacement: block `i` is
    /// `blocklengths[i]` elements of `oldtype`, displaced by
    /// `displacements[i]` bytes.
    pub fn heterogeneous_indexed<D: Datatype>(
        blocklengths: &[Count],
        displacements: &[Address],
        oldtype: D,
    ) -> (r: Result<TypeConstructor, DatatypeError>)
        ensures
            blocklengths@.len() != displacements@.len() ==> r == Err::<TypeConstructor, DatatypeError>(
                DatatypeError::LengthMismatch,
            ),
            blocklengths@.len() == displacements@.len() && blocklengths@.len() > i32::MAX ==> r
                == Err::<TypeConstructor, DatatypeError>(DatatypeError::TooManyBlocks),
            blocklengths@.len() == displacements@.len() && blocklengths@.len() <= i32::MAX ==> r
                is Ok,
            r matches Ok(
                TypeConstructor::HeterogeneousIndexed { count, blocklengths: b, displacements: d, oldtype: o },
            ) ==> count == blocklengths@.len() && b@ == blocklengths@ && d@ == displacements@ && o
                == oldtype.raw_spec(),
            r matches Ok(c) ==> c is HeterogeneousIndexed,
    {
        if blocklengths.len() != displacements.len() {
            return Err(DatatypeError::LengthMismatch);
        }
        match count_of_len(blocklengths.len()) {
            Ok(count) => Ok(
                TypeConstructor::HeterogeneousIndexed {
                    count,
                    blocklengths: copy_slice(blocklengths),
                    displacements: copy_slice(displacements),
                    oldtype: oldtype.as_raw(),
                },
            ),
            Err(_) => Err(DatatypeError::TooManyBlocks),
        }
    }

    /// Asks for blocks of one length `blocklength` at individual
    /// displacements, in elements of `oldtype`.
    pub fn indexed_block<D: Datatype>(blocklength: Count, displacements: &[Count], oldtype: D) -> (r:
        Result<TypeConstructor, DatatypeError>)
        ensures
            displacements@.len() > i32::MAX ==> r == Err::<TypeConstructor, DatatypeError>(
                DatatypeError::TooManyBlocks,
            ),
            displacements@.len() <= i32::MAX ==> r is Ok,
            r matches Ok(TypeConstructor::IndexedBlock { count, blocklength: l, displacements: d, oldtype: o })
                ==> count == displacements@.len() && l == blocklength && d@ == displacements@ && o
                == oldtype.raw_spec(),
            r matches Ok(c) ==> c is IndexedBlock,
    {
        match count_of_len(displacements.len()) {
            Ok(count) => Ok(
                TypeConstructor::IndexedBlock {
                    count,
                    blocklength,
                    displacements: copy_slice(displacements),
                    oldtype: oldtype.as_raw(),
                },
            ),
            Err(_) => Err(DatatypeError::TooManyBlocks),
        }
    }

    /// Asks for blocks of one length `blocklength` at individual
    /// displacements, in bytes.
    pub fn heterogeneous_indexed_block<D: Datatype>(
        blocklength: Count,
        displacements: &[Address],
        oldtype: D,
    ) -> (r: Result<TypeConstructor, DatatypeError>)
        ensures
            displacements@.len() > i32::MAX ==> r == Err::<TypeConstructor, DatatypeError>(
                DatatypeError::TooManyBlocks,
            ),
            displacements@.len() <= i32::MAX ==> r is Ok,
            r matches Ok(
                TypeConstructor::HeterogeneousIndexedBlock { count, blocklength: l, displacements: d, oldtype: o },
            ) ==> count == displacements@.len() && l == blocklength && d@ == displacements@ && o
                == oldtype.raw_spec(),
            r matches Ok(c) ==> c is HeterogeneousIndexedBlock,
    {
        match count_of_len(displacements.len()) {
            Ok(count) => Ok(
                TypeConstructor::HeterogeneousIndexedBlock {
                    count,
                    blocklength,
                    displacements: copy_slice(displacements),
                    oldtype: oldtype.as_raw(),
                },
            ),
            Err(_) => Err(DatatypeError::TooManyBlocks),
        }
    }

    /// Takes ownership of the handle that the engine created and committed
    /// for `request`.
    ///
    /// Fails when the engine gave back no derived handle, or the handle of
    /// the old type, which would then be released twice.
    pub fn commit(request: &TypeConstructor, created: RawDatatype) -> (r: Result<
        UserDatatype,
        DatatypeError,
    >)
        ensures
            !(created is Derived) ==> r == Err::<UserDatatype, DatatypeError>(
                DatatypeError::EngineFailure,
            ),
            created is Derived && created == request.oldtype_spec() ==> r == Err::<
                UserDatatype,
                DatatypeError,
            >(DatatypeError::HandleReused),
            created is Derived && created != request.oldtype_spec() ==> (r matches Ok(d) && d@
                == Some(created->Derived_0)),
    {
        match created {
            RawDatatype::Derived(h) => {
                if created == request.oldtype() {
                    Err(DatatypeError::HandleReused)
                } else {
                    Ok(UserDatatype { handle: Some(h) })
                }
            },
            _ => Err(DatatypeError::EngineFailure),
        }
    }

    /// Whether the datatype has been released.
    pub fn is_released(&self) -> (r: bool)
        ensures
            r == (self@ is None),
    {
        self.handle.is_none()
    }

    /// Releases the datatype: hands out the handle for the engine to free
    /// and sets it to the null descriptor.
    ///
    /// A second release finds the null descriptor and fails, leaving the
    /// engine alone.
    pub fn release(&mut self) -> (r: Result<u64, DatatypeError>)
        ensures
            r == release_result(old(self)@),
            final(self)@ is None,
    {
        match self.handle {
            Some(h) => {
                self.handle = None;
                Ok(h)
            },
            None => Err(DatatypeError::AlreadyReleased),
        }
    }
}

/// What releasing a datatype whose handle is `before` gives back.
pub open spec fn release_result(before: Option<u64>) -> Result<u64, DatatypeError> {
    match before {
        Some(h) => Ok(h),
        None => Err(DatatypeError::AlreadyReleased),
    }
}

/// Releasing a live derived datatype hands out its handle once and leaves
/// the null descriptor behind; releasing it again finds the null descriptor
/// and is refused, handing no handle out.
pub proof fn release_twice_is_refused(before: Option<u64>, after: Option<u64>)
    requires
        after is None,
    ensures
        before matches Some(h) ==> release_result(before) == Ok::<u64, DatatypeError>(h),
        release_result(after) == Err::<u64, DatatypeError>(DatatypeError::AlreadyReleased),
{
}

/// A datatype committed for a request is distinct from the request's old
/// type: releasing it hands out its own handle, never the old type's.
pub proof fn derived_is_distinct_from_oldtype(
    request: TypeConstructor,
    created: RawDatatype,
    d: UserDatatype,
)
    requires
        created is Derived,
        created != request.oldtype_spec(),
        d@ == Some(created->Derived_0),
    ensures
        d.raw_spec() != request.oldtype_spec(),
        release_result(d@) matches Ok(h) && RawDatatype::Derived(h) != request.oldtype_spec(),
{
}

} // verus!
