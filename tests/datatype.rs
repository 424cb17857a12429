use mpi::count::{count_of_len, CountError};
use mpi::datatype::{
    primitive_datatype, Datatype, DatatypeError, EquivalentDatatype, Primitive, RawDatatype,
    SystemDatatype, TypeConstructor, UserDatatype,
};

fn commit_to(request: &TypeConstructor, handle: u64) -> UserDatatype {
    UserDatatype::commit(request, RawDatatype::Derived(handle)).unwrap()
}

#[test]
fn equivalent_datatype_is_the_same_on_every_call() {
    assert_eq!(i8::equivalent_datatype(), i8::equivalent_datatype());
    assert_eq!(u64::equivalent_datatype(), u64::equivalent_datatype());
    assert_eq!(i8::equivalent_datatype(), SystemDatatype(Primitive::Int8));
    assert_eq!(i16::equivalent_datatype(), SystemDatatype(Primitive::Int16));
    assert_eq!(i32::equivalent_datatype(), SystemDatatype(Primitive::Int32));
    assert_eq!(i64::equivalent_datatype(), SystemDatatype(Primitive::Int64));
    assert_eq!(u8::equivalent_datatype(), SystemDatatype(Primitive::UInt8));
    assert_eq!(u16::equivalent_datatype(), SystemDatatype(Primitive::UInt16));
    assert_eq!(u32::equivalent_datatype(), SystemDatatype(Primitive::UInt32));
    assert_eq!(u64::equivalent_datatype(), SystemDatatype(Primitive::UInt64));
}

#[test]
fn distinct_primitives_have_distinct_datatypes() {
    assert_ne!(i32::equivalent_datatype(), u32::equivalent_datatype());
    assert_ne!(i64::equivalent_datatype().as_raw(), u64::equivalent_datatype().as_raw());
    assert_eq!(
        primitive_datatype(Primitive::Double).as_raw(),
        RawDatatype::Primitive(Primitive::Double)
    );
}

#[test]
fn count_of_len_converts_or_fails() {
    assert_eq!(count_of_len(0), Ok(0));
    assert_eq!(count_of_len(17), Ok(17));
    assert_eq!(count_of_len(i32::MAX as usize), Ok(i32::MAX));
    assert_eq!(count_of_len(i32::MAX as usize + 1), Err(CountError::TooLarge));
    assert_eq!(count_of_len(usize::MAX), Err(CountError::TooLarge));
}

#[test]
fn contiguous_request_names_count_and_oldtype() {
    let r = UserDatatype::contiguous(3, i32::equivalent_datatype());
    assert_eq!(
        r,
        TypeConstructor::Contiguous { count: 3, oldtype: RawDatatype::Primitive(Primitive::Int32) }
    );
    assert_eq!(r.oldtype(), RawDatatype::Primitive(Primitive::Int32));
}

#[test]
fn composed_datatype_is_released_apart_from_its_oldtype() {
    let first = UserDatatype::contiguous(3, i32::equivalent_datatype());
    let mut previous = commit_to(&first, 7);
    let second = UserDatatype::vector(2, 1, 3, &previous);
    assert_eq!(
        second,
        TypeConstructor::Vector {
            count: 2,
            blocklength: 1,
            stride: 3,
            oldtype: RawDatatype::Derived(7)
        }
    );
    assert_eq!(
        UserDatatype::commit(&second, RawDatatype::Derived(7)).err(),
        Some(DatatypeError::HandleReused)
    );
    let mut derived = commit_to(&second, 8);
    assert_ne!(derived.as_raw(), previous.as_raw());
    assert_eq!(derived.release(), Ok(8));
    assert_eq!(previous.as_raw(), RawDatatype::Derived(7));
    assert!(!previous.is_released());
    assert_eq!(previous.release(), Ok(7));
}

#[test]
fn commit_without_a_derived_handle_fails() {
    let r = UserDatatype::contiguous(2, u8::equivalent_datatype());
    assert_eq!(UserDatatype::commit(&r, RawDatatype::Null).err(), Some(DatatypeError::EngineFailure));
    assert_eq!(
        UserDatatype::commit(&r, RawDatatype::Primitive(Primitive::UInt8)).err(),
        Some(DatatypeError::EngineFailure)
    );
}

#[test]
fn release_sets_null_and_refuses_a_second_release() {
    let r = UserDatatype::contiguous(4, i64::equivalent_datatype());
    let mut d = commit_to(&r, 42);
    assert_eq!(d.as_raw(), RawDatatype::Derived(42));
    assert_eq!(d.release(), Ok(42));
    assert!(d.is_released());
    assert_eq!(d.as_raw(), RawDatatype::Null);
    assert_eq!(d.release(), Err(DatatypeError::AlreadyReleased));
    assert_eq!(d.as_raw(), RawDatatype::Null);
}

#[test]
fn heterogeneous_vector_keeps_byte_stride() {
    let r = UserDatatype::heterogeneous_vector(5, 2, 24, u16::equivalent_datatype());
    assert_eq!(
        r,
        TypeConstructor::HeterogeneousVector {
            count: 5,
            blocklength: 2,
            stride: 24,
            oldtype: RawDatatype::Primitive(Primitive::UInt16)
        }
    );
}

#[test]
fn indexed_with_unequal_lengths_is_refused() {
    let r = UserDatatype::indexed(&[1, 2, 3], &[0, 4], i32::equivalent_datatype());
    assert_eq!(r, Err(DatatypeError::LengthMismatch));
    let h = UserDatatype::heterogeneous_indexed(&[1], &[0, 8], i32::equivalent_datatype());
    assert_eq!(h, Err(DatatypeError::LengthMismatch));
}

#[test]
fn indexed_copies_blocks() {
    let r = UserDatatype::indexed(&[1, 2, 3], &[0, 4, 9], i32::equivalent_datatype());
    assert_eq!(
        r,
        Ok(TypeConstructor::Indexed {
            count: 3,
            blocklengths: vec![1, 2, 3],
            displacements: vec![0, 4, 9],
            oldtype: RawDatatype::Primitive(Primitive::Int32)
        })
    );
    let h = UserDatatype::heterogeneous_indexed(&[2, 1], &[0, 40], u8::equivalent_datatype());
    assert_eq!(
        h,
        Ok(TypeConstructor::HeterogeneousIndexed {
            count: 2,
            blocklengths: vec![2, 1],
            displacements: vec![0, 40],
            oldtype: RawDatatype::Primitive(Primitive::UInt8)
        })
    );
}

#[test]
fn indexed_with_no_blocks_is_accepted() {
    let r = UserDatatype::indexed(&[], &[], u32::equivalent_datatype());
    assert_eq!(
        r,
        Ok(TypeConstructor::Indexed {
            count: 0,
            blocklengths: vec![],
            displacements: vec![],
            oldtype: RawDatatype::Primitive(Primitive::UInt32)
        })
    );
}

#[test]
fn indexed_block_shares_one_blocklength() {
    let r = UserDatatype::indexed_block(2, &[0, 5, 10], i16::equivalent_datatype());
    assert_eq!(
        r,
        Ok(TypeConstructor::IndexedBlock {
            count: 3,
            blocklength: 2,
            displacements: vec![0, 5, 10],
            oldtype: RawDatatype::Primitive(Primitive::Int16)
        })
    );
    let h = UserDatatype::heterogeneous_indexed_block(1, &[0, 16], i16::equivalent_datatype());
    assert_eq!(
        h,
        Ok(TypeConstructor::HeterogeneousIndexedBlock {
            count: 2,
            blocklength: 1,
            displacements: vec![0, 16],
            oldtype: RawDatatype::Primitive(Primitive::Int16)
        })
    );
}
