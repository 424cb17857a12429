use mpi::buffer::{AsDatatype, Collection};
use mpi::datatype::{Datatype, EquivalentDatatype, Primitive, RawDatatype, SystemDatatype};
use mpi::partition::{Partition, PartitionError, PartitionMut, Partitioned};
use mpi::view::{MutView, View};

#[test]
fn single_value_is_a_buffer_of_one() {
    let x: u32 = 9;
    assert_eq!(x.count(), Ok(1));
    assert_eq!(x.as_datatype(), SystemDatatype(Primitive::UInt32));
}

#[test]
fn slice_count_is_its_length() {
    let v: Vec<i64> = vec![1, 2, 3, 4, 5];
    assert_eq!(v[..].count(), Ok(5));
    assert_eq!(v[..0].count(), Ok(0));
    assert_eq!(v[..].as_datatype(), i64::equivalent_datatype());
}

#[test]
fn view_reports_what_it_was_given() {
    let data: Vec<u8> = vec![1, 2, 3];
    let wrong = i64::equivalent_datatype();
    let view = View::with_count_and_datatype(&data[..], 4, &wrong);
    assert_eq!(view.count(), Ok(4));
    assert_eq!(*view.as_datatype(), wrong);
    assert_eq!(view.as_datatype().as_raw(), RawDatatype::Primitive(Primitive::Int64));
    assert!(std::ptr::eq(view.buffer(), &data[..]));
}

#[test]
fn mut_view_reports_what_it_was_given() {
    let mut data: Vec<u16> = vec![7, 8];
    let datatype = u64::equivalent_datatype();
    let mut view = MutView::with_count_and_datatype(&mut data[..], 4, &datatype);
    assert_eq!(view.count(), Ok(4));
    assert_eq!(*view.as_datatype(), datatype);
    view.buffer_mut()[0] = 70;
    assert_eq!(data[0], 70);
}

#[test]
fn partition_within_buffer_is_accepted() {
    let data: Vec<i32> = vec![0; 10];
    let p = Partition::new(&data[..], vec![3, 3], vec![0, 5]).unwrap();
    assert_eq!(p.counts(), &[3, 3]);
    assert_eq!(p.displs(), &[0, 5]);
    assert_eq!(p.as_datatype(), i32::equivalent_datatype());
    assert!(std::ptr::eq(p.buffer(), &data[..]));
}

#[test]
fn partition_past_the_end_is_refused() {
    let data: Vec<i32> = vec![0; 10];
    let r = Partition::new(&data[..], vec![3, 3], vec![0, 8]);
    assert!(matches!(r, Err(PartitionError::OutOfBounds)));
}

#[test]
fn partition_at_the_exact_end_is_accepted() {
    let data: Vec<u8> = vec![0; 10];
    let counts: &[i32] = &[10, 0];
    let displs: &[i32] = &[0, 10];
    assert!(Partition::new(&data[..], counts, displs).is_ok());
}

#[test]
fn partition_with_unequal_lengths_is_refused() {
    let data: Vec<u8> = vec![0; 10];
    let r = Partition::new(&data[..], vec![1, 1, 1], vec![0, 1]);
    assert!(matches!(r, Err(PartitionError::LengthMismatch)));
}

#[test]
fn partition_mut_checks_the_same_bounds() {
    let mut data: Vec<u64> = vec![0; 10];
    assert!(matches!(
        PartitionMut::new(&mut data[..], vec![3, 3], vec![0, 8]),
        Err(PartitionError::OutOfBounds)
    ));
    let counts = vec![3, 3];
    let mut p = PartitionMut::new(&mut data[..], &counts, vec![0, 5]).unwrap();
    assert_eq!(p.counts(), &[3, 3]);
    assert_eq!(p.displs(), &[0, 5]);
    p.buffer_mut()[5] = 1;
    assert_eq!(data[5], 1);
}

#[test]
fn partition_of_a_view_uses_the_view_count() {
    let data: Vec<u8> = vec![0; 2];
    let datatype = u8::equivalent_datatype();
    let view = View::with_count_and_datatype(&data[..], 6, &datatype);
    assert!(Partition::new(&view, vec![2, 2], vec![0, 4]).is_ok());
    assert!(matches!(
        Partition::new(&view, vec![2, 2], vec![0, 5]),
        Err(PartitionError::OutOfBounds)
    ));
}
