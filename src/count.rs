//! Conversion of lengths to the engine's count type.
use vstd::prelude::*;

use crate::Count;

verus! {

#[verifier::external_type_specification]
#[verifier::external_body]
#[verifier::reject_recursive_types(T)]
pub struct ExPosOverflow<T>(conv::errors::PosOverflow<T>);

/// Failure to express a length as a `Count`.
#[derive(Clone, Copy, Debug, PartialEq, Eq, Structural)]
pub enum CountError {
    /// The length is larger than the largest `Count`.
    TooLarge,
}

/// Relies on conv's `ValueInto<i32>` for `usize`: `Ok` holding the same value
/// when it is at most `i32::MAX`, `Err(PosOverflow)` otherwise.
#[verifier::external_body]
fn usize_value_as_count(n: usize) -> (r: Result<Count, conv::errors::PosOverflow<usize>>)
    ensures
        r is Ok <==> n <= i32::MAX,
        r is Ok ==> r->Ok_0 == n,
{
    conv::ValueInto::<i32>::value_into(n)
}

/// A length as a `Count`; fails rather than wrap when it does not fit.
pub fn count_of_len(len: usize) -> (r: Result<Count, CountError>)
    ensures
        r is Ok <==> len <= i32::MAX,
        r is Ok ==> r->Ok_0 == len,
        r is Err ==> r == Err::<Count, CountError>(CountError::TooLarge),
{
    match usize_value_as_count(len) {
        Ok(c) => Ok(c),
        Err(_) => Err(CountError::TooLarge),
    }
}

} // verus!
