//! Reading a fixed number of items from a list that was decoded with any
//! length.

use vstd::prelude::*;

verus! {

/// A decoded list was too short for the array that was asked for.
#[derive(Clone, Copy, Debug, PartialEq, Eq, Structural)]
pub struct InvalidLength {
    /// How many items the list had.
    pub len: usize,
    /// How many items the array needs.
    pub expected: usize,
}

/// The conversion of std from `Vec<T>` to `[T; N]`, `TryFrom::try_from`. As
/// std documents it: a vector of exactly `N` items comes back as the array of
/// those items in their order, and any other vector comes back unchanged as
/// the error.
#[verifier::external_body]
fn vec_into_array<T, const N: usize>(items: Vec<T>) -> (r: Result<[T; N], Vec<T>>)
    ensures
        match r {
            Ok(array) => items@.len() == N && array@ == items@,
            Err(rest) => items@.len() != N && rest == items,
        },
{
    <[T; N]>::try_from(items)
}

/// Takes the first `N` items of a decoded list as an array, in their order;
/// what follows them is dropped. A list of fewer than `N` items is refused,
/// with its length.
pub fn deserialize_array<T, const N: usize>(data: Vec<T>) -> (r: Result<[T; N], InvalidLength>)
    ensures
        data@.len() >= N ==> r is Ok && r->Ok_0@ == data@.subrange(0, N as int),
        data@.len() < N ==> r == Err::<[T; N], InvalidLength>(
            InvalidLength { len: data.len(), expected: N },
        ),
{
    let len: usize = data.len();
    let mut data = data;
    data.truncate(N);
    match vec_into_array(data) {
        Ok(array) => Ok(array),
        Err(_) => Err(InvalidLength { len, expected: N }),
    }
}

} // verus!
