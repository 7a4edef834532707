use vstd::prelude::*;

use crate::error::Error;

verus! {

/// Number of entries to keep after the native engine reported writing `wrote` entries into a
/// buffer of `capacity`: a negative report keeps none, and no more than the capacity is ever
/// kept, so the buffer never exposes entries that were not written.
pub fn filled_len(capacity: usize, wrote: i32) -> (len: usize)
    ensures
        len <= capacity,
        wrote <= 0 ==> len == 0,
        wrote > 0 && wrote <= capacity ==> len == wrote,
        wrote > 0 && wrote > capacity ==> len == capacity,
{
    if wrote <= 0 {
        0
    } else if (wrote as usize) < capacity {
        wrote as usize
    } else {
        capacity
    }
}

/// Checks an index into a list of `count` native entries (a replay frame's queries or a query's
/// hits, a compound's children or materials, a shape's materials).
pub fn check_index_in_range(index: i32, count: i32) -> (r: Result<(), Error>)
    ensures
        r == (if index < 0 || index >= count {
            Err::<(), Error>(Error::IndexOutOfRange)
        } else {
            Ok::<(), Error>(())
        }),
{
    if index < 0 || index >= count {
        Err(Error::IndexOutOfRange)
    } else {
        Ok(())
    }
}

} // verus!
