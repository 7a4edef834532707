use vstd::prelude::*;

use crate::error::Error;
use crate::types::ShapeId;

verus! {

/// Broad-phase traversal statistics returned by queries.
#[derive(Clone, Copy, Debug, PartialEq, Eq, Structural)]
pub struct TreeStats {
    /// Number of broad-phase tree nodes visited.
    pub node_visits: i32,
    /// Number of broad-phase tree leaves visited.
    pub leaf_visits: i32,
}

/// Collision filter applied to world queries and casts.
#[derive(Clone, Copy, Debug, PartialEq, Eq, Structural)]
pub struct QueryFilter {
    /// Category bits assigned to the query.
    pub category_bits: u64,
    /// Mask bits used to accept candidate shapes.
    pub mask_bits: u64,
    /// User-defined query identifier recorded by replay.
    pub id: u64,
}

impl QueryFilter {
    /// A filter with default settings: every category, every mask bit, id zero.
    pub fn new() -> (f: Self)
        ensures
            f == (QueryFilter { category_bits: u64::MAX, mask_bits: u64::MAX, id: 0 }),
    {
        Self::default()
    }

    /// Sets the category bits assigned to the query.
    pub fn category_bits(self, category_bits: u64) -> (f: Self)
        ensures
            f == (QueryFilter { category_bits, ..self }),
    {
        let mut f = self;
        f.category_bits = category_bits;
        f
    }

    /// Sets the mask bits used to accept candidate shapes.
    pub fn mask_bits(self, mask_bits: u64) -> (f: Self)
        ensures
            f == (QueryFilter { mask_bits, ..self }),
    {
        let mut f = self;
        f.mask_bits = mask_bits;
        f
    }

    /// Sets the user-defined query id used by recording and replay diagnostics.
    pub fn id(self, id: u64) -> (f: Self)
        ensures
            f == (QueryFilter { id, ..self }),
    {
        let mut f = self;
        f.id = id;
        f
    }
}

impl Default for QueryFilter {
    /// Every category, every mask bit, id zero.
    fn default() -> (f: Self)
        ensures
            f == (QueryFilter { category_bits: u64::MAX, mask_bits: u64::MAX, id: 0 }),
    {
        QueryFilter { category_bits: u64::MAX, mask_bits: u64::MAX, id: 0 }
    }
}

/// Shape reported by an overlap query.
#[derive(Clone, Copy, Debug, PartialEq, Eq, Structural)]
pub struct QueryHit {
    /// Shape that overlapped the query volume.
    pub shape_id: ShapeId,
}

/// The outcome of a native traversal that called back into user code: a panic in a callback
/// wins, then an invalid value met during the traversal, otherwise the traversal statistics.
pub fn finish_traversal(panicked: bool, invalid_input: bool, stats: TreeStats) -> (r: Result<
    TreeStats,
    Error,
>)
    ensures
        r == (if panicked {
            Err::<TreeStats, Error>(Error::CallbackPanicked)
        } else if invalid_input {
            Err::<TreeStats, Error>(Error::InvalidArgument)
        } else {
            Ok::<TreeStats, Error>(stats)
        }),
{
    if panicked {
        Err(Error::CallbackPanicked)
    } else if invalid_input {
        Err(Error::InvalidArgument)
    } else {
        Ok(stats)
    }
}

} // verus!
