use vstd::prelude::*;

use crate::types::{ContactId, ShapeId};

verus! {

/// Owned sensor begin-touch event snapshot.
#[derive(Clone, Copy, Debug, PartialEq, Eq, Structural)]
pub struct SensorBeginTouchEvent {
    /// Sensor shape receiving the touch.
    pub sensor_shape: ShapeId,
    /// Shape entering the sensor.
    pub visitor_shape: ShapeId,
}

/// Owned sensor end-touch event snapshot.
#[derive(Clone, Copy, Debug, PartialEq, Eq, Structural)]
pub struct SensorEndTouchEvent {
    /// Sensor shape ending the touch.
    pub sensor_shape: ShapeId,
    /// Shape leaving the sensor.
    pub visitor_shape: ShapeId,
}

/// Owned sensor event snapshot for the latest world step.
#[derive(Clone, Debug)]
pub struct SensorEvents {
    /// Sensor touches that began during the step.
    pub begin: Vec<SensorBeginTouchEvent>,
    /// Sensor touches that ended during the step.
    pub end: Vec<SensorEndTouchEvent>,
}

impl Default for SensorEvents {
    /// No events.
    fn default() -> (e: Self)
        ensures
            e.begin@.len() == 0,
            e.end@.len() == 0,
    {
        SensorEvents { begin: Vec::new(), end: Vec::new() }
    }
}

/// Owned contact begin-touch event snapshot.
#[derive(Clone, Copy, Debug, PartialEq, Eq, Structural)]
pub struct ContactBeginTouchEvent {
    /// First shape in the contact pair.
    pub shape_a: ShapeId,
    /// Second shape in the contact pair.
    pub shape_b: ShapeId,
    /// Contact identifier for the pair.
    pub contact_id: ContactId,
}

/// Owned contact end-touch event snapshot.
#[derive(Clone, Copy, Debug, PartialEq, Eq, Structural)]
pub struct ContactEndTouchEvent {
    /// First shape in the contact pair.
    pub shape_a: ShapeId,
    /// Second shape in the contact pair.
    pub shape_b: ShapeId,
    /// Contact identifier for the pair.
    pub contact_id: ContactId,
}

/// Replaces the contents of `out` with the images of `input` under `map`, in order; the buffer
/// is reused rather than reallocated.
pub fn map_snapshot_into<T, U>(out: &mut Vec<U>, input: &[T], map: impl Fn(&T) -> U)
    requires
        forall|i: int| 0 <= i < input@.len() ==> call_requires(map, (&input@[i],)),
    ensures
        final(out)@.len() == input@.len(),
        forall|i: int|
            0 <= i < input@.len() ==> call_ensures(map, (&input@[i],), #[trigger] final(out)@[i]),
{
    out.clear();
    out.reserve(input.len());
    let mut i: usize = 0;
    while i < input.len()
        invariant
            i <= input@.len(),
            out@.len() == i,
            forall|j: int| 0 <= j < input@.len() ==> call_requires(map, (&input@[j],)),
            forall|j: int| 0 <= j < i ==> call_ensures(map, (&input@[j],), #[trigger] out@[j]),
        decreases input@.len() - i,
    {
        let value = map(&input[i]);
        out.push(value);
        i = i + 1;
    }
}

} // verus!
