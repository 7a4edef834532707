use vstd::prelude::*;

use crate::error::Error;
use crate::recording::ReplayWorldId;
use crate::types::BodyId;

verus! {

/// Native joint family reported for a joint handle.
#[derive(Clone, Copy, Debug, PartialEq, Eq, Structural)]
pub enum JointType {
    /// Keeps two body frames parallel with optional spring torque.
    Parallel,
    /// Constrains the distance between two body frames.
    Distance,
    /// Disables collision between the connected bodies.
    Filter,
    /// Drives relative linear and angular velocity.
    Motor,
    /// Allows translation along one axis.
    Prismatic,
    /// Allows rotation around one axis.
    Revolute,
    /// Allows ball-and-socket rotation.
    Spherical,
    /// Locks relative translation and rotation.
    Weld,
    /// Suspension, spin motor, and steering controls.
    Wheel,
}

/// A joint connects two distinct bodies of the same world.
pub fn check_joint_body_pair_valid(body_a: BodyId, body_b: BodyId) -> (r: Result<(), Error>)
    ensures
        r == (if body_a.world0 == body_b.world0 && body_a != body_b {
            Ok::<(), Error>(())
        } else {
            Err::<(), Error>(Error::InvalidArgument)
        }),
{
    if body_a.world0 == body_b.world0 && !(body_a.index1 == body_b.index1
        && body_a.generation == body_b.generation) {
        Ok(())
    } else {
        Err(Error::InvalidArgument)
    }
}

/// Both bodies of a joint must belong to `world`; a null world id is invalid.
pub fn check_joint_targets_world(world: ReplayWorldId, body_a: BodyId, body_b: BodyId) -> (r: Result<
    (),
    Error,
>)
    ensures
        world.index1 == 0 ==> r == Err::<(), Error>(Error::InvalidWorldId),
        world.index1 > 0 ==> r == (if body_a.world0 == world.index1 - 1 && body_b.world0
            == world.index1 - 1 {
            Ok::<(), Error>(())
        } else {
            Err::<(), Error>(Error::InvalidArgument)
        }),
{
    let world0 = match world.index1.checked_sub(1) {
        Some(w) => w,
        None => {
            return Err(Error::InvalidWorldId);
        },
    };
    if body_a.world0 == world0 && body_b.world0 == world0 {
        Ok(())
    } else {
        Err(Error::InvalidArgument)
    }
}

/// A family-specific joint API accepts only joints of its family; an unknown native family is
/// refused too.
pub fn check_joint_type(actual: Option<JointType>, expected: JointType) -> (r: Result<(), Error>)
    ensures
        r == (if actual == Some(expected) {
            Ok::<(), Error>(())
        } else {
            Err::<(), Error>(Error::WrongJointType)
        }),
{
    match actual {
        Some(actual) => {
            if actual == expected {
                Ok(())
            } else {
                Err(Error::WrongJointType)
            }
        },
        None => Err(Error::WrongJointType),
    }
}

} // verus!
