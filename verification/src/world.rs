use vstd::prelude::*;

use crate::callbacks::{CallbackKind, WorldCallbacks};
use crate::error::Error;
use crate::task_system::TaskSystem;

verus! {

/// Checks the sub-step count of a world step (the time step is checked with the geometry).
pub fn check_sub_step_count(sub_step_count: i32) -> (r: Result<(), Error>)
    ensures
        r == (if sub_step_count < 0 {
            Err::<(), Error>(Error::InvalidArgument)
        } else {
            Ok::<(), Error>(())
        }),
{
    if sub_step_count < 0 {
        Err(Error::InvalidArgument)
    } else {
        Ok(())
    }
}

/// Checks a world's worker count: zero or more.
pub fn check_world_worker_count(count: i32) -> (r: Result<(), Error>)
    ensures
        r == (if count < 0 {
            Err::<(), Error>(Error::InvalidArgument)
        } else {
            Ok::<(), Error>(())
        }),
{
    if count < 0 {
        Err(Error::InvalidArgument)
    } else {
        Ok(())
    }
}

/// Prepares a world step: the panic flags of the world's callbacks and of its task system, if
/// it has one, are cleared so that only panics of this step are reported.
pub fn begin_step(callbacks: &mut WorldCallbacks, task_system: &mut Option<TaskSystem>)
    requires
        old(callbacks).wf(),
    ensures
        final(callbacks).wf(),
        !final(callbacks).any_panicked(),
        final(callbacks).slot() == old(callbacks).slot(),
        forall|k: CallbackKind| #[trigger] final(callbacks).state(k) is Some <==> old(callbacks).state(k) is Some,
        *final(task_system) is Some <==> *old(task_system) is Some,
        *final(task_system) matches Some(t) ==> !t.spec_panicked() && t.same_counters(&(*old(task_system))->0),
{
    callbacks.reset_panics();
    if let Some(t) = task_system {
        t.reset_panics();
    }
}

/// The outcome of a world step: [`Error::CallbackPanicked`] when a user callback or a task of
/// the world's task system panicked during the step.
pub fn finish_step(callbacks: &WorldCallbacks, task_system: &Option<TaskSystem>) -> (r: Result<(), Error>)
    ensures
        r == (if callbacks.any_panicked() || (task_system matches Some(t) && t.spec_panicked()) {
            Err::<(), Error>(Error::CallbackPanicked)
        } else {
            Ok::<(), Error>(())
        }),
{
    let task_panicked = match task_system {
        Some(t) => t.panicked(),
        None => false,
    };
    if callbacks.panicked() || task_panicked {
        Err(Error::CallbackPanicked)
    } else {
        Ok(())
    }
}

/// No byte of a name or path is NUL, so that it can be handed to the engine as a C string.
pub open spec fn has_no_nul(bytes: Seq<u8>) -> bool {
    forall|i: int| 0 <= i < bytes.len() ==> #[trigger] bytes[i] != 0
}

/// Checks a body name or a recording path before it becomes a C string: an interior NUL byte
/// is refused with [`Error::NulByteInString`].
pub fn check_no_interior_nul(bytes: &[u8]) -> (r: Result<(), Error>)
    ensures
        r == (if has_no_nul(bytes@) {
            Ok::<(), Error>(())
        } else {
            Err::<(), Error>(Error::NulByteInString)
        }),
{
    let mut i: usize = 0;
    while i < bytes.len()
        invariant
            i <= bytes@.len(),
            forall|j: int| 0 <= j < i ==> #[trigger] bytes@[j] != 0,
        decreases bytes@.len() - i,
    {
        if bytes[i] == 0 {
            return Err(Error::NulByteInString);
        }
        i = i + 1;
    }
    Ok(())
}

} // verus!
