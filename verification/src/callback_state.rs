use vstd::prelude::*;

use crate::error::Error;

verus! {

/// Depth after entering one more native callback: one more, saturating at `usize::MAX`.
pub open spec fn depth_after_enter(depth: nat) -> nat {
    if depth < usize::MAX {
        depth + 1
    } else {
        usize::MAX as nat
    }
}

/// Depth after leaving a native callback: one less, saturating at zero.
pub open spec fn depth_after_leave(depth: nat) -> nat {
    if depth > 0 {
        (depth - 1) as nat
    } else {
        0
    }
}

/// Nesting depth of native callbacks on one thread.
///
/// While the depth is positive the native world is locked, and every API that would touch it
/// must refuse with [`Error::InCallback`].
#[derive(Debug)]
pub struct CallbackState {
    depth: usize,
}

impl View for CallbackState {
    type V = nat;

    closed spec fn view(&self) -> nat {
        self.depth as nat
    }
}

impl CallbackState {
    /// The state of a thread that is not inside any callback.
    pub fn new() -> (s: Self)
        ensures
            s@ == 0,
    {
        CallbackState { depth: 0 }
    }

    /// The current nesting depth.
    pub fn depth(&self) -> (d: usize)
        ensures
            d == self@,
    {
        self.depth
    }

    /// Whether the thread is currently inside a callback.
    pub fn in_callback(&self) -> (b: bool)
        ensures
            b == (self@ > 0),
    {
        self.depth > 0
    }

    proof fn lemma_bounded(&self)
        ensures
            self@ <= usize::MAX,
    {
    }
}

/// Token for one entered callback scope; hand it back to [`CallbackGuard::leave`].
#[derive(Debug)]
pub struct CallbackGuard;

impl CallbackGuard {
    /// Enters a callback scope: the depth grows by one (saturating).
    pub fn enter(state: &mut CallbackState) -> (guard: CallbackGuard)
        ensures
            final(state)@ == depth_after_enter(old(state)@),
    {
        proof {
            old(state).lemma_bounded();
        }
        state.depth = state.depth.saturating_add(1);
        CallbackGuard
    }

    /// Leaves the callback scope this guard was entered for: the depth shrinks by one
    /// (saturating at zero).
    pub fn leave(self, state: &mut CallbackState)
        ensures
            final(state)@ == depth_after_leave(old(state)@),
    {
        state.depth = state.depth.saturating_sub(1);
    }
}

/// Whether the thread is inside a callback (the depth is positive).
pub fn in_callback(state: &CallbackState) -> (b: bool)
    ensures
        b == (state@ > 0),
{
    state.in_callback()
}

/// Refuses a call made from inside a callback; the panicking form of
/// [`check_not_in_callback`], callable only outside callbacks.
pub fn assert_not_in_callback(state: &CallbackState)
    requires
        state@ == 0,
{
    let inside = in_callback(state);
    assert(!inside);
}

/// `Err(Error::InCallback)` exactly when the thread is inside a callback.
pub fn check_not_in_callback(state: &CallbackState) -> (r: Result<(), Error>)
    ensures
        r == (if state@ > 0 {
            Err::<(), Error>(Error::InCallback)
        } else {
            Ok::<(), Error>(())
        }),
{
    if in_callback(state) {
        Err(Error::InCallback)
    } else {
        Ok(())
    }
}

/// Enters a callback scope on `state`, as the native trampolines do around user code.
pub fn enter_callback_guard_for_test(state: &mut CallbackState) -> (guard: CallbackGuard)
    ensures
        final(state)@ == depth_after_enter(old(state)@),
{
    CallbackGuard::enter(state)
}

/// Inside an entered callback scope every guarded API is refused.
pub proof fn lemma_inside_guard_is_in_callback(depth: nat)
    ensures
        depth_after_enter(depth) > 0,
{
}

/// Leaving a scope right after entering it restores the previous depth, as long as the depth
/// had not already saturated.
pub proof fn lemma_enter_then_leave_restores(depth: nat)
    requires
        depth < usize::MAX,
    ensures
        depth_after_leave(depth_after_enter(depth)) == depth,
{
}

/// After `n` nested scopes are entered and then all left again, a thread that started outside
/// every callback is outside again.
pub proof fn lemma_balanced_nesting(n: nat)
    requires
        n < usize::MAX,
    ensures
        leave_times(enter_times(0, n), n) == 0,
        n > 0 ==> enter_times(0, n) > 0,
    decreases n,
{
    lemma_enter_times_exact(0, n);
    lemma_leave_times_exact(n, n);
}

/// Depth after entering `n` nested scopes.
pub open spec fn enter_times(depth: nat, n: nat) -> nat
    decreases n,
{
    if n == 0 {
        depth
    } else {
        depth_after_enter(enter_times(depth, (n - 1) as nat))
    }
}

/// Depth after leaving `n` scopes.
pub open spec fn leave_times(depth: nat, n: nat) -> nat
    decreases n,
{
    if n == 0 {
        depth
    } else {
        depth_after_leave(leave_times(depth, (n - 1) as nat))
    }
}

proof fn lemma_enter_times_exact(depth: nat, n: nat)
    requires
        depth + n <= usize::MAX,
    ensures
        enter_times(depth, n) == depth + n,
    decreases n,
{
    if n > 0 {
        lemma_enter_times_exact(depth, (n - 1) as nat);
    }
}

proof fn lemma_leave_times_exact(depth: nat, n: nat)
    requires
        n <= depth,
    ensures
        leave_times(depth, n) == depth - n,
    decreases n,
{
    if n > 0 {
        lemma_leave_times_exact(depth, (n - 1) as nat);
    }
}

/// Depth after a run of scope events on one thread: `true` enters a scope, `false` leaves one.
pub open spec fn depth_after_events(depth: nat, events: Seq<bool>) -> nat
    decreases events.len(),
{
    if events.len() == 0 {
        depth
    } else {
        let d = depth_after_events(depth, events.drop_last());
        if events.last() {
            depth_after_enter(d)
        } else {
            depth_after_leave(d)
        }
    }
}

/// Scopes entered minus scopes left in a run of scope events.
pub open spec fn open_scopes(events: Seq<bool>) -> int
    decreases events.len(),
{
    if events.len() == 0 {
        0
    } else {
        open_scopes(events.drop_last()) + if events.last() {
            1int
        } else {
            -1int
        }
    }
}

/// Every leave closes a scope entered earlier (a guard is dropped only after it was created),
/// and fewer than `usize::MAX` scopes are ever open at once.
pub open spec fn well_nested(events: Seq<bool>) -> bool
    decreases events.len(),
{
    if events.len() == 0 {
        true
    } else {
        &&& well_nested(events.drop_last())
        &&& events.last() ==> open_scopes(events.drop_last()) < usize::MAX
        &&& !events.last() ==> open_scopes(events.drop_last()) > 0
    }
}

/// For any interleaving of entered and dropped guards on a thread, the depth is the number of
/// scopes entered minus the number left; so guarded APIs are refused exactly while that number
/// is positive (after two enters and one leave they are still refused).
pub proof fn lemma_depth_counts_open_scopes(events: Seq<bool>)
    requires
        well_nested(events),
    ensures
        depth_after_events(0, events) == open_scopes(events),
        (depth_after_events(0, events) > 0) <==> (open_scopes(events) > 0),
    decreases events.len(),
{
    if events.len() > 0 {
        lemma_depth_counts_open_scopes(events.drop_last());
    }
}

} // verus!
