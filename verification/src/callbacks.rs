use vstd::prelude::*;

use crate::callback_state::{check_not_in_callback, CallbackState};
use crate::error::Error;

verus! {

/// The user callbacks a world can carry.
#[derive(Clone, Copy, Debug, PartialEq, Eq, Structural)]
pub enum CallbackKind {
    CustomFilter,
    PreSolve,
    Friction,
    Restitution,
}

/// Registration and panic state of one world's user callbacks: for each kind, `None` when no
/// callback is registered, otherwise whether it panicked since the last reset; plus the shared
/// material-mixing slot that friction and restitution callbacks are dispatched through.
#[derive(Debug)]
pub struct WorldCallbacks {
    custom_filter: Option<bool>,
    pre_solve: Option<bool>,
    friction: Option<bool>,
    restitution: Option<bool>,
    material_slot: Option<usize>,
}

impl WorldCallbacks {
    /// Registration state of a callback kind: `None` when unregistered, otherwise its panic flag.
    pub closed spec fn state(&self, kind: CallbackKind) -> Option<bool> {
        match kind {
            CallbackKind::CustomFilter => self.custom_filter,
            CallbackKind::PreSolve => self.pre_solve,
            CallbackKind::Friction => self.friction,
            CallbackKind::Restitution => self.restitution,
        }
    }

    /// The material-mixing slot held by this world.
    pub closed spec fn slot(&self) -> Option<usize> {
        self.material_slot
    }

    /// A material slot is held exactly while a friction or restitution callback is registered.
    pub open spec fn wf(&self) -> bool {
        self.slot() is Some <==> (self.state(CallbackKind::Friction) is Some || self.state(
            CallbackKind::Restitution,
        ) is Some)
    }

    /// Whether some registered callback panicked since the last reset.
    pub open spec fn any_panicked(&self) -> bool {
        ||| self.state(CallbackKind::CustomFilter) == Some(true)
        ||| self.state(CallbackKind::PreSolve) == Some(true)
        ||| self.state(CallbackKind::Friction) == Some(true)
        ||| self.state(CallbackKind::Restitution) == Some(true)
    }

    /// `self` differs from `old` at most in the state of `kind`, which is now `state`.
    pub open spec fn updated(&self, old: &WorldCallbacks, kind: CallbackKind, state: Option<bool>) -> bool {
        forall|k: CallbackKind| #[trigger] self.state(k) == (if k == kind {
            state
        } else {
            old.state(k)
        })
    }

    /// No callback registered and no slot held.
    pub fn new() -> (c: Self)
        ensures
            c.wf(),
            forall|k: CallbackKind| #[trigger] c.state(k) is None,
            c.slot() is None,
    {
        WorldCallbacks {
            custom_filter: None,
            pre_solve: None,
            friction: None,
            restitution: None,
            material_slot: None,
        }
    }

    fn set_state(&mut self, kind: CallbackKind, state: Option<bool>)
        ensures
            final(self).updated(old(self), kind, state),
            final(self).slot() == old(self).slot(),
    {
        match kind {
            CallbackKind::CustomFilter => self.custom_filter = state,
            CallbackKind::PreSolve => self.pre_solve = state,
            CallbackKind::Friction => self.friction = state,
            CallbackKind::Restitution => self.restitution = state,
        }
    }

    /// Registration state of `kind`: `None` when unregistered, otherwise its panic flag.
    pub fn callback_state(&self, kind: CallbackKind) -> (s: Option<bool>)
        ensures
            s == self.state(kind),
    {
        match kind {
            CallbackKind::CustomFilter => self.custom_filter,
            CallbackKind::PreSolve => self.pre_solve,
            CallbackKind::Friction => self.friction,
            CallbackKind::Restitution => self.restitution,
        }
    }

    /// The material-mixing slot this world holds, if any; a slot is taken from the shared slot
    /// table only when this is `None`.
    pub fn material_slot(&self) -> (s: Option<usize>)
        ensures
            s == self.slot(),
    {
        self.material_slot
    }

    /// Whether a native trampoline calls the user callback of `kind`: only a registered callback
    /// that has not panicked during this step runs; otherwise the trampoline answers its default.
    pub fn callback_should_run(&self, kind: CallbackKind) -> (b: bool)
        ensures
            b == (self.state(kind) == Some(false)),
    {
        match self.callback_state(kind) {
            Some(panicked) => !panicked,
            None => false,
        }
    }

    /// Clears the panic flag of every registered callback before a world step.
    pub fn reset_panics(&mut self)
        requires
            old(self).wf(),
        ensures
            final(self).wf(),
            forall|k: CallbackKind| #[trigger] final(self).state(k) == (if old(self).state(k) is Some {
                Some(false)
            } else {
                None::<bool>
            }),
            final(self).slot() == old(self).slot(),
            !final(self).any_panicked(),
    {
        if self.custom_filter.is_some() {
            self.custom_filter = Some(false);
        }
        if self.pre_solve.is_some() {
            self.pre_solve = Some(false);
        }
        if self.friction.is_some() {
            self.friction = Some(false);
        }
        if self.restitution.is_some() {
            self.restitution = Some(false);
        }
    }

    /// Whether some registered callback panicked since the last reset.
    pub fn panicked(&self) -> (b: bool)
        ensures
            b == self.any_panicked(),
    {
        self.custom_filter == Some(true) || self.pre_solve == Some(true) || self.friction == Some(true)
            || self.restitution == Some(true)
    }

    /// Records that the registered callback of `kind` panicked; nothing changes when none is
    /// registered.
    pub fn record_panic(&mut self, kind: CallbackKind)
        requires
            old(self).wf(),
        ensures
            final(self).wf(),
            final(self).updated(
                old(self),
                kind,
                if old(self).state(kind) is Some {
                    Some(true)
                } else {
                    None::<bool>
                },
            ),
            final(self).slot() == old(self).slot(),
    {
        if self.callback_state(kind).is_some() {
            self.set_state(kind, Some(true));
        } else {
            self.set_state(kind, None);
        }
    }

    /// Registers (or replaces) the custom filter or pre-solve callback.
    pub fn set_plain(&mut self, kind: CallbackKind)
        requires
            old(self).wf(),
            kind == CallbackKind::CustomFilter || kind == CallbackKind::PreSolve,
        ensures
            final(self).wf(),
            final(self).updated(old(self), kind, Some(false)),
            final(self).slot() == old(self).slot(),
    {
        self.set_state(kind, Some(false));
    }

    /// Unregisters the custom filter or pre-solve callback.
    pub fn clear_plain(&mut self, kind: CallbackKind)
        requires
            old(self).wf(),
            kind == CallbackKind::CustomFilter || kind == CallbackKind::PreSolve,
        ensures
            final(self).wf(),
            final(self).updated(old(self), kind, None),
            final(self).slot() == old(self).slot(),
    {
        self.set_state(kind, None);
    }

    /// Registers (or replaces) the friction or restitution callback. The world's material slot
    /// is reused when it holds one (and then no slot is taken from the shared slot table, so
    /// `acquired` is `None`); otherwise `acquired` is the slot just taken from the shared slot
    /// table, `None` when the table is full, which is refused with
    /// [`Error::CallbackSlotsExhausted`]. Returns the slot the native callback dispatches through.
    pub fn set_material_mix(&mut self, kind: CallbackKind, acquired: Option<usize>) -> (r: Result<
        usize,
        Error,
    >)
        requires
            old(self).wf(),
            kind == CallbackKind::Friction || kind == CallbackKind::Restitution,
            old(self).slot() is Some ==> acquired is None,
        ensures
            final(self).wf(),
            old(self).slot() matches Some(s) ==> r == Ok::<usize, Error>(s) && final(self).slot()
                == old(self).slot(),
            old(self).slot() is None && acquired is None ==> r == Err::<usize, Error>(
                Error::CallbackSlotsExhausted,
            ) && *final(self) == *old(self),
            old(self).slot() is None && acquired is Some ==> r == Ok::<usize, Error>(acquired->0)
                && final(self).slot() == acquired,
            r is Ok ==> final(self).updated(old(self), kind, Some(false)),
    {
        let slot = match self.material_slot {
            Some(s) => s,
            None => {
                match acquired {
                    Some(s) => {
                        self.material_slot = Some(s);
                        s
                    },
                    None => {
                        return Err(Error::CallbackSlotsExhausted);
                    },
                }
            },
        };
        self.set_state(kind, Some(false));
        Ok(slot)
    }

    /// Unregisters the friction or restitution callback. When neither remains, the world gives
    /// up its material slot, which is returned to be released.
    pub fn clear_material_mix(&mut self, kind: CallbackKind) -> (released: Option<usize>)
        requires
            old(self).wf(),
            kind == CallbackKind::Friction || kind == CallbackKind::Restitution,
        ensures
            final(self).wf(),
            final(self).updated(old(self), kind, None),
            (final(self).state(CallbackKind::Friction) is None && final(self).state(
                CallbackKind::Restitution,
            ) is None) ==> released == old(self).slot() && final(self).slot() is None,
            !(final(self).state(CallbackKind::Friction) is None && final(self).state(
                CallbackKind::Restitution,
            ) is None) ==> released is None && final(self).slot() == old(self).slot(),
    {
        self.set_state(kind, None);
        if self.friction.is_none() && self.restitution.is_none() {
            let ghost mid = *self;
            let released = self.material_slot;
            self.material_slot = None;
            assert forall|k: CallbackKind| #[trigger] self.state(k) == mid.state(k) by {}
            released
        } else {
            None
        }
    }

    /// Unregisters every callback (the world is going away) and returns the material slot to
    /// release, if one was held.
    pub fn clear_all(&mut self) -> (released: Option<usize>)
        requires
            old(self).wf(),
        ensures
            final(self).wf(),
            forall|k: CallbackKind| #[trigger] final(self).state(k) is None,
            final(self).slot() is None,
            released == old(self).slot(),
    {
        self.custom_filter = None;
        self.pre_solve = None;
        self.friction = None;
        self.restitution = None;
        let released = self.material_slot;
        self.material_slot = None;
        released
    }
}

/// Decides whether a world's callback registration may go ahead, in the order the world's
/// registration APIs check: a call from inside a callback is refused with [`Error::InCallback`]
/// before anything else; then the validity check of the native world (`world_check`) decides.
/// Only when this returns `Ok` is the registration changed (and a material slot taken).
pub fn check_callback_registration(thread: &CallbackState, world_check: Result<(), Error>) -> (r: Result<
    (),
    Error,
>)
    ensures
        r == (if thread@ > 0 {
            Err::<(), Error>(Error::InCallback)
        } else {
            world_check
        }),
{
    check_not_in_callback(thread)?;
    world_check
}

} // verus!
