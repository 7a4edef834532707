use vstd::prelude::*;

use crate::callback_state::{
    check_not_in_callback, depth_after_enter, depth_after_leave, CallbackGuard, CallbackState,
};
use crate::error::Error;

verus! {

/// A task counter after one more event: `fetch_add(1)` semantics, wrapping at `usize::MAX`.
pub open spec fn counter_next(count: usize) -> usize {
    if count == usize::MAX {
        0
    } else {
        (count + 1) as usize
    }
}

fn bump(count: usize) -> (next: usize)
    ensures
        next == counter_next(count),
{
    count.wrapping_add(1)
}

/// Fault injected by a scheduler built for tests; `NoFault` for the production scheduler.
#[derive(Clone, Copy, Debug, PartialEq, Eq, Structural)]
pub enum FaultMode {
    NoFault,
    PanicOnEnqueue,
    PanicOnTask,
    PanicOnFinish,
    CheckCallbackGuard,
}

/// Snapshot of a [`TaskSystem`]'s task counters.
#[derive(Clone, Copy, Debug, PartialEq, Eq, Structural)]
pub struct TaskSystemStats {
    /// Number of tasks enqueued.
    pub enqueued: usize,
    /// Number of tasks started.
    pub started: usize,
    /// Number of tasks completed.
    pub completed: usize,
    /// Number of `finishTask` callbacks observed.
    pub finished: usize,
    /// Whether a task callback panicked since the last reset.
    pub panicked: bool,
}

impl Default for TaskSystemStats {
    fn default() -> (s: Self)
        ensures
            s.enqueued == 0 && s.started == 0 && s.completed == 0 && s.finished == 0 && !s.panicked,
    {
        TaskSystemStats { enqueued: 0, started: 0, completed: 0, finished: 0, panicked: false }
    }
}

/// What the native `enqueueTask` callback must do with a task.
#[derive(Clone, Copy, Debug, PartialEq, Eq, Structural)]
pub enum EnqueueAction {
    /// No task callback was given: return a null handle.
    Skip,
    /// Run the task inline, then report a panic and return a null handle.
    RunInlineThenPanic,
    /// Run the task on its own blocking thread and return its handle (run it inline and return
    /// a null handle if the thread cannot be spawned).
    Spawn,
}

/// What the native `enqueueTask` callback does with a task under a scheduler's fault mode.
pub open spec fn enqueue_action(fault_mode: FaultMode, has_task: bool) -> EnqueueAction {
    if !has_task {
        EnqueueAction::Skip
    } else if fault_mode == FaultMode::PanicOnEnqueue {
        EnqueueAction::RunInlineThenPanic
    } else {
        EnqueueAction::Spawn
    }
}

/// Bookkeeping of the blocking-thread task scheduler installed on a world.
///
/// The scheduler's threads live outside the library; every decision they take (counting,
/// panic containment, fault injection, callback-guard checks) is made here.
#[derive(Debug)]
pub struct TaskSystem {
    fault_mode: FaultMode,
    panicked: bool,
    enqueued: usize,
    started: usize,
    completed: usize,
    finished: usize,
    guard_rejections: usize,
}

impl TaskSystem {
    pub closed spec fn spec_fault_mode(&self) -> FaultMode {
        self.fault_mode
    }

    pub closed spec fn spec_panicked(&self) -> bool {
        self.panicked
    }

    pub closed spec fn spec_enqueued(&self) -> usize {
        self.enqueued
    }

    pub closed spec fn spec_started(&self) -> usize {
        self.started
    }

    pub closed spec fn spec_completed(&self) -> usize {
        self.completed
    }

    pub closed spec fn spec_finished(&self) -> usize {
        self.finished
    }

    pub closed spec fn spec_guard_rejections(&self) -> usize {
        self.guard_rejections
    }

    /// `self` is `old` after one enqueue: only the enqueue counter moved.
    pub open spec fn enqueued_from(&self, old: &TaskSystem) -> bool {
        &&& self.spec_enqueued() == counter_next(old.spec_enqueued())
        &&& self.spec_panicked() == old.spec_panicked()
        &&& self.spec_fault_mode() == old.spec_fault_mode()
        &&& self.spec_started() == old.spec_started()
        &&& self.spec_completed() == old.spec_completed()
        &&& self.spec_finished() == old.spec_finished()
        &&& self.spec_guard_rejections() == old.spec_guard_rejections()
    }

    /// `self` is `old` after a task began: it is counted as started, and the guard-checking
    /// scheduler counts the refusal the task meets inside its callback scope.
    pub open spec fn began_from(&self, old: &TaskSystem) -> bool {
        &&& self.spec_started() == counter_next(old.spec_started())
        &&& self.spec_guard_rejections() == (if old.spec_fault_mode() == FaultMode::CheckCallbackGuard {
            counter_next(old.spec_guard_rejections())
        } else {
            old.spec_guard_rejections()
        })
        &&& self.spec_panicked() == old.spec_panicked()
        &&& self.spec_fault_mode() == old.spec_fault_mode()
        &&& self.spec_enqueued() == old.spec_enqueued()
        &&& self.spec_completed() == old.spec_completed()
        &&& self.spec_finished() == old.spec_finished()
    }

    /// `self` is `old` after a task ended, having panicked or not.
    pub open spec fn ended_from(&self, old: &TaskSystem, task_panicked: bool) -> bool {
        &&& self.spec_completed() == counter_next(old.spec_completed())
        &&& self.spec_panicked() == (old.spec_panicked() || task_panicked || old.spec_fault_mode()
            == FaultMode::PanicOnTask)
        &&& self.spec_fault_mode() == old.spec_fault_mode()
        &&& self.spec_enqueued() == old.spec_enqueued()
        &&& self.spec_started() == old.spec_started()
        &&& self.spec_finished() == old.spec_finished()
        &&& self.spec_guard_rejections() == old.spec_guard_rejections()
    }

    /// `self` is `old` after the native `finishTask` callback for one handle.
    pub open spec fn finished_from(&self, old: &TaskSystem, has_handle: bool, join_failed: bool) -> bool {
        &&& !has_handle ==> *self == *old
        &&& has_handle ==> self.spec_finished() == counter_next(old.spec_finished())
        &&& has_handle ==> self.spec_panicked() == (old.spec_panicked() || join_failed
            || old.spec_fault_mode() == FaultMode::PanicOnFinish)
        &&& self.spec_fault_mode() == old.spec_fault_mode()
        &&& self.spec_enqueued() == old.spec_enqueued()
        &&& self.spec_started() == old.spec_started()
        &&& self.spec_completed() == old.spec_completed()
        &&& self.spec_guard_rejections() == old.spec_guard_rejections()
    }

    /// The counters of a scheduler with no task in flight agree: every started task completed,
    /// no more tasks started or finished than were enqueued, and refusals are counted for every
    /// started task by the guard-checking scheduler and for none by the others.
    pub open spec fn counters_consistent(&self) -> bool {
        &&& self.spec_started() == self.spec_completed()
        &&& self.spec_started() <= self.spec_enqueued()
        &&& self.spec_finished() <= self.spec_enqueued()
        &&& self.spec_guard_rejections() == (if self.spec_fault_mode() == FaultMode::CheckCallbackGuard {
            self.spec_started()
        } else {
            0
        })
    }

    /// A scheduler with the given fault mode and all counters at zero.
    pub open spec fn is_fresh(&self, fault_mode: FaultMode) -> bool {
        &&& self.spec_fault_mode() == fault_mode
        &&& !self.spec_panicked()
        &&& self.spec_enqueued() == 0
        &&& self.spec_started() == 0
        &&& self.spec_completed() == 0
        &&& self.spec_finished() == 0
        &&& self.spec_guard_rejections() == 0
    }

    /// Everything but the panic flag is unchanged from `other`.
    pub open spec fn same_counters(&self, other: &TaskSystem) -> bool {
        &&& self.spec_fault_mode() == other.spec_fault_mode()
        &&& self.spec_enqueued() == other.spec_enqueued()
        &&& self.spec_started() == other.spec_started()
        &&& self.spec_completed() == other.spec_completed()
        &&& self.spec_finished() == other.spec_finished()
        &&& self.spec_guard_rejections() == other.spec_guard_rejections()
    }

    /// A scheduler that injects `fault_mode`, with all counters at zero.
    pub fn new(fault_mode: FaultMode) -> (s: Self)
        ensures
            s.is_fresh(fault_mode),
    {
        TaskSystem {
            fault_mode,
            panicked: false,
            enqueued: 0,
            started: 0,
            completed: 0,
            finished: 0,
            guard_rejections: 0,
        }
    }

    /// The production scheduler: each task runs on its own blocking thread.
    pub fn blocking_threads() -> (s: Self)
        ensures
            s.is_fresh(FaultMode::NoFault),
    {
        Self::new(FaultMode::NoFault)
    }

    /// Creates the blocking-thread scheduler; native targets always support it.
    pub fn try_blocking_threads() -> (r: Result<Self, Error>)
        ensures
            r is Ok,
            r matches Ok(s) ==> s.is_fresh(FaultMode::NoFault),
    {
        Ok(Self::blocking_threads())
    }

    /// The fault this scheduler injects.
    pub fn fault_mode(&self) -> (m: FaultMode)
        ensures
            m == self.spec_fault_mode(),
    {
        self.fault_mode
    }

    /// Counters for diagnostics and tests.
    pub fn stats(&self) -> (s: TaskSystemStats)
        ensures
            s.enqueued == self.spec_enqueued(),
            s.started == self.spec_started(),
            s.completed == self.spec_completed(),
            s.finished == self.spec_finished(),
            s.panicked == self.spec_panicked(),
    {
        TaskSystemStats {
            enqueued: self.enqueued,
            started: self.started,
            completed: self.completed,
            finished: self.finished,
            panicked: self.panicked,
        }
    }

    /// How many tasks found the callback guard refusing world access while they ran.
    pub fn __guard_rejections_for_test(&self) -> (n: usize)
        ensures
            n == self.spec_guard_rejections(),
    {
        self.guard_rejections
    }

    /// Clears the panic flag before a world step.
    pub fn reset_panics(&mut self)
        ensures
            !final(self).spec_panicked(),
            final(self).same_counters(old(self)),
    {
        self.panicked = false;
    }

    /// Whether a task callback panicked since the last reset.
    pub fn panicked(&self) -> (b: bool)
        ensures
            b == self.spec_panicked(),
    {
        self.panicked
    }

    /// Records that a task callback panicked.
    pub fn mark_panicked(&mut self)
        ensures
            final(self).spec_panicked(),
            final(self).same_counters(old(self)),
    {
        self.panicked = true;
    }

    /// Decides what the native `enqueueTask` callback does; counts the enqueue.
    pub fn enqueue(&mut self, has_task: bool) -> (action: EnqueueAction)
        ensures
            action == enqueue_action(old(self).spec_fault_mode(), has_task),
            final(self).enqueued_from(old(self)),
            final(self).spec_enqueued() == counter_next(old(self).spec_enqueued()),
            final(self).spec_panicked() == old(self).spec_panicked(),
            final(self).spec_fault_mode() == old(self).spec_fault_mode(),
            final(self).spec_started() == old(self).spec_started(),
            final(self).spec_completed() == old(self).spec_completed(),
            final(self).spec_finished() == old(self).spec_finished(),
            final(self).spec_guard_rejections() == old(self).spec_guard_rejections(),
    {
        self.enqueued = bump(self.enqueued);
        if !has_task {
            EnqueueAction::Skip
        } else if self.fault_mode == FaultMode::PanicOnEnqueue {
            EnqueueAction::RunInlineThenPanic
        } else {
            EnqueueAction::Spawn
        }
    }

    /// Starts running one task: counts it and enters the callback scope the task runs in.
    /// A scheduler that checks the callback guard counts a rejection when guarded APIs are
    /// refused inside the task.
    pub fn begin_task(&mut self, callbacks: &mut CallbackState) -> (guard: CallbackGuard)
        ensures
            final(callbacks)@ == depth_after_enter(old(callbacks)@),
            final(self).began_from(old(self)),
            final(self).spec_started() == counter_next(old(self).spec_started()),
            old(self).spec_fault_mode() == FaultMode::CheckCallbackGuard ==> final(self).spec_guard_rejections()
                == counter_next(old(self).spec_guard_rejections()),
            final(self).spec_guard_rejections() == (if old(self).spec_fault_mode()
                == FaultMode::CheckCallbackGuard && final(callbacks)@ > 0 {
                counter_next(old(self).spec_guard_rejections())
            } else {
                old(self).spec_guard_rejections()
            }),
            final(self).spec_panicked() == old(self).spec_panicked(),
            final(self).spec_fault_mode() == old(self).spec_fault_mode(),
            final(self).spec_enqueued() == old(self).spec_enqueued(),
            final(self).spec_completed() == old(self).spec_completed(),
            final(self).spec_finished() == old(self).spec_finished(),
    {
        self.started = bump(self.started);
        let guard = CallbackGuard::enter(callbacks);
        if self.fault_mode == FaultMode::CheckCallbackGuard {
            if let Err(Error::InCallback) = check_not_in_callback(callbacks) {
                self.guard_rejections = bump(self.guard_rejections);
            }
        }
        guard
    }

    /// Ends a task started by [`Self::begin_task`]: leaves its callback scope, records a panic
    /// (the task's own, or the one a panic-on-task scheduler injects), and counts the completion.
    pub fn end_task(&mut self, guard: CallbackGuard, callbacks: &mut CallbackState, task_panicked: bool)
        ensures
            final(callbacks)@ == depth_after_leave(old(callbacks)@),
            final(self).ended_from(old(self), task_panicked),
            final(self).spec_completed() == counter_next(old(self).spec_completed()),
            final(self).spec_panicked() == (old(self).spec_panicked() || task_panicked
                || old(self).spec_fault_mode() == FaultMode::PanicOnTask),
            final(self).spec_fault_mode() == old(self).spec_fault_mode(),
            final(self).spec_enqueued() == old(self).spec_enqueued(),
            final(self).spec_started() == old(self).spec_started(),
            final(self).spec_finished() == old(self).spec_finished(),
            final(self).spec_guard_rejections() == old(self).spec_guard_rejections(),
    {
        guard.leave(callbacks);
        if task_panicked || self.fault_mode == FaultMode::PanicOnTask {
            self.mark_panicked();
        }
        self.completed = bump(self.completed);
    }

    /// Handles the native `finishTask` callback for one handle. A null handle (no spawned task)
    /// changes nothing; otherwise a failed join counts as a panic, the finish is counted, and a
    /// panic-on-finish scheduler reports a panic.
    pub fn finish(&mut self, has_handle: bool, join_failed: bool)
        ensures
            final(self).finished_from(old(self), has_handle, join_failed),
            !has_handle ==> *final(self) == *old(self),
            has_handle ==> final(self).spec_finished() == counter_next(old(self).spec_finished()),
            has_handle ==> final(self).spec_panicked() == (old(self).spec_panicked() || join_failed
                || old(self).spec_fault_mode() == FaultMode::PanicOnFinish),
            final(self).spec_fault_mode() == old(self).spec_fault_mode(),
            final(self).spec_enqueued() == old(self).spec_enqueued(),
            final(self).spec_started() == old(self).spec_started(),
            final(self).spec_completed() == old(self).spec_completed(),
            final(self).spec_guard_rejections() == old(self).spec_guard_rejections(),
    {
        if !has_handle {
            return;
        }
        if join_failed {
            self.mark_panicked();
        }
        self.finished = bump(self.finished);
        if self.fault_mode == FaultMode::PanicOnFinish {
            self.mark_panicked();
        }
    }

    /// A scheduler that panics while enqueueing each task.
    pub fn __panic_on_enqueue_for_test() -> (s: Self)
        ensures
            s.is_fresh(FaultMode::PanicOnEnqueue),
    {
        Self::new(FaultMode::PanicOnEnqueue)
    }

    /// A scheduler that panics after running each task.
    pub fn __panic_on_task_for_test() -> (s: Self)
        ensures
            s.is_fresh(FaultMode::PanicOnTask),
    {
        Self::new(FaultMode::PanicOnTask)
    }

    /// A scheduler that panics while finishing each task.
    pub fn __panic_on_finish_for_test() -> (s: Self)
        ensures
            s.is_fresh(FaultMode::PanicOnFinish),
    {
        Self::new(FaultMode::PanicOnFinish)
    }

    /// A scheduler that counts how often the callback guard refuses world access inside tasks.
    pub fn __check_callback_guard_for_test() -> (s: Self)
        ensures
            s.is_fresh(FaultMode::CheckCallbackGuard),
    {
        Self::new(FaultMode::CheckCallbackGuard)
    }
}

/// A scheduler that panics while enqueueing each task.
pub fn task_system_panic_on_enqueue_for_test() -> (s: TaskSystem)
    ensures
        s.is_fresh(FaultMode::PanicOnEnqueue),
{
    TaskSystem::__panic_on_enqueue_for_test()
}

/// A scheduler that panics after running each task.
pub fn task_system_panic_on_task_for_test() -> (s: TaskSystem)
    ensures
        s.is_fresh(FaultMode::PanicOnTask),
{
    TaskSystem::__panic_on_task_for_test()
}

/// A scheduler that panics while finishing each task.
pub fn task_system_panic_on_finish_for_test() -> (s: TaskSystem)
    ensures
        s.is_fresh(FaultMode::PanicOnFinish),
{
    TaskSystem::__panic_on_finish_for_test()
}

/// A scheduler that counts callback-guard refusals inside tasks.
pub fn task_system_check_callback_guard_for_test() -> (s: TaskSystem)
    ensures
        s.is_fresh(FaultMode::CheckCallbackGuard),
{
    TaskSystem::__check_callback_guard_for_test()
}

/// How many callback-guard refusals `task_system` has counted.
pub fn task_system_guard_rejections_for_test(task_system: &TaskSystem) -> (n: usize)
    ensures
        n == task_system.spec_guard_rejections(),
{
    task_system.__guard_rejections_for_test()
}

/// Longest thread-name suffix taken from a native task name, in characters.
pub const TASK_NAME_MAX_CHARS: usize = 48;

/// `String::push` from std: appends `c` to the end of `s`.
#[verifier::external_body]
fn push_char(s: &mut String, c: char)
    ensures
        final(s)@ == old(s)@.push(c),
{
    s.push(c);
}

/// The characters of a task name used in a thread name: interior NUL characters become `_`.
pub open spec fn thread_name_char(c: char) -> char {
    if c == '\0' {
        '_'
    } else {
        c
    }
}

/// The thread-name suffix for a native task name: its first characters with NULs replaced, or
/// `unnamed` when the task has no name.
pub open spec fn task_thread_suffix(task_name: Option<Seq<char>>) -> Seq<char> {
    match task_name {
        Some(name) => name.take(
            if name.len() < TASK_NAME_MAX_CHARS {
                name.len() as int
            } else {
                TASK_NAME_MAX_CHARS as int
            },
        ).map_values(|c: char| thread_name_char(c)),
        None => "unnamed"@,
    }
}

/// The name of the thread that runs a native task: `boxddd-task-` followed by the task's name
/// (at most 48 characters, NULs replaced by `_`), or by `unnamed`.
pub fn task_thread_name(task_name: Option<&str>) -> (name: String)
    ensures
        name@ == "boxddd-task-"@ + task_thread_suffix(
            match task_name {
                Some(t) => Some(t@),
                None => None,
            },
        ),
{
    let mut name = String::from_str("boxddd-task-");
    match task_name {
        None => {
            name.append("unnamed");
        },
        Some(t) => {
            let len = t.unicode_len();
            let n = if len < TASK_NAME_MAX_CHARS {
                len
            } else {
                TASK_NAME_MAX_CHARS
            };
            let ghost prefix = name@;
            let mut i: usize = 0;
            while i < n
                invariant
                    i <= n,
                    n <= t@.len(),
                    name@ == prefix + t@.take(i as int).map_values(|c: char| thread_name_char(c)),
                decreases n - i,
            {
                let c = t.get_char(i);
                let mapped = if c == '\0' {
                    '_'
                } else {
                    c
                };
                push_char(&mut name, mapped);
                proof {
                    assert(t@.take(i + 1).map_values(|c: char| thread_name_char(c)) =~= t@.take(
                        i as int,
                    ).map_values(|c: char| thread_name_char(c)).push(mapped));
                }
                i = i + 1;
            }
        },
    }
    name
}

/// A fresh scheduler's counters agree.
pub proof fn lemma_fresh_counters_consistent(t: TaskSystem, fault_mode: FaultMode)
    requires
        t.is_fresh(fault_mode),
    ensures
        t.counters_consistent(),
{
}

/// One task round keeps a scheduler's counters in agreement and never lowers a counter. A round
/// is what one native `enqueueTask` call leads to: the enqueue (`t0` to `t1`); unless the task is
/// skipped, its run from begin to end (`t1` to `t3` through `t2`), possibly followed by a panic
/// report that leaves the counters alone (`t3` to `t_reported`); and the native `finishTask` for
/// its handle, which exists only for a spawned task (`t_reported` to `t4`). Counters are assumed
/// not to wrap: fewer than `usize::MAX` tasks were enqueued before the round.
pub proof fn lemma_task_round_keeps_counters(
    t0: TaskSystem,
    t1: TaskSystem,
    t2: TaskSystem,
    t3: TaskSystem,
    t_reported: TaskSystem,
    t4: TaskSystem,
    has_task: bool,
    task_panicked: bool,
    has_handle: bool,
    join_failed: bool,
)
    requires
        t0.counters_consistent(),
        t0.spec_enqueued() < usize::MAX,
        t1.enqueued_from(&t0),
        enqueue_action(t0.spec_fault_mode(), has_task) == EnqueueAction::Skip ==> t3.same_counters(&t1),
        enqueue_action(t0.spec_fault_mode(), has_task) != EnqueueAction::Skip ==> t2.began_from(&t1)
            && t3.ended_from(&t2, task_panicked),
        t_reported.same_counters(&t3),
        has_handle ==> enqueue_action(t0.spec_fault_mode(), has_task) == EnqueueAction::Spawn,
        t4.finished_from(&t_reported, has_handle, join_failed),
    ensures
        t4.counters_consistent(),
        t4.spec_fault_mode() == t0.spec_fault_mode(),
        t4.spec_enqueued() == t0.spec_enqueued() + 1,
        t4.spec_started() >= t0.spec_started(),
        t4.spec_completed() >= t0.spec_completed(),
        t4.spec_finished() >= t0.spec_finished(),
        t4.spec_guard_rejections() >= t0.spec_guard_rejections(),
{
}

/// One event of a scheduler's bookkeeping. The engine's enqueue and finish callbacks and the
/// task threads produce these in any interleaving.
#[derive(Clone, Copy, Debug, PartialEq, Eq, Structural)]
pub enum TaskEvent {
    /// [`TaskSystem::enqueue`].
    Enqueue { has_task: bool },
    /// [`TaskSystem::begin_task`].
    Begin,
    /// [`TaskSystem::end_task`].
    End { task_panicked: bool },
    /// [`TaskSystem::mark_panicked`].
    ReportPanic,
    /// [`TaskSystem::finish`].
    Finish { has_handle: bool, join_failed: bool },
}

impl TaskSystem {
    /// `self` is what `old` becomes through `event`, as the contracts of the scheduler's
    /// functions describe it.
    pub open spec fn stepped_by(&self, old: &TaskSystem, event: TaskEvent) -> bool {
        match event {
            TaskEvent::Enqueue { has_task } => self.enqueued_from(old),
            TaskEvent::Begin => self.began_from(old),
            TaskEvent::End { task_panicked } => self.ended_from(old, task_panicked),
            TaskEvent::ReportPanic => self.spec_panicked() && self.same_counters(old),
            TaskEvent::Finish { has_handle, join_failed } => self.finished_from(old, has_handle, join_failed),
        }
    }
}

/// Tasks handed to the scheduler to run but not yet begun, after `events`.
pub open spec fn tasks_waiting(fault_mode: FaultMode, events: Seq<TaskEvent>) -> int
    decreases events.len(),
{
    if events.len() == 0 {
        0
    } else {
        let w = tasks_waiting(fault_mode, events.drop_last());
        match events.last() {
            TaskEvent::Enqueue { has_task } => if enqueue_action(fault_mode, has_task) != EnqueueAction::Skip {
                w + 1
            } else {
                w
            },
            TaskEvent::Begin => w - 1,
            _ => w,
        }
    }
}

/// Tasks begun but not yet ended, after `events`.
pub open spec fn tasks_running(events: Seq<TaskEvent>) -> int
    decreases events.len(),
{
    if events.len() == 0 {
        0
    } else {
        let r = tasks_running(events.drop_last());
        match events.last() {
            TaskEvent::Begin => r + 1,
            TaskEvent::End { .. } => r - 1,
            _ => r,
        }
    }
}

/// Handles that may have been handed out for spawned tasks and not yet finished, after
/// `events`.
pub open spec fn handles_open(fault_mode: FaultMode, events: Seq<TaskEvent>) -> int
    decreases events.len(),
{
    if events.len() == 0 {
        0
    } else {
        let h = handles_open(fault_mode, events.drop_last());
        match events.last() {
            TaskEvent::Enqueue { has_task } => if enqueue_action(fault_mode, has_task) == EnqueueAction::Spawn {
                h + 1
            } else {
                h
            },
            TaskEvent::Finish { has_handle, .. } => if has_handle {
                h - 1
            } else {
                h
            },
            _ => h,
        }
    }
}

/// Number of enqueues among `events`.
pub open spec fn enqueue_count(events: Seq<TaskEvent>) -> int
    decreases events.len(),
{
    if events.len() == 0 {
        0
    } else {
        enqueue_count(events.drop_last()) + if events.last() is Enqueue {
            1int
        } else {
            0int
        }
    }
}

/// Whether `event` may follow `before`: a task begins only once it was handed over, ends only
/// once it began, and a handle is finished only once it was handed out.
pub open spec fn task_event_allowed(fault_mode: FaultMode, before: Seq<TaskEvent>, event: TaskEvent) -> bool {
    match event {
        TaskEvent::Begin => tasks_waiting(fault_mode, before) > 0,
        TaskEvent::End { .. } => tasks_running(before) > 0,
        TaskEvent::Finish { has_handle, .. } => has_handle ==> handles_open(fault_mode, before) > 0,
        _ => true,
    }
}

/// Every event of `events` is allowed after the ones before it.
pub open spec fn task_protocol(fault_mode: FaultMode, events: Seq<TaskEvent>) -> bool {
    forall|i: int| #![trigger events[i]]
        0 <= i < events.len() ==> task_event_allowed(fault_mode, events.take(i), events[i])
}

/// What the counters of a scheduler say after the events `before`.
pub open spec fn counters_track(t: TaskSystem, fault_mode: FaultMode, before: Seq<TaskEvent>) -> bool {
    &&& t.spec_fault_mode() == fault_mode
    &&& tasks_waiting(fault_mode, before) >= 0
    &&& tasks_running(before) >= 0
    &&& handles_open(fault_mode, before) >= 0
    &&& t.spec_enqueued() == enqueue_count(before)
    &&& t.spec_started() == t.spec_completed() + tasks_running(before)
    &&& t.spec_started() + tasks_waiting(fault_mode, before) <= t.spec_enqueued()
    &&& t.spec_finished() + handles_open(fault_mode, before) <= t.spec_enqueued()
    &&& t.spec_guard_rejections() == (if fault_mode == FaultMode::CheckCallbackGuard {
        t.spec_started()
    } else {
        0
    })
}

proof fn lemma_enqueue_count_prefix(events: Seq<TaskEvent>, k: int)
    requires
        0 <= k <= events.len(),
    ensures
        enqueue_count(events.take(k)) <= enqueue_count(events),
    decreases events.len() - k,
{
    if k < events.len() {
        lemma_enqueue_count_prefix(events, k + 1);
        assert(events.take(k + 1).drop_last() =~= events.take(k));
    } else {
        assert(events.take(k) =~= events);
    }
}

proof fn lemma_counters_track_upto(ts: Seq<TaskSystem>, events: Seq<TaskEvent>, k: int)
    requires
        ts.len() == events.len() + 1,
        forall|i: int| #![trigger events[i]] 0 <= i < events.len() ==> ts[i + 1].stepped_by(&ts[i], events[i]),
        ts[0].is_fresh(ts[0].spec_fault_mode()),
        task_protocol(ts[0].spec_fault_mode(), events),
        enqueue_count(events) < usize::MAX,
        0 <= k < ts.len(),
    ensures
        counters_track(ts[k], ts[0].spec_fault_mode(), events.take(k)),
    decreases k,
{
    let mode = ts[0].spec_fault_mode();
    if k == 0 {
        assert(events.take(0) =~= Seq::<TaskEvent>::empty());
    } else {
        lemma_counters_track_upto(ts, events, k - 1);
        let e = events[k - 1];
        let before = events.take(k - 1);
        let after = events.take(k);
        assert(after.drop_last() =~= before);
        assert(after.last() == e);
        assert(task_event_allowed(mode, events.take(k - 1), e));
        assert(ts[k].stepped_by(&ts[k - 1], e));
        lemma_enqueue_count_prefix(events, k);
    }
}

/// The scheduler's counters track the tasks in flight, whatever order the enqueues, task runs
/// and finishes come in: started minus completed is the number of tasks running, started plus
/// the tasks still waiting to run stays at or below enqueued, finished plus the handles still
/// open stays at or below enqueued, and the guard-checking scheduler counts one refusal per
/// started task while every other scheduler counts none. So whenever no task is running the
/// counters agree, and no counter ever goes down. Counters are assumed not to wrap: fewer than
/// `usize::MAX` tasks are enqueued.
pub proof fn lemma_task_counters_track_flight(ts: Seq<TaskSystem>, events: Seq<TaskEvent>)
    requires
        ts.len() == events.len() + 1,
        forall|i: int| #![trigger events[i]] 0 <= i < events.len() ==> ts[i + 1].stepped_by(&ts[i], events[i]),
        ts[0].is_fresh(ts[0].spec_fault_mode()),
        task_protocol(ts[0].spec_fault_mode(), events),
        enqueue_count(events) < usize::MAX,
    ensures
        forall|k: int|
            0 <= k < ts.len() ==> counters_track(#[trigger] ts[k], ts[0].spec_fault_mode(), events.take(k)),
        forall|k: int|
            0 <= k < ts.len() && tasks_running(events.take(k)) == 0 ==> (#[trigger] ts[k]).counters_consistent(),
        forall|k: int|
            0 <= k < events.len() ==> {
                &&& ts[k].spec_enqueued() <= ts[k + 1].spec_enqueued()
                &&& ts[k].spec_started() <= ts[k + 1].spec_started()
                &&& ts[k].spec_completed() <= ts[k + 1].spec_completed()
                &&& ts[k].spec_finished() <= ts[k + 1].spec_finished()
                &&& ts[k].spec_guard_rejections() <= #[trigger] ts[k + 1].spec_guard_rejections()
            },
{
    assert forall|k: int| 0 <= k < ts.len() implies counters_track(
        #[trigger] ts[k],
        ts[0].spec_fault_mode(),
        events.take(k),
    ) by {
        lemma_counters_track_upto(ts, events, k);
    }
    assert forall|k: int| 0 <= k < events.len() implies {
        &&& ts[k].spec_enqueued() <= ts[k + 1].spec_enqueued()
        &&& ts[k].spec_started() <= ts[k + 1].spec_started()
        &&& ts[k].spec_completed() <= ts[k + 1].spec_completed()
        &&& ts[k].spec_finished() <= ts[k + 1].spec_finished()
        &&& ts[k].spec_guard_rejections() <= #[trigger] ts[k + 1].spec_guard_rejections()
    } by {
        lemma_counters_track_upto(ts, events, k);
        lemma_counters_track_upto(ts, events, k + 1);
        let e = events[k];
        assert(ts[k + 1].stepped_by(&ts[k], e));
        assert(events.take(k + 1).drop_last() =~= events.take(k));
        lemma_enqueue_count_prefix(events, k + 1);
    }
}

} // verus!
