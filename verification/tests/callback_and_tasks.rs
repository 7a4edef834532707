use boxddd::{
    assert_not_in_callback, check_not_in_callback, enter_callback_guard_for_test, in_callback,
    task_system_check_callback_guard_for_test, task_system_guard_rejections_for_test,
    task_system_panic_on_enqueue_for_test, task_system_panic_on_finish_for_test,
    task_system_panic_on_task_for_test, task_thread_name, CallbackGuard, CallbackState,
    check_callback_registration, EnqueueAction, Error, FaultMode, TaskSystem, TaskSystemStats,
};

#[test]
fn guard_locks_and_unlocks_world() {
    let mut state = CallbackState::new();
    assert!(!in_callback(&state));
    assert_eq!(check_not_in_callback(&state), Ok(()));
    assert_not_in_callback(&state);
    let guard = CallbackGuard::enter(&mut state);
    assert!(in_callback(&state));
    assert_eq!(check_not_in_callback(&state), Err(Error::InCallback));
    guard.leave(&mut state);
    assert!(!in_callback(&state));
    assert_eq!(state.depth(), 0);
}

#[test]
fn nested_guards_unlock_only_after_the_outermost_leaves() {
    let mut state = CallbackState::new();
    let outer = enter_callback_guard_for_test(&mut state);
    let inner = CallbackGuard::enter(&mut state);
    assert_eq!(state.depth(), 2);
    inner.leave(&mut state);
    assert!(in_callback(&state));
    assert_eq!(check_not_in_callback(&state), Err(Error::InCallback));
    outer.leave(&mut state);
    assert_eq!(check_not_in_callback(&state), Ok(()));
}

#[test]
fn leaving_at_depth_zero_saturates() {
    let mut state = CallbackState::new();
    let guard = CallbackGuard::enter(&mut state);
    guard.leave(&mut state);
    CallbackGuard.leave(&mut state);
    assert_eq!(state.depth(), 0);
}

#[test]
fn fresh_scheduler_has_zero_stats() {
    let ts = TaskSystem::blocking_threads();
    assert_eq!(ts.stats(), TaskSystemStats::default());
    assert_eq!(ts.fault_mode(), FaultMode::NoFault);
    assert!(!ts.panicked());
    let ts = TaskSystem::try_blocking_threads().unwrap();
    assert_eq!(ts.stats().enqueued, 0);
}

#[test]
fn enqueue_decides_per_fault_mode() {
    let mut ts = TaskSystem::blocking_threads();
    assert_eq!(ts.enqueue(false), EnqueueAction::Skip);
    assert_eq!(ts.enqueue(true), EnqueueAction::Spawn);
    assert_eq!(ts.stats().enqueued, 2);
    let mut faulty = task_system_panic_on_enqueue_for_test();
    assert_eq!(faulty.enqueue(true), EnqueueAction::RunInlineThenPanic);
    assert_eq!(faulty.enqueue(false), EnqueueAction::Skip);
}

#[test]
fn task_runs_inside_callback_scope_and_is_counted() {
    let mut ts = TaskSystem::blocking_threads();
    let mut callbacks = CallbackState::new();
    let guard = ts.begin_task(&mut callbacks);
    assert!(in_callback(&callbacks));
    assert_eq!(ts.stats().started, 1);
    assert_eq!(ts.stats().completed, 0);
    ts.end_task(guard, &mut callbacks, false);
    assert!(!in_callback(&callbacks));
    let stats = ts.stats();
    assert_eq!((stats.started, stats.completed, stats.panicked), (1, 1, false));
}

#[test]
fn task_panic_is_contained_and_reported() {
    let mut ts = TaskSystem::blocking_threads();
    let mut callbacks = CallbackState::new();
    let guard = ts.begin_task(&mut callbacks);
    ts.end_task(guard, &mut callbacks, true);
    assert!(ts.panicked());
    assert_eq!(ts.stats().completed, 1);
    ts.reset_panics();
    assert!(!ts.panicked());
    assert_eq!(ts.stats().completed, 1);
}

#[test]
fn panic_on_task_scheduler_reports_a_panic_for_each_task() {
    let mut ts = task_system_panic_on_task_for_test();
    let mut callbacks = CallbackState::new();
    let guard = ts.begin_task(&mut callbacks);
    ts.end_task(guard, &mut callbacks, false);
    assert!(ts.panicked());
    assert_eq!(TaskSystem::__panic_on_task_for_test().fault_mode(), FaultMode::PanicOnTask);
}

#[test]
fn guard_checking_scheduler_counts_a_rejection_per_task() {
    let mut ts = task_system_check_callback_guard_for_test();
    let mut callbacks = CallbackState::new();
    for expected in 1..=3usize {
        let guard = ts.begin_task(&mut callbacks);
        ts.end_task(guard, &mut callbacks, false);
        assert_eq!(task_system_guard_rejections_for_test(&ts), expected);
    }
    let mut plain = TaskSystem::blocking_threads();
    let guard = plain.begin_task(&mut callbacks);
    plain.end_task(guard, &mut callbacks, false);
    assert_eq!(plain.__guard_rejections_for_test(), 0);
}

#[test]
fn finish_counts_handles_and_reports_failed_joins() {
    let mut ts = TaskSystem::blocking_threads();
    ts.finish(false, true);
    assert_eq!(ts.stats().finished, 0);
    assert!(!ts.panicked());
    ts.finish(true, false);
    assert_eq!(ts.stats().finished, 1);
    assert!(!ts.panicked());
    ts.finish(true, true);
    assert_eq!(ts.stats().finished, 2);
    assert!(ts.panicked());
}

#[test]
fn panic_on_finish_scheduler_reports_a_panic() {
    let mut ts = task_system_panic_on_finish_for_test();
    ts.finish(true, false);
    assert!(ts.panicked());
    assert_eq!(ts.stats().finished, 1);
    let mut ts = TaskSystem::__panic_on_finish_for_test();
    ts.finish(false, false);
    assert!(!ts.panicked());
}

#[test]
fn mark_panicked_keeps_counters() {
    let mut ts = TaskSystem::__check_callback_guard_for_test();
    ts.enqueue(true);
    ts.mark_panicked();
    assert!(ts.stats().panicked);
    assert_eq!(ts.stats().enqueued, 1);
    assert_eq!(TaskSystem::__panic_on_enqueue_for_test().fault_mode(), FaultMode::PanicOnEnqueue);
}

#[test]
fn thread_name_of_unnamed_task() {
    assert_eq!(task_thread_name(None), "boxddd-task-unnamed");
}

#[test]
fn thread_name_replaces_nul_characters() {
    assert_eq!(task_thread_name(Some("solve\0contacts")), "boxddd-task-solve_contacts");
}

#[test]
fn thread_name_keeps_at_most_48_characters() {
    let long: String = std::iter::repeat('x').take(60).collect();
    let name = task_thread_name(Some(&long));
    assert_eq!(name.len(), "boxddd-task-".len() + 48);
    let exact: String = std::iter::repeat('é').take(48).collect();
    assert_eq!(task_thread_name(Some(&exact)), format!("boxddd-task-{exact}"));
    assert_eq!(task_thread_name(Some("")), "boxddd-task-");
}

#[test]
fn interleaved_guards_lock_until_every_scope_is_left() {
    let mut state = CallbackState::new();
    let outer = CallbackGuard::enter(&mut state);
    let inner = CallbackGuard::enter(&mut state);
    inner.leave(&mut state);
    assert_eq!(check_not_in_callback(&state), Err(Error::InCallback));
    let again = CallbackGuard::enter(&mut state);
    outer.leave(&mut state);
    assert_eq!(check_not_in_callback(&state), Err(Error::InCallback));
    again.leave(&mut state);
    assert_eq!(check_not_in_callback(&state), Ok(()));
}

#[test]
fn registration_refuses_callbacks_before_checking_the_world() {
    let mut state = CallbackState::new();
    assert_eq!(check_callback_registration(&state, Ok(())), Ok(()));
    assert_eq!(
        check_callback_registration(&state, Err(Error::InvalidWorldId)),
        Err(Error::InvalidWorldId)
    );
    let guard = CallbackGuard::enter(&mut state);
    assert_eq!(
        check_callback_registration(&state, Err(Error::InvalidWorldId)),
        Err(Error::InCallback)
    );
    guard.leave(&mut state);
}

fn run_round(ts: &mut TaskSystem, state: &mut CallbackState, has_task: bool) {
    let action = ts.enqueue(has_task);
    if action != EnqueueAction::Skip {
        let guard = ts.begin_task(state);
        ts.end_task(guard, state, false);
        if action == EnqueueAction::RunInlineThenPanic {
            ts.mark_panicked();
        }
    }
    ts.finish(action == EnqueueAction::Spawn, false);
}

#[test]
fn task_rounds_keep_counters_in_agreement() {
    let mut state = CallbackState::new();
    for mut ts in [
        TaskSystem::blocking_threads(),
        task_system_check_callback_guard_for_test(),
        task_system_panic_on_enqueue_for_test(),
    ] {
        for has_task in [true, false, true, true] {
            run_round(&mut ts, &mut state, has_task);
            let s = ts.stats();
            assert_eq!(s.started, s.completed);
            assert!(s.started <= s.enqueued);
            assert!(s.finished <= s.enqueued);
        }
        let s = ts.stats();
        assert_eq!(s.enqueued, 4);
        assert_eq!(s.started, 3);
        let rejections = task_system_guard_rejections_for_test(&ts);
        if ts.fault_mode() == FaultMode::CheckCallbackGuard {
            assert_eq!(rejections, s.started);
        } else {
            assert_eq!(rejections, 0);
        }
    }
    assert_eq!(check_not_in_callback(&state), Ok(()));
}

#[test]
fn interleaved_tasks_keep_counters_tracking_flight() {
    let mut state = CallbackState::new();
    let mut ts = task_system_check_callback_guard_for_test();
    for _ in 0..3 {
        assert_eq!(ts.enqueue(true), EnqueueAction::Spawn);
    }
    let first = ts.begin_task(&mut state);
    let second = ts.begin_task(&mut state);
    ts.end_task(first, &mut state, false);
    let s = ts.stats();
    assert_eq!(s.started - s.completed, 1);
    assert!(s.started + 1 <= s.enqueued);
    ts.finish(true, false);
    let third = ts.begin_task(&mut state);
    ts.end_task(second, &mut state, false);
    ts.end_task(third, &mut state, true);
    ts.finish(true, false);
    ts.finish(true, false);
    let s = ts.stats();
    assert_eq!((s.enqueued, s.started, s.completed, s.finished), (3, 3, 3, 3));
    assert!(s.panicked);
    assert_eq!(task_system_guard_rejections_for_test(&ts), s.started);
    assert_eq!(check_not_in_callback(&state), Ok(()));
}
