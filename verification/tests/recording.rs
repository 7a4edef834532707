use boxddd::{
    check_recording_readable, CallbackGuard, CallbackState,
    check_index_in_range, check_keyframe_min_interval, check_replay_worker_count, check_seek_frame,
    replay_body_id, checked_recording_capacity, BodyId, checked_optional_index, diverge_frame_from_raw, draw_query_indices,
    same_world_id, start_recording, stop_recording, validate_replay_input, ActiveRecording, Error,
    RecordingRegistry, ReplayWorldId,
};

const W1: ReplayWorldId = ReplayWorldId { index1: 1, generation: 1 };
const W2: ReplayWorldId = ReplayWorldId { index1: 2, generation: 1 };

fn start(
    registry: &mut RecordingRegistry,
    active: &mut Option<ReplayWorldId>,
    active_live: bool,
    world: ReplayWorldId,
    recording: usize,
) -> Result<(), Error> {
    let live = vec![true; registry.len()];
    start_recording(registry, &live, active, active_live, world, recording)
}

fn stop(
    registry: &mut RecordingRegistry,
    active: &mut Option<ReplayWorldId>,
    active_live: bool,
    world: ReplayWorldId,
    recording: usize,
) -> Result<(), Error> {
    let live = vec![true; registry.len()];
    stop_recording(registry, &live, active, active_live, world, recording)
}

#[test]
fn start_then_stop_restores_registry() {
    let mut registry = RecordingRegistry::new();
    let mut active = None;
    assert_eq!(start(&mut registry, &mut active, false, W1, 100), Ok(()));
    assert_eq!(active, Some(W1));
    assert_eq!(registry.recording_for_world(W1), Some(100));
    assert!(registry.recording_matches(W1, 100));
    assert_eq!(stop(&mut registry, &mut active, true, W1, 100), Ok(()));
    assert_eq!(active, None);
    assert_eq!(registry.len(), 0);
    assert_eq!(registry.recording_for_world(W1), None);
}

#[test]
fn second_recording_on_same_world_is_refused() {
    let mut registry = RecordingRegistry::new();
    let mut first = None;
    let mut second = None;
    start(&mut registry, &mut first, false, W1, 1).unwrap();
    assert_eq!(
        start(&mut registry, &mut second, false, W1, 2),
        Err(Error::ResourceLifetimeViolation)
    );
    assert_eq!(second, None);
    assert_eq!(registry.len(), 1);
    assert_eq!(start(&mut registry, &mut second, false, W2, 2), Ok(()));
}

#[test]
fn active_recording_cannot_start_again() {
    let mut registry = RecordingRegistry::new();
    let mut active = None;
    start(&mut registry, &mut active, false, W1, 1).unwrap();
    assert_eq!(
        start(&mut registry, &mut active, true, W2, 1),
        Err(Error::ResourceLifetimeViolation)
    );
    assert_eq!(active, Some(W1));
}

#[test]
fn capture_of_a_dead_world_is_forgotten() {
    let mut registry = RecordingRegistry::new();
    let mut active = Some(W1);
    assert_eq!(start(&mut registry, &mut active, false, W2, 5), Ok(()));
    assert_eq!(active, Some(W2));
    let mut stale = Some(W1);
    assert_eq!(
        stop(&mut registry, &mut stale, false, W1, 6),
        Err(Error::ResourceLifetimeViolation)
    );
    assert_eq!(stale, None);
}

#[test]
fn stop_refuses_wrong_world_or_recording() {
    let mut registry = RecordingRegistry::new();
    let mut active = None;
    start(&mut registry, &mut active, false, W1, 1).unwrap();
    assert_eq!(
        stop(&mut registry, &mut active, true, W2, 1),
        Err(Error::ResourceLifetimeViolation)
    );
    assert_eq!(
        stop(&mut registry, &mut active, true, W1, 2),
        Err(Error::ResourceLifetimeViolation)
    );
    assert_eq!(active, Some(W1));
    assert_eq!(registry.len(), 1);
    let mut none = None;
    assert_eq!(
        stop(&mut registry, &mut none, true, W1, 1),
        Err(Error::ResourceLifetimeViolation)
    );
}

#[test]
fn registry_pruning_and_detaching() {
    let mut registry = RecordingRegistry::new();
    registry.insert(W1, 1);
    registry.insert(W2, 2);
    registry.insert(W1, 3);
    assert_eq!(registry.worlds(), vec![W1, W2, W1]);
    assert_eq!(registry.recording_for_world(W1), Some(1));
    registry.remove_recording(1);
    assert_eq!(registry.recording_for_world(W1), Some(3));
    registry.retain_live_worlds(&vec![false, true]);
    assert_eq!(registry.worlds(), vec![W1]);
    assert_eq!(registry.recording_for_world(W2), None);
    registry.detach_world(W1);
    assert_eq!(registry.len(), 0);
    let entry = ActiveRecording { world: W1, recording: 9 };
    assert_eq!(entry.recording, 9);
}

#[test]
fn world_ids_compare_by_index_and_generation() {
    assert!(same_world_id(W1, W1));
    assert!(!same_world_id(W1, W2));
    assert!(!same_world_id(W1, ReplayWorldId { index1: 1, generation: 2 }));
}

#[test]
fn replay_input_validation() {
    assert_eq!(validate_replay_input(&[1, 2, 3], 1), Ok(()));
    assert_eq!(validate_replay_input(&[], 1), Err(Error::InvalidArgument));
    assert_eq!(validate_replay_input(&[0], 0), Err(Error::InvalidArgument));
    assert_eq!(validate_replay_input(&[0], -4), Err(Error::InvalidArgument));
}

#[test]
fn optional_indices_use_minus_one_for_none() {
    assert_eq!(checked_optional_index(None), Ok(-1));
    assert_eq!(checked_optional_index(Some(0)), Ok(0));
    assert_eq!(checked_optional_index(Some(-2)), Err(Error::IndexOutOfRange));
}

#[test]
fn draw_query_selection() {
    assert_eq!(draw_query_indices(None, None, 0), Ok((-1, -1)));
    assert_eq!(draw_query_indices(Some(1), Some(4), 2), Ok((1, 4)));
    assert_eq!(draw_query_indices(Some(2), None, 2), Err(Error::IndexOutOfRange));
    assert_eq!(draw_query_indices(Some(-1), None, 2), Err(Error::IndexOutOfRange));
    assert_eq!(draw_query_indices(None, Some(-1), 2), Err(Error::IndexOutOfRange));
}

#[test]
fn index_ranges_and_divergence() {
    assert_eq!(check_index_in_range(0, 1), Ok(()));
    assert_eq!(check_index_in_range(1, 1), Err(Error::IndexOutOfRange));
    assert_eq!(check_index_in_range(-1, 5), Err(Error::IndexOutOfRange));
    assert_eq!(diverge_frame_from_raw(-1), None);
    assert_eq!(diverge_frame_from_raw(0), Some(0));
    assert_eq!(diverge_frame_from_raw(12), Some(12));
}

#[test]
fn replay_player_arguments() {
    assert_eq!(check_seek_frame(0), Ok(()));
    assert_eq!(check_seek_frame(-1), Err(Error::InvalidArgument));
    assert_eq!(check_replay_worker_count(1), Ok(()));
    assert_eq!(check_replay_worker_count(0), Err(Error::InvalidArgument));
    assert_eq!(check_keyframe_min_interval(0), Ok(()));
    assert_eq!(check_keyframe_min_interval(-3), Err(Error::InvalidArgument));
}

#[test]
fn replay_body_ids_treat_index_zero_as_none() {
    let null = BodyId { index1: 0, world0: 0, generation: 0 };
    let body = BodyId { index1: 3, world0: 0, generation: 2 };
    assert_eq!(replay_body_id(null), None);
    assert_eq!(replay_body_id(body), Some(body));
}

#[test]
fn recording_capacity_must_fit_in_i32() {
    assert_eq!(checked_recording_capacity(0), Ok(0));
    assert_eq!(checked_recording_capacity(4096), Ok(4096));
    assert_eq!(checked_recording_capacity(i32::MAX as usize), Ok(i32::MAX));
    assert_eq!(checked_recording_capacity(i32::MAX as usize + 1), Err(Error::InvalidArgument));
}

#[test]
fn entries_of_dead_worlds_are_pruned_before_lookup() {
    let mut registry = RecordingRegistry::new();
    registry.insert(W1, 1);
    registry.insert(W2, 2);
    let mut active = None;
    // W1's world is gone: its entry no longer blocks a new recording on a world with that id.
    assert_eq!(start_recording(&mut registry, &vec![false, true], &mut active, false, W1, 3), Ok(()));
    assert_eq!(registry.worlds(), vec![W2, W1]);
    assert_eq!(registry.recording_for_world(W1), Some(3));
    // A refused start still prunes the dead entries it looked past.
    let mut other = None;
    assert_eq!(
        start_recording(&mut registry, &vec![false, true], &mut other, false, W1, 4),
        Err(Error::ResourceLifetimeViolation)
    );
    assert_eq!(registry.worlds(), vec![W1]);
    assert_eq!(other, None);
    // Stopping looks the recording up in the pruned registry.
    let mut stale = Some(W1);
    assert_eq!(
        stop_recording(&mut registry, &vec![false], &mut stale, true, W1, 3),
        Err(Error::ResourceLifetimeViolation)
    );
    assert_eq!(registry.len(), 0);
    assert_eq!(stale, Some(W1));
}

#[test]
fn bytes_are_refused_while_a_live_world_is_captured() {
    let mut thread = CallbackState::new();
    assert_eq!(check_recording_readable(&thread, None, false), Ok(()));
    assert_eq!(check_recording_readable(&thread, Some(W1), false), Ok(()));
    assert_eq!(
        check_recording_readable(&thread, Some(W1), true),
        Err(Error::ResourceLifetimeViolation)
    );
    let guard = CallbackGuard::enter(&mut thread);
    assert_eq!(check_recording_readable(&thread, Some(W1), true), Err(Error::InCallback));
    guard.leave(&mut thread);
}
