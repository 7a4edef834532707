use boxddd::{
    begin_step, check_compound_build, check_no_interior_nul, check_compound_child_capacity, check_compound_mesh_materials, check_static_body, check_sub_step_count, check_world_worker_count, filled_len, check_joint_body_pair_valid, check_joint_targets_world, check_joint_type,
    finish_step, finish_traversal, map_snapshot_into, validate_height_field_layout,
    validate_mesh_topology, BodyId, BodyType, CallbackKind, Capacity, CollectDebugDraw,
    ContactBeginTouchEvent, ContactEndTouchEvent, ContactId, Counters, DebugShape, Error, Filter,
    HexColor, JointId, JointType, MotionLocks, QueryFilter, QueryHit, ReplayWorldId,
    SensorBeginTouchEvent, SensorEndTouchEvent, SensorEvents, ShapeId, ShapeType, TaskSystem,
    TreeStats, Version, WorldCallbacks,
};

fn body(index1: i32, world0: u16) -> BodyId {
    BodyId { index1, world0, generation: 1 }
}

#[test]
fn hex_color_packs_components() {
    assert_eq!(HexColor::from_rgb(0x12, 0x34, 0x56).rgb_u32(), 0x123456);
    assert_eq!(HexColor::from_rgb(0xff, 0, 0), HexColor::red());
    assert_eq!(HexColor::from_rgb(0, 0xff, 0), HexColor::green());
    assert_eq!(HexColor::from_rgb(0, 0, 0xff), HexColor::blue());
    assert_eq!(HexColor::from_rgb(0xff, 0xff, 0xff), HexColor::white());
    assert_eq!(HexColor::default(), HexColor::black());
}

#[test]
fn hex_color_drops_bits_above_24() {
    assert_eq!(HexColor::from_rgb_u32(0xAABB_CCDD).rgb_u32(), 0x00BB_CCDD);
    let c = HexColor::from_rgb(1, 2, 3);
    assert_eq!(HexColor::from_rgb_u32(c.rgb_u32()), c);
    let v = c.rgb_u32();
    assert_eq!((v >> 16, (v >> 8) & 0xff, v & 0xff), (1, 2, 3));
}

#[test]
fn error_messages() {
    assert_eq!(Error::InvalidArgument.message(), "invalid argument");
    assert_eq!(
        Error::InCallback.message(),
        "boxddd API called from a Box3D callback; Box3D world is locked"
    );
    assert_eq!(Error::CallbackSlotsExhausted.message(), "no callback slot is available");
}

#[test]
fn query_filter_builders() {
    let f = QueryFilter::new();
    assert_eq!(f, QueryFilter { category_bits: u64::MAX, mask_bits: u64::MAX, id: 0 });
    assert_eq!(f, QueryFilter::default());
    let g = f.category_bits(2).mask_bits(6).id(77);
    assert_eq!(g, QueryFilter { category_bits: 2, mask_bits: 6, id: 77 });
    let hit = QueryHit { shape_id: ShapeId::default() };
    assert_eq!(hit.shape_id.index1, 0);
}

#[test]
fn traversal_outcome() {
    let stats = TreeStats { node_visits: 4, leaf_visits: 2 };
    assert_eq!(finish_traversal(false, false, stats), Ok(stats));
    assert_eq!(finish_traversal(true, true, stats), Err(Error::CallbackPanicked));
    assert_eq!(finish_traversal(false, true, stats), Err(Error::InvalidArgument));
}

#[test]
fn joint_body_pairs() {
    assert_eq!(check_joint_body_pair_valid(body(1, 0), body(2, 0)), Ok(()));
    assert_eq!(check_joint_body_pair_valid(body(1, 0), body(1, 0)), Err(Error::InvalidArgument));
    assert_eq!(check_joint_body_pair_valid(body(1, 0), body(2, 1)), Err(Error::InvalidArgument));
    let same_index_other_generation = BodyId { index1: 1, world0: 0, generation: 2 };
    assert_eq!(check_joint_body_pair_valid(body(1, 0), same_index_other_generation), Ok(()));
}

#[test]
fn joint_targets_world() {
    let world = ReplayWorldId { index1: 3, generation: 1 };
    assert_eq!(check_joint_targets_world(world, body(1, 2), body(2, 2)), Ok(()));
    assert_eq!(check_joint_targets_world(world, body(1, 2), body(2, 1)), Err(Error::InvalidArgument));
    let null = ReplayWorldId { index1: 0, generation: 0 };
    assert_eq!(check_joint_targets_world(null, body(1, 0), body(2, 0)), Err(Error::InvalidWorldId));
}

#[test]
fn joint_type_checks() {
    assert_eq!(check_joint_type(Some(JointType::Wheel), JointType::Wheel), Ok(()));
    assert_eq!(check_joint_type(Some(JointType::Weld), JointType::Wheel), Err(Error::WrongJointType));
    assert_eq!(check_joint_type(None, JointType::Distance), Err(Error::WrongJointType));
}

#[test]
fn mesh_topology() {
    let tri = [0, 1, 2];
    assert_eq!(validate_mesh_topology(3, &tri, None), Ok(1));
    assert_eq!(validate_mesh_topology(3, &tri, Some(1)), Ok(1));
    assert_eq!(validate_mesh_topology(3, &tri, Some(2)), Err(Error::InvalidArgument));
    assert_eq!(validate_mesh_topology(2, &[0, 1, 1], None), Err(Error::InvalidArgument));
    assert_eq!(validate_mesh_topology(3, &[], None), Err(Error::InvalidArgument));
    assert_eq!(validate_mesh_topology(3, &[0, 1], None), Err(Error::InvalidArgument));
    assert_eq!(validate_mesh_topology(3, &[0, 1, 3], None), Err(Error::InvalidArgument));
    assert_eq!(validate_mesh_topology(4, &[0, 1, 2, 2, 3, -1], None), Err(Error::InvalidArgument));
    assert_eq!(validate_mesh_topology(4, &[0, 1, 2, 2, 3, 0], Some(2)), Ok(2));
}

#[test]
fn height_field_layout() {
    assert_eq!(validate_height_field_layout(2, 3, 6, None), Ok(2));
    assert_eq!(validate_height_field_layout(3, 3, 9, Some(4)), Ok(4));
    assert_eq!(validate_height_field_layout(3, 3, 9, Some(9)), Err(Error::InvalidArgument));
    assert_eq!(validate_height_field_layout(1, 3, 3, None), Err(Error::InvalidArgument));
    assert_eq!(validate_height_field_layout(3, 3, 8, None), Err(Error::InvalidArgument));
    assert_eq!(validate_height_field_layout(65536, 65536, 0, None), Err(Error::InvalidArgument));
}

#[test]
fn snapshots_replace_previous_contents() {
    let mut out = vec![SensorBeginTouchEvent { sensor_shape: ShapeId::default(), visitor_shape: ShapeId::default() }; 5];
    let input = [(1, 2), (3, 4)];
    let shape = |i: i32| ShapeId { index1: i, world0: 0, generation: 1 };
    map_snapshot_into(&mut out, &input, |&(s, v)| SensorBeginTouchEvent {
        sensor_shape: shape(s),
        visitor_shape: shape(v),
    });
    assert_eq!(out.len(), 2);
    assert_eq!(out[1].visitor_shape.index1, 4);
    let mut empty: Vec<u32> = vec![1, 2, 3];
    map_snapshot_into(&mut empty, &[] as &[u32], |x| *x);
    assert!(empty.is_empty());
    let events = SensorEvents::default();
    assert!(events.begin.is_empty() && events.end.is_empty());
    let end = SensorEndTouchEvent { sensor_shape: shape(1), visitor_shape: shape(2) };
    assert_eq!(end.sensor_shape.index1, 1);
}

#[test]
fn contact_events_and_ids() {
    let c = ContactId::default();
    assert_eq!((c.index1, c.world0, c.padding, c.generation), (0, 0, 0, 0));
    let b = ContactBeginTouchEvent { shape_a: ShapeId::default(), shape_b: ShapeId::default(), contact_id: c };
    let e = ContactEndTouchEvent { shape_a: b.shape_a, shape_b: b.shape_b, contact_id: b.contact_id };
    assert_eq!(e.contact_id, c);
    assert_eq!(JointId::default().index1, 0);
    assert_eq!(BodyId::default(), BodyId { index1: 0, world0: 0, generation: 0 });
}

#[test]
fn material_slot_is_held_while_a_mixing_callback_exists() {
    let mut cb = WorldCallbacks::new();
    assert_eq!(cb.set_material_mix(CallbackKind::Friction, None), Err(Error::CallbackSlotsExhausted));
    assert_eq!(cb.callback_state(CallbackKind::Friction), None);
    assert_eq!(cb.set_material_mix(CallbackKind::Friction, Some(4)), Ok(4));
    assert_eq!(cb.material_slot(), Some(4));
    assert_eq!(cb.set_material_mix(CallbackKind::Restitution, None), Ok(4));
    assert_eq!(cb.clear_material_mix(CallbackKind::Friction), None);
    assert_eq!(cb.clear_material_mix(CallbackKind::Restitution), Some(4));
    assert_eq!(cb.clear_material_mix(CallbackKind::Restitution), None);
}

#[test]
fn callback_panics_are_reported_after_the_step() {
    let mut cb = WorldCallbacks::new();
    cb.set_plain(CallbackKind::CustomFilter);
    cb.set_plain(CallbackKind::PreSolve);
    let mut ts = Some(TaskSystem::blocking_threads());
    begin_step(&mut cb, &mut ts);
    assert_eq!(finish_step(&cb, &ts), Ok(()));
    cb.record_panic(CallbackKind::PreSolve);
    assert!(cb.panicked());
    assert_eq!(cb.callback_state(CallbackKind::PreSolve), Some(true));
    assert_eq!(finish_step(&cb, &ts), Err(Error::CallbackPanicked));
    begin_step(&mut cb, &mut ts);
    assert!(!cb.panicked());
    ts.as_mut().unwrap().mark_panicked();
    assert_eq!(finish_step(&cb, &ts), Err(Error::CallbackPanicked));
    cb.record_panic(CallbackKind::Friction);
    assert_eq!(cb.callback_state(CallbackKind::Friction), None);
    cb.clear_plain(CallbackKind::PreSolve);
    assert_eq!(cb.clear_all(), None);
    assert_eq!(finish_step(&cb, &None), Ok(()));
}

#[test]
fn collector_reuses_the_buffer() {
    let mut c = CollectDebugDraw::new(vec!["old1", "old2", "old3"]);
    c.replace_or_push("a");
    c.replace_or_push("b");
    assert_eq!(c.finish(), vec!["a", "b"]);
    let mut c = CollectDebugDraw::new(vec!["old"]);
    c.replace_or_push("x");
    c.replace_or_push("y");
    c.replace_or_push("z");
    assert_eq!(c.finish(), vec!["x", "y", "z"]);
    let c: CollectDebugDraw<u8> = CollectDebugDraw::new(vec![1, 2]);
    assert!(c.finish().is_empty());
}

#[test]
fn plain_values() {
    let locks = MotionLocks::new(true, false, true, false, true, false);
    assert!(locks.linear_x && !locks.linear_y && locks.linear_z && locks.angular_y);
    assert_eq!(MotionLocks::default(), MotionLocks::new(false, false, false, false, false, false));
    let counters = Counters::default();
    assert_eq!(counters.color_counts, [0; 24]);
    assert_eq!(counters.manifold_counts, [0; 8]);
    assert_eq!(Capacity::default().contact_count, 0);
    assert_eq!(Version::default(), Version { major: 0, minor: 0, revision: 0 });
    let filter = Filter { category_bits: 1, mask_bits: u64::MAX, group_index: -3 };
    assert_eq!(filter.group_index, -3);
    let shape = DebugShape { shape_id: ShapeId::default(), shape_type: Some(ShapeType::Hull) };
    assert_eq!(shape.shape_type, Some(ShapeType::Hull));
    assert_ne!(BodyType::Static, BodyType::Dynamic);
    assert_ne!(BodyType::Kinematic, BodyType::Dynamic);
}

#[test]
fn filled_buffers_never_exceed_capacity() {
    assert_eq!(filled_len(8, 3), 3);
    assert_eq!(filled_len(8, 8), 8);
    assert_eq!(filled_len(8, 20), 8);
    assert_eq!(filled_len(8, -5), 0);
    assert_eq!(filled_len(0, 4), 0);
}

#[test]
fn panicked_callbacks_are_skipped_until_reset() {
    let mut cb = WorldCallbacks::new();
    assert!(!cb.callback_should_run(CallbackKind::CustomFilter));
    cb.set_plain(CallbackKind::CustomFilter);
    assert!(cb.callback_should_run(CallbackKind::CustomFilter));
    cb.record_panic(CallbackKind::CustomFilter);
    assert!(!cb.callback_should_run(CallbackKind::CustomFilter));
    cb.reset_panics();
    assert!(cb.callback_should_run(CallbackKind::CustomFilter));
}

#[test]
fn static_only_shapes() {
    assert_eq!(check_static_body(BodyType::Static), Ok(()));
    assert_eq!(check_static_body(BodyType::Dynamic), Err(Error::InvalidArgument));
    assert_eq!(check_static_body(BodyType::Kinematic), Err(Error::InvalidArgument));
}

#[test]
fn world_step_arguments() {
    assert_eq!(check_sub_step_count(0), Ok(()));
    assert_eq!(check_sub_step_count(4), Ok(()));
    assert_eq!(check_sub_step_count(-1), Err(Error::InvalidArgument));
    assert_eq!(check_world_worker_count(0), Ok(()));
    assert_eq!(check_world_worker_count(-2), Err(Error::InvalidArgument));
}

#[test]
fn compound_child_limits() {
    assert_eq!(check_compound_child_capacity(0, 4), Ok(()));
    assert_eq!(check_compound_child_capacity(3, 4), Ok(()));
    assert_eq!(check_compound_child_capacity(4, 4), Err(Error::InvalidArgument));
    assert_eq!(check_compound_mesh_materials(2, 2, 4), Ok(()));
    assert_eq!(check_compound_mesh_materials(0, 0, 4), Err(Error::InvalidArgument));
    assert_eq!(check_compound_mesh_materials(5, 5, 4), Err(Error::InvalidArgument));
    assert_eq!(check_compound_mesh_materials(2, 3, 4), Err(Error::InvalidArgument));
}

#[test]
fn compound_build_reports_pending_error_first() {
    assert_eq!(check_compound_build(Some(Error::InvalidBodyId), 2, 4), Err(Error::InvalidBodyId));
    assert_eq!(check_compound_build(None, 0, 4), Err(Error::InvalidArgument));
    assert_eq!(check_compound_build(None, 4, 4), Err(Error::InvalidArgument));
    assert_eq!(check_compound_build(None, 1, 4), Ok(()));
}

#[test]
fn names_with_interior_nul_are_refused() {
    assert_eq!(check_no_interior_nul(b""), Ok(()));
    assert_eq!(check_no_interior_nul(b"ground"), Ok(()));
    assert_eq!(check_no_interior_nul(b"gro\0und"), Err(Error::NulByteInString));
    assert_eq!(check_no_interior_nul(b"\0"), Err(Error::NulByteInString));
}

#[test]
fn colors_with_the_same_value_are_equal() {
    assert_eq!(HexColor::from_rgb(255, 0, 0), HexColor::red());
    assert_eq!(HexColor::from_rgb(0, 0, 255), HexColor::blue());
    assert_eq!(HexColor::from_rgb_u32(0xFF12_3456), HexColor::from_rgb(0x12, 0x34, 0x56));
    let c = HexColor::from_rgb(1, 2, 3);
    assert_eq!(HexColor::from_rgb_u32(c.rgb_u32()), c);
}
