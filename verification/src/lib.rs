//! Verified core of safe bindings for the Box3D physics engine.
//!
//! The calls into the native engine are not part of this library; it holds the decisions the
//! bindings take around them: handle bookkeeping of dynamic trees, the callback lock, the task
//! scheduler's counters and panic containment, recording attachment, argument validation of
//! meshes, height fields, joints and replays, and the plain value types these speak of.
pub mod buffers;
pub mod callback_state;
pub mod callbacks;
pub mod debug_draw;
pub mod dynamic_tree;
pub mod error;
pub mod events;
pub mod joints;
pub mod query;
pub mod recording;
pub mod shapes;
pub mod task_system;
pub mod types;
pub mod world;

pub use buffers::{check_index_in_range, filled_len};
pub use callback_state::{
    assert_not_in_callback, check_not_in_callback, enter_callback_guard_for_test, in_callback,
    CallbackGuard, CallbackState,
};
pub use callbacks::{check_callback_registration, CallbackKind, WorldCallbacks};
pub use debug_draw::{CollectDebugDraw, DebugShape, HexColor};
pub use dynamic_tree::{
    checked_count, checked_proxy_capacity, DynamicTreeFilter, DynamicTreeHit, DynamicTreeProxyId, ProxyRecord,
    ProxyTable,
};
pub use error::{ApiError, ApiResult, Error, Result};
pub use events::{
    map_snapshot_into, ContactBeginTouchEvent, ContactEndTouchEvent, SensorBeginTouchEvent,
    SensorEndTouchEvent, SensorEvents,
};
pub use joints::{check_joint_body_pair_valid, check_joint_targets_world, check_joint_type, JointType};
pub use query::{finish_traversal, QueryFilter, QueryHit, TreeStats};
pub use recording::{
    check_keyframe_min_interval, check_recording_readable, check_replay_worker_count, check_seek_frame,
    checked_optional_index, checked_recording_capacity, diverge_frame_from_raw, replay_body_id, draw_query_indices,
    same_world_id, start_recording, stop_recording, validate_replay_input, ActiveRecording,
    RecQueryType, RecordingRegistry, ReplayWorldId,
};
pub use shapes::{
    check_compound_build, check_compound_child_capacity, check_compound_mesh_materials,
    check_static_body, validate_height_field_layout, validate_mesh_topology,
};
pub use task_system::{
    task_system_check_callback_guard_for_test, task_system_guard_rejections_for_test,
    task_system_panic_on_enqueue_for_test, task_system_panic_on_finish_for_test,
    task_system_panic_on_task_for_test, task_thread_name, EnqueueAction, FaultMode, TaskSystem, TaskSystemStats,
};
pub use types::{
    BodyId, BodyType, Capacity, ContactId, Counters, Filter, JointId, MotionLocks, ShapeId,
    ShapeType, Version,
};
pub use world::{
    begin_step, check_no_interior_nul, check_sub_step_count, check_world_worker_count, finish_step,
};
