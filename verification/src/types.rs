use vstd::prelude::*;

verus! {

/// Handle id for a body in a native world.
#[derive(Clone, Copy, Debug, PartialEq, Eq, Structural, Hash)]
pub struct BodyId {
    /// One-based native index. Zero is an invalid/null id.
    pub index1: i32,
    /// Native world index this id belongs to.
    pub world0: u16,
    /// Native generation used to reject stale ids.
    pub generation: u16,
}

impl Default for BodyId {
    /// The null body id.
    fn default() -> (id: Self)
        ensures
            id.index1 == 0 && id.world0 == 0 && id.generation == 0,
    {
        BodyId { index1: 0, world0: 0, generation: 0 }
    }
}

/// Handle id for a shape in a native world.
#[derive(Clone, Copy, Debug, PartialEq, Eq, Structural, Hash)]
pub struct ShapeId {
    /// One-based native index. Zero is an invalid/null id.
    pub index1: i32,
    /// Native world index this id belongs to.
    pub world0: u16,
    /// Native generation used to reject stale ids.
    pub generation: u16,
}

impl Default for ShapeId {
    /// The null shape id.
    fn default() -> (id: Self)
        ensures
            id.index1 == 0 && id.world0 == 0 && id.generation == 0,
    {
        ShapeId { index1: 0, world0: 0, generation: 0 }
    }
}

/// Handle id for a joint in a native world.
#[derive(Clone, Copy, Debug, PartialEq, Eq, Structural, Hash)]
pub struct JointId {
    /// One-based native index. Zero is an invalid/null id.
    pub index1: i32,
    /// Native world index this id belongs to.
    pub world0: u16,
    /// Native generation used to reject stale ids.
    pub generation: u16,
}

impl Default for JointId {
    /// The null joint id.
    fn default() -> (id: Self)
        ensures
            id.index1 == 0 && id.world0 == 0 && id.generation == 0,
    {
        JointId { index1: 0, world0: 0, generation: 0 }
    }
}

/// Handle id for a contact in a native world.
#[derive(Clone, Copy, Debug, PartialEq, Eq, Structural, Hash)]
pub struct ContactId {
    /// One-based native index. Zero is an invalid/null id.
    pub index1: i32,
    /// Native world index this id belongs to.
    pub world0: u16,
    /// Native padding field preserved for ABI compatibility.
    pub padding: i16,
    /// Native generation used to reject stale ids.
    pub generation: u32,
}

impl Default for ContactId {
    /// The null contact id.
    fn default() -> (id: Self)
        ensures
            id.index1 == 0 && id.world0 == 0 && id.padding == 0 && id.generation == 0,
    {
        ContactId { index1: 0, world0: 0, padding: 0, generation: 0 }
    }
}

/// The simulation behavior assigned to a body.
#[derive(Clone, Copy, Debug, PartialEq, Eq, Structural)]
pub enum BodyType {
    /// A non-moving body with infinite mass.
    Static,
    /// A body moved explicitly by the user rather than by forces.
    Kinematic,
    /// A fully simulated body affected by forces, contacts, and joints.
    Dynamic,
}

/// Geometry kind of a shape.
#[derive(Clone, Copy, Debug, PartialEq, Eq, Structural)]
pub enum ShapeType {
    Capsule,
    Compound,
    HeightField,
    Hull,
    Mesh,
    Sphere,
}

/// Collision filter data used by shapes and queries.
#[derive(Clone, Copy, Debug, PartialEq, Eq, Structural)]
pub struct Filter {
    /// Category bits assigned to the shape.
    pub category_bits: u64,
    /// Mask bits accepted by the shape.
    pub mask_bits: u64,
    /// Group override index. Matching non-zero groups override category/mask filtering.
    pub group_index: i32,
}

/// Per-axis motion locks for a body.
#[derive(Clone, Copy, Debug, PartialEq, Eq, Structural)]
pub struct MotionLocks {
    /// Locks linear motion along the X axis.
    pub linear_x: bool,
    /// Locks linear motion along the Y axis.
    pub linear_y: bool,
    /// Locks linear motion along the Z axis.
    pub linear_z: bool,
    /// Locks angular motion around the X axis.
    pub angular_x: bool,
    /// Locks angular motion around the Y axis.
    pub angular_y: bool,
    /// Locks angular motion around the Z axis.
    pub angular_z: bool,
}

impl MotionLocks {
    /// Motion locks from individual axis flags.
    pub fn new(
        linear_x: bool,
        linear_y: bool,
        linear_z: bool,
        angular_x: bool,
        angular_y: bool,
        angular_z: bool,
    ) -> (m: Self)
        ensures
            m == (MotionLocks { linear_x, linear_y, linear_z, angular_x, angular_y, angular_z }),
    {
        MotionLocks { linear_x, linear_y, linear_z, angular_x, angular_y, angular_z }
    }
}

impl Default for MotionLocks {
    /// No axis locked.
    fn default() -> (m: Self)
        ensures
            !m.linear_x && !m.linear_y && !m.linear_z && !m.angular_x && !m.angular_y && !m.angular_z,
    {
        MotionLocks::new(false, false, false, false, false, false)
    }
}

/// Capacity hints or maxima of a world.
#[derive(Clone, Copy, Debug, PartialEq, Eq, Structural)]
pub struct Capacity {
    pub static_shape_count: i32,
    pub dynamic_shape_count: i32,
    pub static_body_count: i32,
    pub dynamic_body_count: i32,
    pub contact_count: i32,
}

impl Default for Capacity {
    /// All capacities zero.
    fn default() -> (c: Self)
        ensures
            c.static_shape_count == 0 && c.dynamic_shape_count == 0 && c.static_body_count == 0
                && c.dynamic_body_count == 0 && c.contact_count == 0,
    {
        Capacity {
            static_shape_count: 0,
            dynamic_shape_count: 0,
            static_body_count: 0,
            dynamic_body_count: 0,
            contact_count: 0,
        }
    }
}

/// World statistics counters.
#[derive(Clone, Copy, Debug, PartialEq, Eq)]
pub struct Counters {
    pub body_count: i32,
    pub shape_count: i32,
    pub contact_count: i32,
    pub joint_count: i32,
    pub island_count: i32,
    pub stack_used: i32,
    pub arena_capacity: i32,
    pub static_tree_height: i32,
    pub tree_height: i32,
    pub sat_call_count: i32,
    pub sat_cache_hit_count: i32,
    pub byte_count: i32,
    pub task_count: i32,
    pub color_counts: [i32; 24],
    pub manifold_counts: [i32; 8],
    pub awake_contact_count: i32,
    pub recycled_contact_count: i32,
    pub distance_iterations: i32,
    pub push_back_iterations: i32,
    pub root_iterations: i32,
}

impl Default for Counters {
    /// Every counter zero.
    fn default() -> (c: Self)
        ensures
            c.body_count == 0 && c.shape_count == 0 && c.contact_count == 0 && c.joint_count == 0,
            c.island_count == 0 && c.stack_used == 0 && c.arena_capacity == 0,
            c.static_tree_height == 0 && c.tree_height == 0,
            c.sat_call_count == 0 && c.sat_cache_hit_count == 0 && c.byte_count == 0 && c.task_count
                == 0,
            forall|i: int| 0 <= i < 24 ==> c.color_counts@[i] == 0,
            forall|i: int| 0 <= i < 8 ==> c.manifold_counts@[i] == 0,
            c.awake_contact_count == 0 && c.recycled_contact_count == 0,
            c.distance_iterations == 0 && c.push_back_iterations == 0 && c.root_iterations == 0,
    {
        Counters {
            body_count: 0,
            shape_count: 0,
            contact_count: 0,
            joint_count: 0,
            island_count: 0,
            stack_used: 0,
            arena_capacity: 0,
            static_tree_height: 0,
            tree_height: 0,
            sat_call_count: 0,
            sat_cache_hit_count: 0,
            byte_count: 0,
            task_count: 0,
            color_counts: [0; 24],
            manifold_counts: [0; 8],
            awake_contact_count: 0,
            recycled_contact_count: 0,
            distance_iterations: 0,
            push_back_iterations: 0,
            root_iterations: 0,
        }
    }
}

/// Version of the native engine.
#[derive(Clone, Copy, Debug, PartialEq, Eq, Structural)]
pub struct Version {
    pub major: i32,
    pub minor: i32,
    pub revision: i32,
}

impl Default for Version {
    /// Version 0.0.0.
    fn default() -> (v: Self)
        ensures
            v.major == 0 && v.minor == 0 && v.revision == 0,
    {
        Version { major: 0, minor: 0, revision: 0 }
    }
}

} // verus!
