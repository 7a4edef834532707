# boxddd

Verified core of safe Rust bindings for the Box3D physics engine.

- `src/` is the library, verified with Verus: handle bookkeeping of dynamic trees (generations
  that reject stale handles), the per-thread callback lock, the blocking-thread task scheduler's
  decisions and counters, the registry of recordings attached to worlds, callback panic
  containment around world steps, validation of mesh, height-field, compound, joint, recording and replay arguments,
  task thread names, and the plain value types these speak of.
- `app/` holds what runs around it: the process-wide engine lock, the thread-local callback
  scope with its drop guard, the thread runner that carries out the scheduler's decisions, and
  copies of library types with `thiserror` and `serde` derives.
- `tests/` exercises the library on concrete values.
