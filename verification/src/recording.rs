use vstd::prelude::*;

use crate::callback_state::{check_not_in_callback, CallbackState};
use crate::error::Error;
use crate::types::BodyId;

verus! {

/// Kind of world query captured in a recording.
#[derive(Clone, Copy, Debug, PartialEq, Eq, Structural)]
pub enum RecQueryType {
    OverlapAabb,
    OverlapShape,
    CastRay,
    CastShape,
    CastRayClosest,
    CastMover,
    CollideMover,
}

/// Identifier of a native world (the world a replay player drives, or a recorded world).
#[derive(Clone, Copy, Debug, PartialEq, Eq, Structural, Hash)]
pub struct ReplayWorldId {
    /// One-based native world index.
    pub index1: u16,
    /// Native generation used to reject stale ids.
    pub generation: u16,
}

/// Whether two world ids name the same world.
pub fn same_world_id(a: ReplayWorldId, b: ReplayWorldId) -> (same: bool)
    ensures
        same == (a == b),
{
    a.index1 == b.index1 && a.generation == b.generation
}

/// A recording attached to the world it captures; `recording` identifies the native recording.
#[derive(Clone, Copy, Debug, PartialEq, Eq, Structural)]
pub struct ActiveRecording {
    pub world: ReplayWorldId,
    pub recording: usize,
}

/// The recording attached to `world`: the first matching entry.
pub open spec fn recording_of(records: Seq<ActiveRecording>, world: ReplayWorldId) -> Option<usize>
    decreases records.len(),
{
    if records.len() == 0 {
        None
    } else if records[0].world == world {
        Some(records[0].recording)
    } else {
        recording_of(records.drop_first(), world)
    }
}

/// The entries whose `keep` flag is set, in order.
pub open spec fn keep_flagged(records: Seq<ActiveRecording>, keep: Seq<bool>) -> Seq<ActiveRecording>
    decreases records.len(),
{
    if records.len() == 0 {
        Seq::empty()
    } else {
        let rest = keep_flagged(records.drop_last(), keep);
        if keep[records.len() - 1] {
            rest.push(records.last())
        } else {
            rest
        }
    }
}

/// The entries that do not refer to native recording `recording`, in order.
pub open spec fn without_recording(records: Seq<ActiveRecording>, recording: usize) -> Seq<
    ActiveRecording,
> {
    records.filter(|r: ActiveRecording| r.recording != recording)
}

/// The entries that are not attached to `world`, in order.
pub open spec fn without_world(records: Seq<ActiveRecording>, world: ReplayWorldId) -> Seq<
    ActiveRecording,
> {
    records.filter(|r: ActiveRecording| r.world != world)
}

proof fn lemma_recording_of_prefix(records: Seq<ActiveRecording>, world: ReplayWorldId, i: int)
    requires
        0 <= i <= records.len(),
        forall|j: int| 0 <= j < i ==> records[j].world != world,
    ensures
        recording_of(records, world) == recording_of(records.subrange(i, records.len() as int), world),
    decreases i,
{
    if i > 0 {
        lemma_recording_of_prefix(records, world, i - 1);
        let tail = records.subrange(i - 1, records.len() as int);
        assert(tail.len() > 0);
        assert(tail[0] == records[i - 1]);
        assert(tail.drop_first() =~= records.subrange(i, records.len() as int));
    } else {
        assert(records.subrange(0, records.len() as int) =~= records);
    }
}

proof fn lemma_recording_of_push(records: Seq<ActiveRecording>, entry: ActiveRecording, world: ReplayWorldId)
    ensures
        recording_of(records.push(entry), world) == (if recording_of(records, world) is Some {
            recording_of(records, world)
        } else if entry.world == world {
            Some(entry.recording)
        } else {
            None
        }),
    decreases records.len(),
{
    if records.len() > 0 {
        assert(records.push(entry)[0] == records[0]);
        assert(records.push(entry).drop_first() =~= records.drop_first().push(entry));
        lemma_recording_of_push(records.drop_first(), entry, world);
    } else {
        assert(records.push(entry)[0] == entry);
        assert(records.push(entry).drop_first() =~= Seq::<ActiveRecording>::empty());
        assert(recording_of(Seq::<ActiveRecording>::empty(), world) is None);
    }
}

/// The registry of recordings attached to worlds: at most one recording captures a world.
#[derive(Debug)]
pub struct RecordingRegistry {
    records: Vec<ActiveRecording>,
}

impl View for RecordingRegistry {
    type V = Seq<ActiveRecording>;

    closed spec fn view(&self) -> Seq<ActiveRecording> {
        self.records@
    }
}

impl RecordingRegistry {
    /// An empty registry.
    pub fn new() -> (r: Self)
        ensures
            r@ == Seq::<ActiveRecording>::empty(),
    {
        RecordingRegistry { records: Vec::new() }
    }

    /// Number of attached recordings.
    pub fn len(&self) -> (n: usize)
        ensures
            n == self@.len(),
    {
        self.records.len()
    }

    /// The worlds of the attached recordings, in order, so their liveness can be checked.
    pub fn worlds(&self) -> (ws: Vec<ReplayWorldId>)
        ensures
            ws@.len() == self@.len(),
            forall|i: int| 0 <= i < ws@.len() ==> ws@[i] == #[trigger] self@[i].world,
    {
        let mut ws: Vec<ReplayWorldId> = Vec::new();
        let mut i: usize = 0;
        while i < self.records.len()
            invariant
                i <= self.records@.len(),
                ws@.len() == i,
                forall|j: int| 0 <= j < i ==> ws@[j] == #[trigger] self.records@[j].world,
            decreases self.records@.len() - i,
        {
            ws.push(self.records[i].world);
            i = i + 1;
        }
        ws
    }

    /// Drops the entries whose world is no longer live; `live[i]` tells whether the world of
    /// entry `i` (in the order of [`Self::worlds`]) is still live.
    pub fn retain_live_worlds(&mut self, live: &Vec<bool>)
        requires
            live@.len() == old(self)@.len(),
        ensures
            final(self)@ == keep_flagged(old(self)@, live@),
    {
        let mut kept: Vec<ActiveRecording> = Vec::new();
        let mut i: usize = 0;
        while i < self.records.len()
            invariant
                i <= self.records@.len(),
                live@.len() == self.records@.len(),
                kept@ == keep_flagged(self.records@.subrange(0, i as int), live@),
            decreases self.records@.len() - i,
        {
            proof {
                let s = self.records@.subrange(0, i + 1);
                assert(s.drop_last() =~= self.records@.subrange(0, i as int));
            }
            if live[i] {
                kept.push(self.records[i]);
            }
            i = i + 1;
        }
        proof {
            assert(self.records@.subrange(0, self.records@.len() as int) =~= self.records@);
        }
        self.records = kept;
    }

    /// The recording attached to `world`, if any.
    pub fn recording_for_world(&self, world: ReplayWorldId) -> (r: Option<usize>)
        ensures
            r == recording_of(self@, world),
    {
        let mut i: usize = 0;
        while i < self.records.len()
            invariant
                i <= self.records@.len(),
                forall|j: int| 0 <= j < i ==> self.records@[j].world != world,
            decreases self.records@.len() - i,
        {
            if same_world_id(self.records[i].world, world) {
                proof {
                    lemma_recording_of_prefix(self.records@, world, i as int);
                    let tail = self.records@.subrange(i as int, self.records@.len() as int);
                    assert(tail[0] == self.records@[i as int]);
                }
                return Some(self.records[i].recording);
            }
            i = i + 1;
        }
        proof {
            lemma_recording_of_prefix(self.records@, world, i as int);
            assert(self.records@.subrange(i as int, self.records@.len() as int).len() == 0);
        }
        None
    }

    /// Whether `recording` is the one attached to `world`.
    pub fn recording_matches(&self, world: ReplayWorldId, recording: usize) -> (b: bool)
        ensures
            b == (recording_of(self@, world) == Some(recording)),
    {
        match self.recording_for_world(world) {
            Some(r) => r == recording,
            None => false,
        }
    }

    /// Attaches `recording` to `world`.
    pub fn insert(&mut self, world: ReplayWorldId, recording: usize)
        ensures
            final(self)@ == old(self)@.push(ActiveRecording { world, recording }),
    {
        self.records.push(ActiveRecording { world, recording });
    }

    /// Detaches native recording `recording` from whatever world it captures.
    pub fn remove_recording(&mut self, recording: usize)
        ensures
            final(self)@ == without_recording(old(self)@, recording),
    {
        let mut kept: Vec<ActiveRecording> = Vec::new();
        let mut i: usize = 0;
        while i < self.records.len()
            invariant
                i <= self.records@.len(),
                kept@ == without_recording(self.records@.subrange(0, i as int), recording),
            decreases self.records@.len() - i,
        {
            proof {
                let s = self.records@.subrange(0, i + 1);
                assert(s.drop_last() =~= self.records@.subrange(0, i as int));
                reveal_with_fuel(Seq::filter, 1);
            }
            if self.records[i].recording != recording {
                kept.push(self.records[i]);
            }
            i = i + 1;
        }
        proof {
            assert(self.records@.subrange(0, self.records@.len() as int) =~= self.records@);
        }
        self.records = kept;
    }

    /// Detaches every recording from `world` (the world is being destroyed).
    pub fn detach_world(&mut self, world: ReplayWorldId)
        ensures
            final(self)@ == without_world(old(self)@, world),
    {
        let mut kept: Vec<ActiveRecording> = Vec::new();
        let mut i: usize = 0;
        while i < self.records.len()
            invariant
                i <= self.records@.len(),
                kept@ == without_world(self.records@.subrange(0, i as int), world),
            decreases self.records@.len() - i,
        {
            proof {
                let s = self.records@.subrange(0, i + 1);
                assert(s.drop_last() =~= self.records@.subrange(0, i as int));
                reveal_with_fuel(Seq::filter, 1);
            }
            if !same_world_id(self.records[i].world, world) {
                kept.push(self.records[i]);
            }
            i = i + 1;
        }
        proof {
            assert(self.records@.subrange(0, self.records@.len() as int) =~= self.records@);
        }
        self.records = kept;
    }
}

/// The world a recording still captures once a capture of a world that is no longer live has
/// been forgotten.
pub open spec fn cleared_active(active_world: Option<ReplayWorldId>, active_world_live: bool) -> Option<
    ReplayWorldId,
> {
    if active_world is Some && !active_world_live {
        None
    } else {
        active_world
    }
}

fn clear_inactive_world(active_world: &mut Option<ReplayWorldId>, active_world_live: bool)
    ensures
        *final(active_world) == cleared_active(*old(active_world), active_world_live),
{
    if active_world.is_some() && !active_world_live {
        *active_world = None;
    }
}

/// Attaches native recording `recording` to `world`, as starting a recording does once the world
/// is known to be valid. `active_world` is the world the recording captures so far and
/// `active_world_live` whether that world is still live; `registry_live[i]` tells whether the
/// world of registry entry `i` is still live, and entries of worlds that are gone are pruned
/// before the registry is consulted.
///
/// A recording that still captures a live world, or a world that already has a recording, is
/// refused with [`Error::ResourceLifetimeViolation`].
pub fn start_recording(
    registry: &mut RecordingRegistry,
    registry_live: &Vec<bool>,
    active_world: &mut Option<ReplayWorldId>,
    active_world_live: bool,
    world: ReplayWorldId,
    recording: usize,
) -> (r: Result<(), Error>)
    requires
        registry_live@.len() == old(registry)@.len(),
    ensures
        ({
            let cleared = cleared_active(*old(active_world), active_world_live);
            let pruned = keep_flagged(old(registry)@, registry_live@);
            if cleared is Some {
                &&& r == Err::<(), Error>(Error::ResourceLifetimeViolation)
                &&& final(registry)@ == old(registry)@
                &&& *final(active_world) == cleared
            } else if recording_of(pruned, world) is Some {
                &&& r == Err::<(), Error>(Error::ResourceLifetimeViolation)
                &&& final(registry)@ == pruned
                &&& *final(active_world) == None::<ReplayWorldId>
            } else {
                &&& r == Ok::<(), Error>(())
                &&& final(registry)@ == pruned.push(ActiveRecording { world, recording })
                &&& *final(active_world) == Some(world)
            }
        }),
{
    clear_inactive_world(active_world, active_world_live);
    if active_world.is_some() {
        return Err(Error::ResourceLifetimeViolation);
    }
    registry.retain_live_worlds(registry_live);
    if registry.recording_for_world(world).is_some() {
        return Err(Error::ResourceLifetimeViolation);
    }
    registry.insert(world, recording);
    *active_world = Some(world);
    Ok(())
}

/// Detaches native recording `recording` from `world`, as stopping a recording does once the
/// world is known to be valid. The recording must be the one attached to `world` (the registry
/// is pruned of worlds that are gone, as `registry_live` tells, before it is consulted);
/// otherwise the call is refused with [`Error::ResourceLifetimeViolation`].
pub fn stop_recording(
    registry: &mut RecordingRegistry,
    registry_live: &Vec<bool>,
    active_world: &mut Option<ReplayWorldId>,
    active_world_live: bool,
    world: ReplayWorldId,
    recording: usize,
) -> (r: Result<(), Error>)
    requires
        registry_live@.len() == old(registry)@.len(),
    ensures
        ({
            let cleared = cleared_active(*old(active_world), active_world_live);
            let pruned = keep_flagged(old(registry)@, registry_live@);
            if cleared == Some(world) && recording_of(pruned, world) == Some(recording) {
                &&& r == Ok::<(), Error>(())
                &&& final(registry)@ == without_recording(pruned, recording)
                &&& *final(active_world) == None::<ReplayWorldId>
            } else if cleared == Some(world) {
                &&& r == Err::<(), Error>(Error::ResourceLifetimeViolation)
                &&& final(registry)@ == pruned
                &&& *final(active_world) == cleared
            } else {
                &&& r == Err::<(), Error>(Error::ResourceLifetimeViolation)
                &&& final(registry)@ == old(registry)@
                &&& *final(active_world) == cleared
            }
        }),
{
    clear_inactive_world(active_world, active_world_live);
    let active = match *active_world {
        Some(w) => w,
        None => {
            return Err(Error::ResourceLifetimeViolation);
        },
    };
    if !same_world_id(active, world) {
        return Err(Error::ResourceLifetimeViolation);
    }
    registry.retain_live_worlds(registry_live);
    if !registry.recording_matches(world, recording) {
        return Err(Error::ResourceLifetimeViolation);
    }
    registry.remove_recording(recording);
    *active_world = None;
    Ok(())
}

proof fn lemma_filter_keeps_all(records: Seq<ActiveRecording>, pred: spec_fn(ActiveRecording) -> bool)
    requires
        forall|i: int| 0 <= i < records.len() ==> pred(#[trigger] records[i]),
    ensures
        records.filter(pred) == records,
    decreases records.len(),
{
    reveal(Seq::filter);
    if records.len() > 0 {
        lemma_filter_keeps_all(records.drop_last(), pred);
        assert(records.drop_last().push(records.last()) =~= records);
    }
}

/// Pruning keeps every entry when every world is still live.
pub proof fn lemma_prune_all_live(records: Seq<ActiveRecording>, live: Seq<bool>)
    requires
        live.len() == records.len(),
        forall|i: int| 0 <= i < live.len() ==> #[trigger] live[i],
    ensures
        keep_flagged(records, live) == records,
    decreases records.len(),
{
    if records.len() > 0 {
        lemma_prune_all_live(records.drop_last(), live.subrange(0, live.len() - 1));
        lemma_keep_flagged_prefix(records.drop_last(), live);
        assert(records.drop_last().push(records.last()) =~= records);
    }
}

proof fn lemma_keep_flagged_prefix(records: Seq<ActiveRecording>, live: Seq<bool>)
    requires
        live.len() >= records.len(),
    ensures
        keep_flagged(records, live) == keep_flagged(records, live.subrange(0, records.len() as int)),
    decreases records.len(),
{
    if records.len() > 0 {
        lemma_keep_flagged_prefix(records.drop_last(), live);
        lemma_keep_flagged_prefix(records.drop_last(), live.subrange(0, records.len() as int));
        assert(live.subrange(0, records.len() as int).subrange(0, records.len() - 1) =~= live.subrange(
            0,
            records.len() - 1,
        ));
    }
}

/// Starting a recording on a world that has none and stopping it again succeeds and leaves the
/// registry as it was, provided the recording was attached nowhere before.
pub proof fn lemma_start_then_stop_restores(
    registry: Seq<ActiveRecording>,
    world: ReplayWorldId,
    recording: usize,
)
    requires
        recording_of(registry, world) is None,
        forall|i: int| 0 <= i < registry.len() ==> (#[trigger] registry[i]).recording != recording,
    ensures
        recording_of(registry.push(ActiveRecording { world, recording }), world) == Some(recording),
        without_recording(registry.push(ActiveRecording { world, recording }), recording) == registry,
{
    let entry = ActiveRecording { world, recording };
    lemma_recording_of_push(registry, entry, world);
    let pred = |r: ActiveRecording| r.recording != recording;
    reveal(Seq::filter);
    assert(registry.push(entry).drop_last() =~= registry);
    lemma_filter_keeps_all(registry, pred);
}

/// Once a recording captures a world, no other recording can be attached to that world until it
/// is detached.
pub proof fn lemma_one_recording_per_world(
    registry: Seq<ActiveRecording>,
    world: ReplayWorldId,
    recording: usize,
)
    requires
        recording_of(registry, world) is None,
    ensures
        recording_of(registry.push(ActiveRecording { world, recording }), world) is Some,
{
    lemma_recording_of_push(registry, ActiveRecording { world, recording }, world);
}

/// Checks the arguments of replay validation and replay player creation: a non-empty byte
/// stream whose length fits in `i32`, and at least one worker.
pub fn validate_replay_input(bytes: &[u8], worker_count: i32) -> (r: Result<(), Error>)
    ensures
        r == (if bytes@.len() == 0 || bytes@.len() > i32::MAX || worker_count < 1 {
            Err::<(), Error>(Error::InvalidArgument)
        } else {
            Ok::<(), Error>(())
        }),
{
    if bytes.len() == 0 || bytes.len() > i32::MAX as usize || worker_count < 1 {
        Err(Error::InvalidArgument)
    } else {
        Ok(())
    }
}

/// Converts an optional index into the native encoding, where `-1` means "none"; a negative
/// index is out of range.
pub fn checked_optional_index(index: Option<i32>) -> (r: Result<i32, Error>)
    ensures
        r == (match index {
            Some(i) => if i < 0 {
                Err::<i32, Error>(Error::IndexOutOfRange)
            } else {
                Ok::<i32, Error>(i)
            },
            None => Ok::<i32, Error>(-1i32),
        }),
{
    match index {
        Some(index) => {
            if index < 0 {
                Err(Error::IndexOutOfRange)
            } else {
                Ok(index)
            }
        },
        None => Ok(-1),
    }
}

/// Checks and encodes the query selection for drawing a frame's recorded queries: both indices
/// must be non-negative when given, and a given query index must name one of the frame's
/// `frame_query_count` queries.
pub fn draw_query_indices(
    query_index: Option<i32>,
    selected_index: Option<i32>,
    frame_query_count: i32,
) -> (r: Result<(i32, i32), Error>)
    ensures
        (query_index matches Some(q) && q < 0) ==> r == Err::<(i32, i32), Error>(Error::IndexOutOfRange),
        (selected_index matches Some(s) && s < 0) ==> r == Err::<(i32, i32), Error>(Error::IndexOutOfRange),
        (query_index matches Some(q) && q >= frame_query_count) ==> r == Err::<(i32, i32), Error>(
            Error::IndexOutOfRange,
        ),
        r is Ok <==> (!(query_index matches Some(q) && (q < 0 || q >= frame_query_count)) && !(
        selected_index matches Some(s) && s < 0)),
        r matches Ok(p) ==> p.0 == (match query_index {
            Some(q) => q,
            None => -1i32,
        }) && p.1 == (match selected_index {
            Some(s) => s,
            None => -1i32,
        }),
{
    let query = checked_optional_index(query_index)?;
    let selected = checked_optional_index(selected_index)?;
    if query >= 0 && query >= frame_query_count {
        return Err(Error::IndexOutOfRange);
    }
    Ok((query, selected))
}

/// The frame at which a replay diverged, from the native encoding where a negative frame means
/// "never".
pub fn diverge_frame_from_raw(frame: i32) -> (r: Option<i32>)
    ensures
        r == (if frame >= 0 {
            Some(frame)
        } else {
            None::<i32>
        }),
{
    if frame >= 0 {
        Some(frame)
    } else {
        None
    }
}

/// Checks the frame a replay player seeks to: zero or more.
pub fn check_seek_frame(target_frame: i32) -> (r: Result<(), Error>)
    ensures
        r == (if target_frame < 0 {
            Err::<(), Error>(Error::InvalidArgument)
        } else {
            Ok::<(), Error>(())
        }),
{
    if target_frame < 0 {
        Err(Error::InvalidArgument)
    } else {
        Ok(())
    }
}

/// Checks the worker count of a replay player: at least one.
pub fn check_replay_worker_count(count: i32) -> (r: Result<(), Error>)
    ensures
        r == (if count < 1 {
            Err::<(), Error>(Error::InvalidArgument)
        } else {
            Ok::<(), Error>(())
        }),
{
    if count < 1 {
        Err(Error::InvalidArgument)
    } else {
        Ok(())
    }
}

/// Checks the minimum interval between replay keyframes: zero or more frames.
pub fn check_keyframe_min_interval(min_interval_frames: i32) -> (r: Result<(), Error>)
    ensures
        r == (if min_interval_frames < 0 {
            Err::<(), Error>(Error::InvalidArgument)
        } else {
            Ok::<(), Error>(())
        }),
{
    if min_interval_frames < 0 {
        Err(Error::InvalidArgument)
    } else {
        Ok(())
    }
}

/// The body a replay reports at some index: a null id (index zero) means there is none.
pub fn replay_body_id(raw: BodyId) -> (r: Option<BodyId>)
    ensures
        r == (if raw.index1 == 0 {
            None::<BodyId>
        } else {
            Some(raw)
        }),
{
    if raw.index1 == 0 {
        None
    } else {
        Some(raw)
    }
}

/// Converts the byte capacity of a new recording into the native `i32`; a capacity that does
/// not fit is refused.
pub fn checked_recording_capacity(byte_capacity: usize) -> (r: Result<i32, Error>)
    ensures
        r == (if byte_capacity <= i32::MAX {
            Ok::<i32, Error>(byte_capacity as i32)
        } else {
            Err::<i32, Error>(Error::InvalidArgument)
        }),
{
    if byte_capacity > i32::MAX as usize {
        Err(Error::InvalidArgument)
    } else {
        Ok(byte_capacity as i32)
    }
}

/// Decides whether a recording's bytes may be read or saved: a call from inside a callback is
/// refused with [`Error::InCallback`], and a recording that still captures a live world with
/// [`Error::ResourceLifetimeViolation`]. `active_world` is the world the recording captures and
/// `active_world_live` whether that world is still live.
pub fn check_recording_readable(
    thread: &CallbackState,
    active_world: Option<ReplayWorldId>,
    active_world_live: bool,
) -> (r: Result<(), Error>)
    ensures
        r == (if thread@ > 0 {
            Err::<(), Error>(Error::InCallback)
        } else if active_world is Some && active_world_live {
            Err::<(), Error>(Error::ResourceLifetimeViolation)
        } else {
            Ok::<(), Error>(())
        }),
{
    check_not_in_callback(thread)?;
    if active_world.is_some() && active_world_live {
        return Err(Error::ResourceLifetimeViolation);
    }
    Ok(())
}

} // verus!
