use vstd::prelude::*;

use std::collections::BTreeMap;

use crate::error::Error;

verus! {

broadcast use {vstd::laws_cmp::group_laws_cmp, vstd::std_specs::btree::group_btree_axioms};

/// Stable handle for a proxy stored in a dynamic tree.
///
/// The generation component prevents accidentally reusing a stale handle after a proxy has been
/// destroyed and another proxy has reused the same native proxy index.
#[derive(Clone, Copy, Debug, PartialEq, Eq, Structural, PartialOrd, Ord, Hash)]
pub struct DynamicTreeProxyId {
    index: i32,
    generation: u64,
}

impl DynamicTreeProxyId {
    pub closed spec fn spec_index(self) -> i32 {
        self.index
    }

    pub closed spec fn spec_generation(self) -> u64 {
        self.generation
    }

    /// The native proxy index portion of this handle.
    pub fn index(self) -> (i: i32)
        ensures
            i == self.spec_index(),
    {
        self.index
    }

    /// The generation paired with the native proxy index.
    ///
    /// A mismatched generation means the handle refers to a proxy that has already been removed
    /// or whose index has been recycled.
    pub fn generation(self) -> (g: u64)
        ensures
            g == self.spec_generation(),
    {
        self.generation
    }

    /// Pairs a native proxy index with a generation.
    pub(crate) fn from_raw_parts(index: i32, generation: u64) -> (id: Self)
        ensures
            id.spec_index() == index,
            id.spec_generation() == generation,
    {
        DynamicTreeProxyId { index, generation }
    }

    /// The native proxy index handed to the tree.
    pub fn into_raw(self) -> (i: i32)
        ensures
            i == self.spec_index(),
    {
        self.index
    }
}

/// Category filter used by dynamic tree queries and casts.
#[derive(Clone, Copy, Debug, PartialEq, Eq, Structural)]
pub struct DynamicTreeFilter {
    /// Category bit mask to test against candidate proxies.
    pub mask_bits: u64,
    /// When true, every bit in `mask_bits` must be present on the proxy category.
    pub require_all_bits: bool,
}

impl DynamicTreeFilter {
    /// A filter that accepts proxies sharing any bit in `mask_bits`.
    pub fn new(mask_bits: u64) -> (f: Self)
        ensures
            f.mask_bits == mask_bits,
            !f.require_all_bits,
    {
        DynamicTreeFilter { mask_bits, require_all_bits: false }
    }

    /// Sets whether matching requires all mask bits instead of any shared bit.
    pub fn require_all_bits(self, require_all_bits: bool) -> (f: Self)
        ensures
            f.mask_bits == self.mask_bits,
            f.require_all_bits == require_all_bits,
    {
        let mut f = self;
        f.require_all_bits = require_all_bits;
        f
    }
}

impl Default for DynamicTreeFilter {
    /// Accepts every proxy: all mask bits set, any shared bit suffices.
    fn default() -> (f: Self)
        ensures
            f.mask_bits == u64::MAX,
            !f.require_all_bits,
    {
        DynamicTreeFilter { mask_bits: u64::MAX, require_all_bits: false }
    }
}

/// Result item produced by an AABB query.
#[derive(Clone, Copy, Debug, PartialEq, Eq, Structural)]
pub struct DynamicTreeHit {
    /// Proxy that matched the query.
    pub proxy_id: DynamicTreeProxyId,
    /// Caller-owned payload stored on the proxy.
    pub user_data: u64,
}

/// What the library remembers of a live proxy (its bounds stay with the native tree).
#[derive(Clone, Copy, Debug, PartialEq, Eq, Structural)]
pub struct ProxyRecord {
    /// Generation of the handle that names this proxy.
    pub generation: u64,
    /// Category bits used by query and cast filters.
    pub category_bits: u64,
    /// Caller-owned payload returned by query and cast callbacks.
    pub user_data: u64,
}

/// The generation issued for an index whose previous generation was `prev` (zero when the index
/// was never used): one more, wrapping, and never zero.
pub open spec fn next_generation_after(prev: u64) -> u64 {
    if prev == u64::MAX {
        1
    } else {
        (prev + 1) as u64
    }
}

/// Handle bookkeeping of a dynamic tree: which native proxy indices are live, under which
/// generation, and whether enlarged nodes remain since the last rebuild.
#[derive(Debug)]
pub struct ProxyTable {
    proxies: BTreeMap<i32, ProxyRecord>,
    generations: BTreeMap<i32, u64>,
    has_enlarged_nodes: bool,
}

impl ProxyTable {
    /// Live proxies by native index.
    pub closed spec fn live(&self) -> Map<i32, ProxyRecord> {
        self.proxies@
    }

    /// Last generation issued for each native index ever used.
    pub closed spec fn issued(&self) -> Map<i32, u64> {
        self.generations@
    }

    /// Whether enlarged nodes remain since the last rebuild.
    pub closed spec fn enlarged(&self) -> bool {
        self.has_enlarged_nodes
    }

    /// Every live proxy has a non-negative index and carries the last, non-zero generation
    /// issued for that index.
    pub open spec fn wf(&self) -> bool {
        forall|i: i32| #[trigger]
            self.live().contains_key(i) ==> {
                &&& i >= 0
                &&& self.issued().contains_key(i)
                &&& self.issued()[i] == self.live()[i].generation
                &&& self.live()[i].generation != 0
            }
    }

    /// Whether `id` names a live proxy of this table.
    pub open spec fn accepts(&self, id: DynamicTreeProxyId) -> bool {
        &&& self.live().contains_key(id.spec_index())
        &&& id.spec_index() >= 0
        &&& id.spec_generation() != 0
        &&& id.spec_generation() == self.live()[id.spec_index()].generation
    }

    /// The last generation issued for `index`, or zero when it was never used.
    pub open spec fn prev_generation(&self, index: i32) -> u64 {
        if self.issued().contains_key(index) {
            self.issued()[index]
        } else {
            0
        }
    }

    /// `self` is `old` after the native tree created a proxy at `index`, named by `id`.
    pub open spec fn created_from(
        &self,
        old: &ProxyTable,
        index: i32,
        category_bits: u64,
        user_data: u64,
        id: DynamicTreeProxyId,
    ) -> bool {
        &&& id.spec_index() == index
        &&& id.spec_generation() == next_generation_after(old.prev_generation(index))
        &&& self.live() == old.live().insert(
            index,
            ProxyRecord { generation: id.spec_generation(), category_bits, user_data },
        )
        &&& self.issued() == old.issued().insert(index, id.spec_generation())
        &&& self.enlarged() == old.enlarged()
    }

    /// `self` is `old` after the proxy named by `id` was destroyed.
    pub open spec fn destroyed_from(&self, old: &ProxyTable, id: DynamicTreeProxyId) -> bool {
        &&& self.live() == old.live().remove(id.spec_index())
        &&& self.issued() == old.issued()
        &&& self.enlarged() == old.enlarged()
    }

    /// An empty table.
    pub fn new() -> (t: Self)
        ensures
            t.wf(),
            t.live() == Map::<i32, ProxyRecord>::empty(),
            t.issued() == Map::<i32, u64>::empty(),
            !t.enlarged(),
    {
        ProxyTable { proxies: BTreeMap::new(), generations: BTreeMap::new(), has_enlarged_nodes: false }
    }

    fn next_generation(&mut self, index: i32) -> (g: u64)
        ensures
            g == next_generation_after(old(self).prev_generation(index)),
            final(self).issued() == old(self).issued().insert(index, g),
            final(self).live() == old(self).live(),
            final(self).enlarged() == old(self).enlarged(),
    {
        let prev: u64 = match self.generations.get(&index) {
            Some(g) => *g,
            None => 0,
        };
        let bumped = prev.wrapping_add(1);
        let g = if bumped == 0 { 1 } else { bumped };
        self.generations.insert(index, g);
        g
    }

    /// Records a proxy that the native tree created at `index`. A negative index means the
    /// native tree refused the proxy, and is reported as [`Error::InvalidArgument`].
    pub fn record_created_proxy(&mut self, index: i32, category_bits: u64, user_data: u64) -> (r:
        Result<DynamicTreeProxyId, Error>)
        requires
            old(self).wf(),
        ensures
            final(self).wf(),
            index < 0 ==> r == Err::<DynamicTreeProxyId, Error>(Error::InvalidArgument) && *final(self)
                == *old(self),
            index >= 0 ==> r is Ok,
            r matches Ok(id) ==> final(self).created_from(old(self), index, category_bits, user_data, id)
                && final(self).accepts(id),
    {
        if index < 0 {
            return Err(Error::InvalidArgument);
        }
        let generation = self.next_generation(index);
        self.proxies.insert(index, ProxyRecord { generation, category_bits, user_data });
        Ok(DynamicTreeProxyId::from_raw_parts(index, generation))
    }

    /// The record of the live proxy named by `id`; [`Error::InvalidArgument`] for a handle that
    /// is unknown, stale, or was never issued.
    pub fn proxy_entry(&self, id: DynamicTreeProxyId) -> (r: Result<ProxyRecord, Error>)
        ensures
            self.accepts(id) ==> r == Ok::<ProxyRecord, Error>(self.live()[id.spec_index()]),
            !self.accepts(id) ==> r == Err::<ProxyRecord, Error>(Error::InvalidArgument),
    {
        let index = id.into_raw();
        match self.proxies.get(&index) {
            None => Err(Error::InvalidArgument),
            Some(entry) => {
                if index >= 0 && id.generation() != 0 && id.generation() == entry.generation {
                    Ok(*entry)
                } else {
                    Err(Error::InvalidArgument)
                }
            },
        }
    }

    /// The native index of the live proxy named by `id`.
    pub fn proxy_index(&self, id: DynamicTreeProxyId) -> (r: Result<i32, Error>)
        ensures
            self.accepts(id) ==> r == Ok::<i32, Error>(id.spec_index()),
            !self.accepts(id) ==> r == Err::<i32, Error>(Error::InvalidArgument),
    {
        let index = id.into_raw();
        self.proxy_entry(id)?;
        Ok(index)
    }

    /// Whether `id` still names a live proxy of this table.
    pub fn contains_proxy(&self, id: DynamicTreeProxyId) -> (b: bool)
        ensures
            b == self.accepts(id),
    {
        self.proxy_entry(id).is_ok()
    }

    /// The handle reported for a native index met during a traversal: the live generation, or
    /// zero (a handle no table accepts) when the index is not live.
    pub fn proxy_id_for_index(&self, index: i32) -> (id: DynamicTreeProxyId)
        ensures
            id.spec_index() == index,
            id.spec_generation() == (if self.live().contains_key(index) {
                self.live()[index].generation
            } else {
                0
            }),
    {
        let generation: u64 = match self.proxies.get(&index) {
            Some(entry) => entry.generation,
            None => 0,
        };
        DynamicTreeProxyId::from_raw_parts(index, generation)
    }

    /// Forgets the proxy named by `id` and returns the native index to destroy. Enlarged nodes
    /// are only eliminated by a rebuild, so the enlarged state is left as it is.
    pub fn destroy_proxy(&mut self, id: DynamicTreeProxyId) -> (r: Result<i32, Error>)
        requires
            old(self).wf(),
        ensures
            final(self).wf(),
            old(self).accepts(id) ==> r == Ok::<i32, Error>(id.spec_index()) && final(self).destroyed_from(
                old(self),
                id,
            ),
            !old(self).accepts(id) ==> r == Err::<i32, Error>(Error::InvalidArgument) && *final(self)
                == *old(self),
            !final(self).accepts(id),
    {
        let index = self.proxy_index(id)?;
        self.proxies.remove(&index);
        Ok(index)
    }

    /// Replaces the category bits of the proxy named by `id`.
    pub fn set_category_bits(&mut self, id: DynamicTreeProxyId, category_bits: u64) -> (r: Result<
        i32,
        Error,
    >)
        requires
            old(self).wf(),
        ensures
            final(self).wf(),
            old(self).accepts(id) ==> {
                &&& r == Ok::<i32, Error>(id.spec_index())
                &&& final(self).live() == old(self).live().insert(
                    id.spec_index(),
                    ProxyRecord { category_bits, ..old(self).live()[id.spec_index()] },
                )
                &&& final(self).issued() == old(self).issued()
                &&& final(self).enlarged() == old(self).enlarged()
            },
            !old(self).accepts(id) ==> r == Err::<i32, Error>(Error::InvalidArgument) && *final(self)
                == *old(self),
    {
        let entry = self.proxy_entry(id)?;
        let index = id.into_raw();
        self.proxies.insert(index, ProxyRecord { category_bits, ..entry });
        Ok(index)
    }

    /// Records that a proxy was enlarged in place, leaving enlarged nodes until the next rebuild.
    pub fn record_enlarged(&mut self)
        ensures
            final(self).enlarged(),
            final(self).live() == old(self).live(),
            final(self).issued() == old(self).issued(),
    {
        self.has_enlarged_nodes = true;
    }

    /// Records a rebuild of the native tree, which eliminates enlarged nodes.
    pub fn record_rebuilt(&mut self)
        ensures
            !final(self).enlarged(),
            final(self).live() == old(self).live(),
            final(self).issued() == old(self).issued(),
    {
        self.has_enlarged_nodes = false;
    }

    /// Refuses the no-enlarged-nodes validation while enlarged nodes may remain.
    pub fn validate_no_enlarged(&self) -> (r: Result<(), Error>)
        ensures
            r == (if self.enlarged() {
                Err::<(), Error>(Error::InvalidArgument)
            } else {
                Ok::<(), Error>(())
            }),
    {
        if self.has_enlarged_nodes {
            Err(Error::InvalidArgument)
        } else {
            Ok(())
        }
    }

    /// Whether any proxy is live (the root bounds exist only then).
    pub fn has_proxies(&self) -> (b: bool)
        ensures
            b == !self.live().is_empty(),
    {
        !self.proxies.is_empty()
    }
}

/// Checks an initial proxy capacity hint: at most half of `i32::MAX`.
pub fn checked_proxy_capacity(proxy_capacity: usize) -> (r: Result<i32, Error>)
    ensures
        proxy_capacity <= i32::MAX / 2 ==> r == Ok::<i32, Error>(proxy_capacity as i32),
        proxy_capacity > i32::MAX / 2 ==> r == Err::<i32, Error>(Error::InvalidArgument),
{
    if proxy_capacity > (i32::MAX / 2) as usize {
        return Err(Error::InvalidArgument);
    }
    Ok(proxy_capacity as i32)
}

/// A count reported by the native tree (live proxies, bytes, sorted boxes); a negative count is
/// refused.
pub fn checked_count(count: i32) -> (r: Result<usize, Error>)
    ensures
        count >= 0 ==> r == Ok::<usize, Error>(count as usize),
        count < 0 ==> r == Err::<usize, Error>(Error::InvalidArgument),
{
    if count < 0 {
        Err(Error::InvalidArgument)
    } else {
        Ok(count as usize)
    }
}

/// A freshly issued generation is never zero and always differs from the previous one.
pub proof fn lemma_next_generation_fresh(prev: u64)
    ensures
        next_generation_after(prev) != 0,
        next_generation_after(prev) != prev,
{
}

/// A handle becomes stale once its proxy is destroyed, and stays stale when a new proxy reuses
/// the same native index; the new proxy gets a handle that is accepted.
pub proof fn lemma_stale_handle_rejected(
    t0: ProxyTable,
    t1: ProxyTable,
    t2: ProxyTable,
    id: DynamicTreeProxyId,
    category_bits: u64,
    user_data: u64,
    new_id: DynamicTreeProxyId,
)
    requires
        t0.wf(),
        t0.accepts(id),
        t1.destroyed_from(&t0, id),
        t2.created_from(&t1, id.spec_index(), category_bits, user_data, new_id),
    ensures
        !t1.accepts(id),
        !t2.accepts(id),
        t2.accepts(new_id),
        new_id.spec_index() == id.spec_index(),
        new_id != id,
{
    assert(t1.prev_generation(id.spec_index()) == id.spec_generation());
    lemma_next_generation_fresh(id.spec_generation());
}

/// A handle is determined by its index and generation: two handles that agree on both are the
/// same handle.
pub proof fn lemma_proxy_id_determined(a: DynamicTreeProxyId, b: DynamicTreeProxyId)
    requires
        a.spec_index() == b.spec_index(),
        a.spec_generation() == b.spec_generation(),
    ensures
        a == b,
{
}

/// One bookkeeping step of a proxy table, as the tree's operations take it.
#[derive(Clone, Copy, Debug, PartialEq, Eq, Structural)]
pub enum ProxyOp {
    /// The native tree created a proxy at `index`, and the table issued `id` for it.
    Create { index: i32, category_bits: u64, user_data: u64, id: DynamicTreeProxyId },
    /// A destroy request for the proxy named by `id`.
    Destroy { id: DynamicTreeProxyId },
    /// A category update for the proxy named by `id`.
    SetCategoryBits { id: DynamicTreeProxyId, category_bits: u64 },
    /// A proxy was enlarged in place.
    Enlarge,
    /// The native tree was rebuilt.
    Rebuild,
}

impl ProxyTable {
    /// `self` is what `old` becomes through `op`, as the contracts of
    /// [`Self::record_created_proxy`] (when it succeeds), [`Self::destroy_proxy`],
    /// [`Self::set_category_bits`], [`Self::record_enlarged`] and [`Self::record_rebuilt`]
    /// describe it.
    pub open spec fn stepped(&self, old: &ProxyTable, op: ProxyOp) -> bool {
        match op {
            ProxyOp::Create { index, category_bits, user_data, id } => index >= 0
                && self.created_from(old, index, category_bits, user_data, id),
            ProxyOp::Destroy { id } => if old.accepts(id) {
                self.destroyed_from(old, id)
            } else {
                *self == *old
            },
            ProxyOp::SetCategoryBits { id, category_bits } => if old.accepts(id) {
                &&& self.live() == old.live().insert(
                    id.spec_index(),
                    ProxyRecord { category_bits, ..old.live()[id.spec_index()] },
                )
                &&& self.issued() == old.issued()
                &&& self.enlarged() == old.enlarged()
            } else {
                *self == *old
            },
            ProxyOp::Enlarge => {
                &&& self.enlarged()
                &&& self.live() == old.live()
                &&& self.issued() == old.issued()
            },
            ProxyOp::Rebuild => {
                &&& !self.enlarged()
                &&& self.live() == old.live()
                &&& self.issued() == old.issued()
            },
        }
    }
}

/// `tables` are the successive states of one proxy table under `ops`.
pub open spec fn proxy_history(tables: Seq<ProxyTable>, ops: Seq<ProxyOp>) -> bool {
    &&& tables.len() == ops.len() + 1
    &&& forall|i: int| #![trigger ops[i]] 0 <= i < ops.len() ==> tables[i + 1].stepped(&tables[i], ops[i])
}

/// The native tree only creates proxies at indices that are not live.
pub open spec fn creates_at_free_indices(tables: Seq<ProxyTable>, ops: Seq<ProxyOp>) -> bool {
    forall|i: int| #![trigger ops[i]]
        0 <= i < ops.len() ==> (ops[i] matches ProxyOp::Create { index, .. } ==> !tables[i].live().contains_key(index))
}

proof fn lemma_step_keeps_accepted(old: ProxyTable, new: ProxyTable, op: ProxyOp, id: DynamicTreeProxyId)
    requires
        old.accepts(id),
        new.stepped(&old, op),
        op != (ProxyOp::Destroy { id }),
        op matches ProxyOp::Create { index, .. } ==> !old.live().contains_key(index),
    ensures
        new.accepts(id),
{
    match op {
        ProxyOp::Destroy { id: other } => {
            if old.accepts(other) && other.spec_index() == id.spec_index() {
                lemma_proxy_id_determined(other, id);
            }
        },
        _ => {},
    }
}

/// A handle stays accepted through every step but the destruction of its own proxy, as long as
/// the native tree creates proxies only at indices that are not live.
pub proof fn lemma_handle_accepted_until_destroyed(
    tables: Seq<ProxyTable>,
    ops: Seq<ProxyOp>,
    id: DynamicTreeProxyId,
)
    requires
        proxy_history(tables, ops),
        creates_at_free_indices(tables, ops),
        tables[0].accepts(id),
        forall|i: int| 0 <= i < ops.len() ==> #[trigger] ops[i] != (ProxyOp::Destroy { id }),
    ensures
        forall|k: int| 0 <= k < tables.len() ==> #[trigger] tables[k].accepts(id),
{
    assert forall|k: int| 0 <= k < tables.len() implies #[trigger] tables[k].accepts(id) by {
        lemma_accepted_upto(tables, ops, id, k);
    }
}

proof fn lemma_accepted_upto(tables: Seq<ProxyTable>, ops: Seq<ProxyOp>, id: DynamicTreeProxyId, k: int)
    requires
        proxy_history(tables, ops),
        creates_at_free_indices(tables, ops),
        tables[0].accepts(id),
        forall|i: int| 0 <= i < ops.len() ==> #[trigger] ops[i] != (ProxyOp::Destroy { id }),
        0 <= k < tables.len(),
    ensures
        tables[k].accepts(id),
    decreases k,
{
    if k > 0 {
        lemma_accepted_upto(tables, ops, id, k - 1);
        let op = ops[k - 1];
        lemma_step_keeps_accepted(tables[k - 1], tables[k], op, id);
    }
}

/// After the proxy named by `id` is destroyed, its native index only ever carries generations
/// above `id`'s, so `id` is refused.
spec fn reissued_above(t: ProxyTable, id: DynamicTreeProxyId) -> bool {
    &&& t.prev_generation(id.spec_index()) >= id.spec_generation()
    &&& t.live().contains_key(id.spec_index()) ==> t.live()[id.spec_index()].generation > id.spec_generation()
}

proof fn lemma_step_keeps_reissued_above(old: ProxyTable, new: ProxyTable, op: ProxyOp, id: DynamicTreeProxyId)
    requires
        reissued_above(old, id),
        new.stepped(&old, op),
        op matches ProxyOp::Create { index, .. } ==> (index == id.spec_index() ==> old.prev_generation(
            index,
        ) < u64::MAX),
    ensures
        reissued_above(new, id),
{
}

proof fn lemma_rejected_upto(tables: Seq<ProxyTable>, ops: Seq<ProxyOp>, id: DynamicTreeProxyId, k: int)
    requires
        proxy_history(tables, ops),
        tables[0].wf(),
        tables[0].accepts(id),
        ops.len() >= 1,
        ops[0] == (ProxyOp::Destroy { id }),
        forall|i: int| #![trigger ops[i]]
            0 <= i < ops.len() ==> (ops[i] matches ProxyOp::Create { index, .. } ==> (index
                == id.spec_index() ==> tables[i].prev_generation(index) < u64::MAX)),
        1 <= k < tables.len(),
    ensures
        reissued_above(tables[k], id),
    decreases k,
{
    if k > 1 {
        lemma_rejected_upto(tables, ops, id, k - 1);
        let op = ops[k - 1];
        lemma_step_keeps_reissued_above(tables[k - 1], tables[k], op, id);
    } else {
        let op = ops[0];
        assert(tables[1].stepped(&tables[0], op));
    }
}

/// Once the proxy named by `id` is destroyed, `id` is refused at every later step: a new proxy
/// at the same native index always gets a later generation. The one exception, left out here,
/// is an index reissued so often that its generation wraps around past `u64::MAX`.
pub proof fn lemma_destroyed_handle_stays_rejected(
    tables: Seq<ProxyTable>,
    ops: Seq<ProxyOp>,
    id: DynamicTreeProxyId,
)
    requires
        proxy_history(tables, ops),
        tables[0].wf(),
        tables[0].accepts(id),
        ops.len() >= 1,
        ops[0] == (ProxyOp::Destroy { id }),
        forall|i: int| #![trigger ops[i]]
            0 <= i < ops.len() ==> (ops[i] matches ProxyOp::Create { index, .. } ==> (index
                == id.spec_index() ==> tables[i].prev_generation(index) < u64::MAX)),
    ensures
        forall|k: int| 1 <= k < tables.len() ==> !#[trigger] tables[k].accepts(id),
{
    assert forall|k: int| 1 <= k < tables.len() implies !#[trigger] tables[k].accepts(id) by {
        lemma_rejected_upto(tables, ops, id, k);
    }
}

/// Destroying one proxy leaves every other live handle accepted, with its record unchanged.
pub proof fn lemma_destroy_keeps_other_handles(
    t0: ProxyTable,
    t1: ProxyTable,
    id: DynamicTreeProxyId,
    other: DynamicTreeProxyId,
)
    requires
        t0.accepts(id),
        t1.destroyed_from(&t0, id),
        t0.accepts(other),
        other != id,
    ensures
        t1.accepts(other),
        t1.live()[other.spec_index()] == t0.live()[other.spec_index()],
{
    if other.spec_index() == id.spec_index() {
        lemma_proxy_id_determined(other, id);
    }
}

/// Whether the proxy named by `id` was asked to be destroyed in one of the first `k` steps.
pub open spec fn destroyed_before(ops: Seq<ProxyOp>, id: DynamicTreeProxyId, k: int) -> bool {
    exists|i: int| #![trigger ops[i]] 0 <= i < k && ops[i] == (ProxyOp::Destroy { id })
}

/// The native tree only creates proxies at indices that are not live, and never reissues the
/// native index of `id` once its generation has reached `u64::MAX`.
pub open spec fn creates_without_wrap(tables: Seq<ProxyTable>, ops: Seq<ProxyOp>, id: DynamicTreeProxyId) -> bool {
    forall|i: int| #![trigger ops[i]]
        0 <= i < ops.len() ==> (ops[i] matches ProxyOp::Create { index, .. } ==> (index
            == id.spec_index() ==> tables[i].prev_generation(index) < u64::MAX))
}

proof fn lemma_step_keeps_wf(old: ProxyTable, new: ProxyTable, op: ProxyOp)
    requires
        old.wf(),
        new.stepped(&old, op),
    ensures
        new.wf(),
{
    match op {
        ProxyOp::Create { index, category_bits, user_data, id } => {
            lemma_next_generation_fresh(old.prev_generation(index));
            assert forall|i: i32| #[trigger] new.live().contains_key(i) implies {
                &&& i >= 0
                &&& new.issued().contains_key(i)
                &&& new.issued()[i] == new.live()[i].generation
                &&& new.live()[i].generation != 0
            } by {
                if i != index {
                    assert(old.live().contains_key(i));
                }
            }
        },
        ProxyOp::Destroy { id } => {
            if old.accepts(id) {
                assert forall|i: i32| #[trigger] new.live().contains_key(i) implies {
                    &&& i >= 0
                    &&& new.issued().contains_key(i)
                    &&& new.issued()[i] == new.live()[i].generation
                    &&& new.live()[i].generation != 0
                } by {
                    assert(old.live().contains_key(i));
                }
            }
        },
        ProxyOp::SetCategoryBits { id, category_bits } => {
            if old.accepts(id) {
                assert forall|i: i32| #[trigger] new.live().contains_key(i) implies {
                    &&& i >= 0
                    &&& new.issued().contains_key(i)
                    &&& new.issued()[i] == new.live()[i].generation
                    &&& new.live()[i].generation != 0
                } by {
                    assert(old.live().contains_key(i));
                }
            }
        },
        _ => {},
    }
}

proof fn lemma_acceptance_upto(tables: Seq<ProxyTable>, ops: Seq<ProxyOp>, id: DynamicTreeProxyId, k: int)
    requires
        proxy_history(tables, ops),
        tables[0].wf(),
        tables[0].accepts(id),
        creates_at_free_indices(tables, ops),
        creates_without_wrap(tables, ops, id),
        0 <= k < tables.len(),
    ensures
        tables[k].wf(),
        !destroyed_before(ops, id, k) ==> tables[k].accepts(id),
        destroyed_before(ops, id, k) ==> reissued_above(tables[k], id),
    decreases k,
{
    if k > 0 {
        lemma_acceptance_upto(tables, ops, id, k - 1);
        let op = ops[k - 1];
        lemma_step_keeps_wf(tables[k - 1], tables[k], op);
        if destroyed_before(ops, id, k - 1) {
            let i = choose|i: int| #![trigger ops[i]] 0 <= i < k - 1 && ops[i] == (ProxyOp::Destroy { id });
            assert(0 <= i < k && ops[i] == (ProxyOp::Destroy { id }));
            lemma_step_keeps_reissued_above(tables[k - 1], tables[k], op, id);
        } else if op == (ProxyOp::Destroy { id }) {
            assert(tables[k - 1].prev_generation(id.spec_index()) == id.spec_generation());
        } else {
            assert forall|i: int| #![trigger ops[i]] 0 <= i < k implies ops[i] != (ProxyOp::Destroy { id }) by {
                if i < k - 1 {
                    assert(!(0 <= i < k - 1 && ops[i] == (ProxyOp::Destroy { id })));
                }
            }
            lemma_step_keeps_accepted(tables[k - 1], tables[k], op, id);
        }
    }
}

/// A handle that a table accepts stays accepted exactly as long as its proxy has not been asked
/// to be destroyed: before that destroy every step keeps it, and from that destroy on every step
/// refuses it. This holds while the native tree creates proxies only at indices that are not
/// live and the generation of the handle's index does not wrap around past `u64::MAX`.
pub proof fn lemma_handle_accepted_iff_not_destroyed(
    tables: Seq<ProxyTable>,
    ops: Seq<ProxyOp>,
    id: DynamicTreeProxyId,
)
    requires
        proxy_history(tables, ops),
        tables[0].wf(),
        tables[0].accepts(id),
        creates_at_free_indices(tables, ops),
        creates_without_wrap(tables, ops, id),
    ensures
        forall|k: int|
            0 <= k < tables.len() ==> (#[trigger] tables[k].accepts(id) <==> !destroyed_before(ops, id, k)),
{
    assert forall|k: int| 0 <= k < tables.len() implies (#[trigger] tables[k].accepts(id)
        <==> !destroyed_before(ops, id, k)) by {
        lemma_acceptance_upto(tables, ops, id, k);
    }
}

} // verus!
