//! Per-scroll-node offset accumulators, clamped to overflow bounds and
//! garbage-collected by frame liveness.
//!
//! Offsets and deltas are integer scroll units; the platform layer converts
//! its own pixel measure to and from these units at the boundary.

use vstd::prelude::*;

verus! {

/// Clamps `v` into the interval `[0, bound]` (`bound` is assumed non-negative).
pub open spec fn clamp_to(v: int, bound: int) -> int {
    if v < 0 {
        0
    } else if v > bound {
        bound
    } else {
        v
    }
}

/// One scroll node's accumulated offset on each axis, together with the
/// maximum scrollable distance (overflow) on that axis and a liveness mark
/// telling whether the node was touched since the last frame boundary.
#[derive(Clone, Copy, Debug)]
pub struct ScrollState {
    /// Amount in scroll units that the node's content is scrolled horizontally.
    pub scroll_amount_x: i64,
    /// Amount in scroll units that the node's content is scrolled vertically.
    pub scroll_amount_y: i64,
    /// Maximum scrollable distance on the horizontal axis.
    pub overflow_x: i64,
    /// Maximum scrollable distance on the vertical axis.
    pub overflow_y: i64,
    /// Whether the node was touched since the last frame boundary.
    pub used_this_frame: bool,
}

impl ScrollState {
    /// Offsets stay inside `[0, overflow]` on both axes at all times.
    pub open spec fn wf(self) -> bool {
        &&& 0 <= self.scroll_amount_x <= self.overflow_x
        &&& 0 <= self.scroll_amount_y <= self.overflow_y
    }

    /// `self` after a scroll by `(dx, dy)`: each axis moves independently and
    /// is clamped to its own overflow bound; the node counts as touched.
    pub open spec fn scrolled(self, dx: int, dy: int) -> ScrollState {
        ScrollState {
            scroll_amount_x: clamp_to(self.scroll_amount_x + dx, self.overflow_x as int) as i64,
            scroll_amount_y: clamp_to(self.scroll_amount_y + dy, self.overflow_y as int) as i64,
            used_this_frame: true,
            ..self
        }
    }

    /// `self` marked as touched in the current frame.
    pub open spec fn touched(self) -> ScrollState {
        ScrollState { used_this_frame: true, ..self }
    }

    /// `self` marked as untouched, as every entry is right after a frame
    /// boundary.
    pub open spec fn untouched(self) -> ScrollState {
        ScrollState { used_this_frame: false, ..self }
    }

    /// A fresh zero-offset entry for a node with the given overflow bounds,
    /// touched in the frame that created it.
    pub fn new(overflow_x: i64, overflow_y: i64) -> (r: ScrollState)
        requires
            overflow_x >= 0,
            overflow_y >= 0,
        ensures
            r == (ScrollState {
                scroll_amount_x: 0,
                scroll_amount_y: 0,
                overflow_x: overflow_x,
                overflow_y: overflow_y,
                used_this_frame: true,
            }),
            r.wf(),
    {
        ScrollState {
            scroll_amount_x: 0,
            scroll_amount_y: 0,
            overflow_x: overflow_x,
            overflow_y: overflow_y,
            used_this_frame: true,
        }
    }

    /// Returns the current offset and marks the node as touched.
    pub fn get(&mut self) -> (r: (i64, i64))
        ensures
            r == (old(self).scroll_amount_x, old(self).scroll_amount_y),
            *final(self) == old(self).touched(),
    {
        self.used_this_frame = true;
        (self.scroll_amount_x, self.scroll_amount_y)
    }

    /// Adds `(x, y)` to the offset, each axis clamped independently to
    /// `[0, overflow]`, and marks the node as touched.
    pub fn add(&mut self, x: i64, y: i64)
        requires
            old(self).wf(),
        ensures
            *final(self) == old(self).scrolled(x as int, y as int),
            final(self).wf(),
    {
        self.scroll_amount_x = clamped_add(self.scroll_amount_x, self.overflow_x, x);
        self.scroll_amount_y = clamped_add(self.scroll_amount_y, self.overflow_y, y);
        self.used_this_frame = true;
    }
}

impl Default for ScrollState {
    /// A zero-offset, zero-overflow entry, touched in the current frame.
    fn default() -> (r: ScrollState)
        ensures
            r == (ScrollState {
                scroll_amount_x: 0,
                scroll_amount_y: 0,
                overflow_x: 0,
                overflow_y: 0,
                used_this_frame: true,
            }),
            r.wf(),
    {
        ScrollState {
            scroll_amount_x: 0,
            scroll_amount_y: 0,
            overflow_x: 0,
            overflow_y: 0,
            used_this_frame: true,
        }
    }
}

/// `offset + delta` clamped to `[0, bound]`, free of machine overflow.
fn clamped_add(offset: i64, bound: i64, delta: i64) -> (r: i64)
    requires
        0 <= offset <= bound,
    ensures
        r == clamp_to(offset + delta, bound as int),
{
    if delta >= 0 {
        if offset > bound - delta {
            bound
        } else {
            offset + delta
        }
    } else {
        let moved = offset + delta;
        if moved < 0 {
            0
        } else {
            moved
        }
    }
}

/// Clamping twice to the same bound changes nothing more than clamping once:
/// a value already inside `[0, bound]` is left exactly where it is.
pub proof fn lemma_clamp_idempotent(v: int, bound: int)
    requires
        bound >= 0,
    ensures
        clamp_to(clamp_to(v, bound), bound) == clamp_to(v, bound),
{
}

/// The table of live scroll nodes, keyed by the node's external scroll
/// identifier. Keys are unique; iteration order carries no meaning, so the
/// table's mathematical content is the map from identifier to state.
pub struct ScrollStates {
    entries: Vec<(u64, ScrollState)>,
}

/// The map that a sequence of keyed entries holds, later entries winning
/// (with unique keys nothing is ever overwritten).
pub open spec fn scroll_map(s: Seq<(u64, ScrollState)>) -> Map<u64, ScrollState>
    decreases s.len(),
{
    if s.len() == 0 {
        Map::empty()
    } else {
        scroll_map(s.drop_last()).insert(s.last().0, s.last().1)
    }
}

impl View for ScrollStates {
    type V = Map<u64, ScrollState>;

    closed spec fn view(&self) -> Map<u64, ScrollState> {
        scroll_map(self.entries@)
    }
}

/// No two entries of `s` share a key.
pub open spec fn distinct_keys(s: Seq<(u64, ScrollState)>) -> bool {
    forall|i: int, j: int|
        0 <= i < s.len() && 0 <= j < s.len() && i != j ==> s[i].0 != s[j].0
}

/// A key of `scroll_map(s)` is exactly a key of some entry of `s`.
proof fn lemma_scroll_map_contains(s: Seq<(u64, ScrollState)>, id: u64)
    ensures
        scroll_map(s).contains_key(id) <==> exists|i: int| 0 <= i < s.len() && s[i].0 == id,
    decreases s.len(),
{
    if s.len() > 0 {
        lemma_scroll_map_contains(s.drop_last(), id);
        if s.last().0 == id {
            assert(s[s.len() - 1].0 == id);
        } else if scroll_map(s).contains_key(id) {
            let i = choose|i: int| 0 <= i < s.drop_last().len() && s.drop_last()[i].0 == id;
            assert(s[i].0 == id);
        } else if exists|i: int| 0 <= i < s.len() && s[i].0 == id {
            let i = choose|i: int| 0 <= i < s.len() && s[i].0 == id;
            assert(s.drop_last()[i].0 == id);
        }
    }
}

/// With unique keys, the map holds each entry's own state under its key.
proof fn lemma_scroll_map_value(s: Seq<(u64, ScrollState)>, i: int)
    requires
        distinct_keys(s),
        0 <= i < s.len(),
    ensures
        scroll_map(s).contains_key(s[i].0),
        scroll_map(s)[s[i].0] == s[i].1,
    decreases s.len(),
{
    if i < s.len() - 1 {
        assert(distinct_keys(s.drop_last())) by {
            assert(forall|k: int| 0 <= k < s.len() - 1 ==> s.drop_last()[k] == s[k]);
        }
        lemma_scroll_map_value(s.drop_last(), i);
        assert(s.last().0 != s[i].0);
    }
}

/// Replacing the state at position `i` (key kept) updates the map at that key.
proof fn lemma_scroll_map_update(s: Seq<(u64, ScrollState)>, i: int, v: ScrollState)
    requires
        distinct_keys(s),
        0 <= i < s.len(),
    ensures
        scroll_map(s.update(i, (s[i].0, v))) =~= scroll_map(s).insert(s[i].0, v),
    decreases s.len(),
{
    let t = s.update(i, (s[i].0, v));
    if i == s.len() - 1 {
        assert(t.drop_last() =~= s.drop_last());
    } else {
        assert(distinct_keys(s.drop_last())) by {
            assert(forall|k: int| 0 <= k < s.len() - 1 ==> s.drop_last()[k] == s[k]);
        }
        lemma_scroll_map_update(s.drop_last(), i, v);
        assert(t.drop_last() =~= s.drop_last().update(i, (s[i].0, v)));
        assert(s.last().0 != s[i].0);
    }
}

/// Appending an entry with a fresh key inserts it into the map.
proof fn lemma_scroll_map_push(s: Seq<(u64, ScrollState)>, id: u64, v: ScrollState)
    ensures
        scroll_map(s.push((id, v))) =~= scroll_map(s).insert(id, v),
{
    assert(s.push((id, v)).drop_last() =~= s);
}

impl ScrollStates {
    /// Keys are unique (so the map view loses nothing) and every entry obeys
    /// its own offset invariant.
    pub closed spec fn wf(&self) -> bool {
        &&& distinct_keys(self.entries@)
        &&& forall|i: int| 0 <= i < self.entries@.len() ==> (#[trigger] self.entries@[i].1).wf()
    }

    /// Every state of the table obeys the per-entry offset invariant.
    pub open spec fn all_wf(&self) -> bool {
        forall|id: u64|
            self@.contains_key(id) ==> (#[trigger] self@[id]).wf()
    }

    /// An empty table.
    pub fn new() -> (r: ScrollStates)
        ensures
            r.wf(),
            r@ == Map::<u64, ScrollState>::empty(),
    {
        ScrollStates { entries: Vec::new() }
    }

    /// The table's invariant is carried by the map view too.
    pub proof fn lemma_wf_view(&self)
        requires
            self.wf(),
        ensures
            self.all_wf(),
    {
        assert forall|id: u64| self@.contains_key(id) implies (#[trigger] self@[id]).wf() by {
            lemma_scroll_map_contains(self.entries@, id);
            let i = choose|i: int|
                0 <= i < self.entries@.len() && self.entries@[i].0 == id;
            lemma_scroll_map_value(self.entries@, i);
        }
    }

    /// The position of `id`'s entry, if the node is known.
    fn index_of(&self, id: u64) -> (r: Option<usize>)
        ensures
            match r {
                Some(i) => i < self.entries@.len() && self.entries@[i as int].0 == id,
                None => forall|i: int| 0 <= i < self.entries@.len() ==> self.entries@[i].0 != id,
            },
    {
        let mut i: usize = 0;
        while i < self.entries.len()
            invariant
                i <= self.entries@.len(),
                forall|j: int| 0 <= j < i ==> self.entries@[j].0 != id,
            decreases self.entries@.len() - i,
        {
            if self.entries[i].0 == id {
                return Some(i);
            }
            i = i + 1;
        }
        None
    }

    /// Returns the node's current offset and marks it as touched; `None`, and
    /// no change, if the node is unknown.
    pub fn get_scroll_amount(&mut self, scroll_id: u64) -> (r: Option<(i64, i64)>)
        requires
            old(self).wf(),
        ensures
            final(self).wf(),
            match r {
                Some(xy) => {
                    &&& old(self)@.contains_key(scroll_id)
                    &&& xy == (
                        old(self)@[scroll_id].scroll_amount_x,
                        old(self)@[scroll_id].scroll_amount_y,
                    )
                    &&& final(self)@ == old(self)@.insert(
                        scroll_id,
                        old(self)@[scroll_id].touched(),
                    )
                },
                None => {
                    &&& !old(self)@.contains_key(scroll_id)
                    &&& final(self)@ == old(self)@
                },
            },
            final(self)@ == apply_op(old(self)@, ScrollOp::GetScrollAmount { id: scroll_id }),
    {
        proof {
            lemma_scroll_map_contains(self.entries@, scroll_id);
        }
        match self.index_of(scroll_id) {
            Some(i) => {
                proof {
                    lemma_scroll_map_value(self.entries@, i as int);
                    lemma_scroll_map_update(
                        self.entries@,
                        i as int,
                        self.entries@[i as int].1.touched(),
                    );
                }
                let entry = &mut self.entries[i];
                let amounts = entry.1.get();
                Some(amounts)
            },
            None => None,
        }
    }

    /// Scrolls the node by `(scroll_by_x, scroll_by_y)`, clamped per axis, and
    /// marks it as touched; a scroll for an unknown node is silently dropped.
    pub fn scroll_node(&mut self, scroll_id: u64, scroll_by_x: i64, scroll_by_y: i64)
        requires
            old(self).wf(),
        ensures
            final(self).wf(),
            old(self)@.contains_key(scroll_id) ==> final(self)@ == old(self)@.insert(
                scroll_id,
                old(self)@[scroll_id].scrolled(scroll_by_x as int, scroll_by_y as int),
            ),
            !old(self)@.contains_key(scroll_id) ==> final(self)@ == old(self)@,
            final(self)@ == apply_op(
                old(self)@,
                ScrollOp::ScrollNode { id: scroll_id, delta_x: scroll_by_x, delta_y: scroll_by_y },
            ),
    {
        proof {
            lemma_scroll_map_contains(self.entries@, scroll_id);
        }
        match self.index_of(scroll_id) {
            Some(i) => {
                proof {
                    lemma_scroll_map_value(self.entries@, i as int);
                    lemma_scroll_map_update(
                        self.entries@,
                        i as int,
                        self.entries@[i as int].1.scrolled(
                            scroll_by_x as int,
                            scroll_by_y as int,
                        ),
                    );
                }
                let entry = &mut self.entries[i];
                entry.1.add(scroll_by_x, scroll_by_y);
            },
            None => {},
        }
    }

    /// Inserts a fresh zero-offset entry if the node is unknown; an existing
    /// entry keeps its offset and overflow bounds untouched (changed bounds
    /// take effect only through later scrolls). Either way the node counts as
    /// touched in the current frame.
    pub fn ensure_initialized_scroll_state(&mut self, scroll_id: u64, overflow_x: i64, overflow_y: i64)
        requires
            old(self).wf(),
            overflow_x >= 0,
            overflow_y >= 0,
        ensures
            final(self).wf(),
            old(self)@.contains_key(scroll_id) ==> final(self)@ == old(self)@.insert(
                scroll_id,
                old(self)@[scroll_id].touched(),
            ),
            !old(self)@.contains_key(scroll_id) ==> final(self)@ == old(self)@.insert(
                scroll_id,
                ScrollState {
                    scroll_amount_x: 0,
                    scroll_amount_y: 0,
                    overflow_x: overflow_x,
                    overflow_y: overflow_y,
                    used_this_frame: true,
                },
            ),
            final(self)@ == apply_op(
                old(self)@,
                ScrollOp::EnsureInitialized {
                    id: scroll_id,
                    overflow_x: overflow_x,
                    overflow_y: overflow_y,
                },
            ),
    {
        proof {
            lemma_scroll_map_contains(self.entries@, scroll_id);
        }
        match self.index_of(scroll_id) {
            Some(i) => {
                proof {
                    lemma_scroll_map_value(self.entries@, i as int);
                    lemma_scroll_map_update(
                        self.entries@,
                        i as int,
                        self.entries@[i as int].1.touched(),
                    );
                }
                let entry = &mut self.entries[i];
                entry.1.used_this_frame = true;
            },
            None => {
                proof {
                    lemma_scroll_map_push(
                        self.entries@,
                        scroll_id,
                        ScrollState {
                            scroll_amount_x: 0,
                            scroll_amount_y: 0,
                            overflow_x: overflow_x,
                            overflow_y: overflow_y,
                            used_this_frame: true,
                        },
                    );
                }
                let fresh = ScrollState::new(overflow_x, overflow_y);
                self.entries.push((scroll_id, fresh));
            },
        }
    }
    /// Deletes every entry not touched since the previous frame boundary and
    /// marks the survivors as untouched for the next frame. Run once per
    /// frame, after layout has re-asserted (via `ensure_initialized_scroll_state`,
    /// `get_scroll_amount` or `scroll_node`) which nodes are still present.
    pub fn remove_unused_scroll_states(&mut self)
        requires
            old(self).wf(),
        ensures
            final(self).wf(),
            final(self)@ == retained(old(self)@),
    {
        let ghost all = self.entries@;
        let n = self.entries.len();
        let mut kept: Vec<(u64, ScrollState)> = Vec::new();
        let mut i: usize = 0;
        while i < n
            invariant
                self == old(self),
                self.wf(),
                n == self.entries@.len(),
                all == self.entries@,
                i <= n,
                scroll_map(kept@) =~= retained(scroll_map(all.take(i as int))),
                forall|j: int|
                    0 <= j < kept@.len() ==> exists|l: int|
                        0 <= l < i && (#[trigger] kept@[j]).0 == all[l].0,
                distinct_keys(kept@),
                forall|j: int| 0 <= j < kept@.len() ==> (#[trigger] kept@[j]).1.wf(),
            decreases n - i,
        {
            let pair = self.entries[i];
            let ghost prefix = all.take(i as int);
            let ghost longer = all.take(i as int + 1);
            proof {
                assert(longer.drop_last() =~= prefix);
                assert(longer.last() == all[i as int]);
                lemma_scroll_map_contains(prefix, pair.0);
            }
            if pair.1.used_this_frame {
                let mut survivor = pair.1;
                survivor.used_this_frame = false;
                proof {
                    lemma_scroll_map_push(kept@, pair.0, survivor);
                    assert(retained(scroll_map(longer)) =~= retained(
                        scroll_map(prefix),
                    ).insert(pair.0, survivor));
                }
                kept.push((pair.0, survivor));
            } else {
                proof {
                    assert(!scroll_map(prefix).contains_key(pair.0));
                    assert(retained(scroll_map(longer)) =~= retained(scroll_map(prefix)));
                }
            }
            i = i + 1;
        }
        proof {
            assert(all.take(n as int) =~= all);
        }
        self.entries = kept;
    }
}

/// The table after a frame boundary: exactly the touched entries survive,
/// offsets and overflow bounds kept, and every survivor counts as untouched
/// until the next frame touches it again.
pub open spec fn retained(m: Map<u64, ScrollState>) -> Map<u64, ScrollState> {
    Map::new(
        |id: u64| m.contains_key(id) && m[id].used_this_frame,
        |id: u64| m[id].untouched(),
    )
}

/// One call into the scroll table during a frame.
pub enum ScrollOp {
    /// `ensure_initialized_scroll_state(id, overflow_x, overflow_y)`.
    EnsureInitialized { id: u64, overflow_x: i64, overflow_y: i64 },
    /// `get_scroll_amount(id)`.
    GetScrollAmount { id: u64 },
    /// `scroll_node(id, delta_x, delta_y)`.
    ScrollNode { id: u64, delta_x: i64, delta_y: i64 },
}

impl ScrollOp {
    /// The node identifier the call names.
    pub open spec fn id(self) -> u64 {
        match self {
            ScrollOp::EnsureInitialized { id, .. } => id,
            ScrollOp::GetScrollAmount { id } => id,
            ScrollOp::ScrollNode { id, .. } => id,
        }
    }

    /// Overflow bounds handed to `ensure_initialized_scroll_state` are
    /// non-negative.
    pub open spec fn wf(self) -> bool {
        match self {
            ScrollOp::EnsureInitialized { overflow_x, overflow_y, .. } => {
                overflow_x >= 0 && overflow_y >= 0
            },
            _ => true,
        }
    }
}

/// What one call does to the table's map, exactly as the corresponding
/// method's postcondition states it.
pub open spec fn apply_op(m: Map<u64, ScrollState>, op: ScrollOp) -> Map<u64, ScrollState> {
    match op {
        ScrollOp::EnsureInitialized { id, overflow_x, overflow_y } => {
            if m.contains_key(id) {
                m.insert(id, m[id].touched())
            } else {
                m.insert(
                    id,
                    ScrollState {
                        scroll_amount_x: 0,
                        scroll_amount_y: 0,
                        overflow_x: overflow_x,
                        overflow_y: overflow_y,
                        used_this_frame: true,
                    },
                )
            }
        },
        ScrollOp::GetScrollAmount { id } => {
            if m.contains_key(id) {
                m.insert(id, m[id].touched())
            } else {
                m
            }
        },
        ScrollOp::ScrollNode { id, delta_x, delta_y } => {
            if m.contains_key(id) {
                m.insert(id, m[id].scrolled(delta_x as int, delta_y as int))
            } else {
                m
            }
        },
    }
}

/// The table after a whole frame's worth of calls, first call first.
pub open spec fn apply_ops(m: Map<u64, ScrollState>, ops: Seq<ScrollOp>) -> Map<u64, ScrollState>
    decreases ops.len(),
{
    if ops.len() == 0 {
        m
    } else {
        apply_op(apply_ops(m, ops.drop_last()), ops.last())
    }
}

/// The node identifiers that a frame's calls name.
pub open spec fn touched_ids(ops: Seq<ScrollOp>) -> Set<u64>
    decreases ops.len(),
{
    if ops.len() == 0 {
        Set::empty()
    } else {
        touched_ids(ops.drop_last()).insert(ops.last().id())
    }
}

/// Every entry of `m` obeys the per-entry offset invariant.
pub open spec fn map_wf(m: Map<u64, ScrollState>) -> bool {
    forall|id: u64| m.contains_key(id) ==> (#[trigger] m[id]).wf()
}

/// No entry of `m` counts as touched, as right after a frame boundary.
pub open spec fn map_untouched(m: Map<u64, ScrollState>) -> bool {
    forall|id: u64| m.contains_key(id) ==> !(#[trigger] m[id]).used_this_frame
}

proof fn lemma_op_preserves_wf(m: Map<u64, ScrollState>, op: ScrollOp)
    requires
        map_wf(m),
        op.wf(),
    ensures
        map_wf(apply_op(m, op)),
{
}

/// However many calls a frame makes, and in whatever order, every offset in
/// the table stays within `[0, overflow]` on each axis.
pub proof fn lemma_ops_preserve_wf(m: Map<u64, ScrollState>, ops: Seq<ScrollOp>)
    requires
        map_wf(m),
        forall|i: int| 0 <= i < ops.len() ==> (#[trigger] ops[i]).wf(),
    ensures
        map_wf(apply_ops(m, ops)),
    decreases ops.len(),
{
    if ops.len() > 0 {
        lemma_ops_preserve_wf(m, ops.drop_last());
        lemma_op_preserves_wf(apply_ops(m, ops.drop_last()), ops.last());
    }
}

proof fn lemma_ops_used_iff_touched(m: Map<u64, ScrollState>, ops: Seq<ScrollOp>)
    requires
        map_untouched(m),
    ensures
        forall|id: u64|
            apply_ops(m, ops).contains_key(id) ==> ((#[trigger] apply_ops(m, ops)[id])
                .used_this_frame <==> touched_ids(ops).contains(id)),
        forall|id: u64|
            apply_ops(m, ops).contains_key(id) ==> m.contains_key(id)
                || touched_ids(ops).contains(id),
    decreases ops.len(),
{
    if ops.len() > 0 {
        lemma_ops_used_iff_touched(m, ops.drop_last());
        let prev = apply_ops(m, ops.drop_last());
        let op = ops.last();
        assert forall|id: u64| apply_ops(m, ops).contains_key(id) implies ((
        #[trigger] apply_ops(m, ops)[id]).used_this_frame <==> touched_ids(ops).contains(
            id,
        )) by {
            if id != op.id() {
                assert(apply_ops(m, ops)[id] == prev[id]);
            }
        }
    }
}

/// The frame-liveness protocol collects garbage exactly. Starting from a
/// frame boundary (no entry touched), after a frame's calls the boundary
/// sweep keeps exactly the entries whose node some call named, each with the
/// offsets and overflow bounds it had at the sweep, and deletes every other
/// entry.
pub proof fn lemma_remove_unused_exact(m: Map<u64, ScrollState>, ops: Seq<ScrollOp>)
    requires
        map_untouched(m),
    ensures
        retained(apply_ops(m, ops)).dom() =~= apply_ops(m, ops).dom().intersect(
            touched_ids(ops),
        ),
        forall|id: u64|
            retained(apply_ops(m, ops)).contains_key(id) ==> #[trigger] retained(
                apply_ops(m, ops),
            )[id] == apply_ops(m, ops)[id].untouched(),
{
    lemma_ops_used_iff_touched(m, ops);
}

} // verus!
