//! What the portal task shares with its readers about activations.
//!
//! The task writes single cells, one after the other, while readers on other threads look at
//! them. `activation_id` is the sequencing cell: a reader that sees it change must also see the
//! barrier and the cursor position that belong to it. So the writes for one activation come as
//! an ordered list whose last entry is the id, stored with release order.

use vstd::prelude::*;

verus! {

/// How a write is ordered against the writes before it.
#[derive(Clone, Copy, PartialEq, Eq, Structural, Debug)]
pub enum MemoryOrder {
    /// No ordering.
    Relaxed,
    /// Whoever sees this write with an acquire load sees all earlier ones too.
    Release,
}

/// One change to one shared cell.
#[derive(Clone, Copy, PartialEq, Eq, Structural, Debug)]
pub enum Update {
    ActivationId(u32),
    BarrierId(u32),
    /// The bits of the cursor's x coordinate.
    CursorX(u64),
    /// The bits of the cursor's y coordinate.
    CursorY(u64),
    ZonesGeneration(u32),
    /// Adds one to the zones generation, wrapping around.
    NextGeneration,
}

/// A change to a shared cell together with its ordering.
#[derive(Clone, Copy, PartialEq, Eq, Structural, Debug)]
pub struct SharedWrite {
    pub update: Update,
    pub order: MemoryOrder,
}

/// The barrier that an activation names.
#[derive(Clone, Copy, PartialEq, Eq, Structural, Debug)]
pub enum ActivatedBarrier {
    /// The barrier with this id.
    Barrier(u32),
    /// The compositor could not tell which barrier was hit.
    UnknownBarrier,
}

/// An Activated signal. Coordinates are the bits of 64-bit floats.
#[derive(Clone, Copy, PartialEq, Eq, Debug)]
pub struct Activation {
    pub activation_id: Option<u32>,
    pub barrier_id: Option<ActivatedBarrier>,
    pub cursor_position: Option<(u64, u64)>,
}

/// The values of the shared cells.
#[derive(Clone, Copy, PartialEq, Eq, Structural, Debug)]
pub struct SharedActivation {
    pub activation_id: u32,
    pub barrier_id: u32,
    pub cursor_pos_x: u64,
    pub cursor_pos_y: u64,
    /// Moves on every time the zones changed and the barriers were re-armed. Whoever cached
    /// zones or barriers watches it to know that the copy is stale.
    pub zones_generation: u32,
}

// ---------------------------------------------------------------------------------------------
// Model
// ---------------------------------------------------------------------------------------------
/// The successor of a generation, wrapping around.
pub open spec fn next_generation(generation: u32) -> u32 {
    if generation == u32::MAX {
        0
    } else {
        (generation + 1) as u32
    }
}

/// The cells after one write.
pub open spec fn after(s: SharedActivation, w: SharedWrite) -> SharedActivation {
    match w.update {
        Update::ActivationId(v) => SharedActivation { activation_id: v, ..s },
        Update::BarrierId(v) => SharedActivation { barrier_id: v, ..s },
        Update::CursorX(v) => SharedActivation { cursor_pos_x: v, ..s },
        Update::CursorY(v) => SharedActivation { cursor_pos_y: v, ..s },
        Update::ZonesGeneration(v) => SharedActivation { zones_generation: v, ..s },
        Update::NextGeneration => SharedActivation {
            zones_generation: next_generation(s.zones_generation),
            ..s
        },
    }
}

/// The cells after a list of writes.
pub open spec fn after_all(s: SharedActivation, writes: Seq<SharedWrite>) -> SharedActivation
    decreases writes.len(),
{
    if writes.len() == 0 {
        s
    } else {
        after(after_all(s, writes.drop_last()), writes.last())
    }
}

pub open spec fn relaxed(update: Update) -> SharedWrite {
    SharedWrite { update, order: MemoryOrder::Relaxed }
}

pub open spec fn released(update: Update) -> SharedWrite {
    SharedWrite { update, order: MemoryOrder::Release }
}

/// The writes for the barrier of an activation; one that is missing or unknown leaves the last
/// known barrier in place.
pub open spec fn barrier_write_seq(barrier: Option<ActivatedBarrier>) -> Seq<SharedWrite> {
    match barrier {
        Some(ActivatedBarrier::Barrier(id)) => seq![relaxed(Update::BarrierId(id))],
        _ => seq![],
    }
}

/// The writes for the cursor position of an activation.
pub open spec fn cursor_write_seq(cursor: Option<(u64, u64)>) -> Seq<SharedWrite> {
    match cursor {
        Some((x, y)) => seq![relaxed(Update::CursorX(x)), relaxed(Update::CursorY(y))],
        None => seq![],
    }
}

/// The write for the id of an activation.
pub open spec fn id_write_seq(id: Option<u32>) -> Seq<SharedWrite> {
    match id {
        Some(id) => seq![released(Update::ActivationId(id))],
        None => seq![],
    }
}

/// The writes for an activation, in order: barrier, cursor, id.
pub open spec fn activation_write_seq(a: Activation) -> Seq<SharedWrite> {
    barrier_write_seq(a.barrier_id) + cursor_write_seq(a.cursor_position) + id_write_seq(
        a.activation_id,
    )
}

/// The writes for a new session.
pub open spec fn reset_write_seq() -> Seq<SharedWrite> {
    seq![
        relaxed(Update::ActivationId(0)),
        relaxed(Update::BarrierId(0)),
        relaxed(Update::ZonesGeneration(0)),
    ]
}

/// The write for a completed zone refresh.
pub open spec fn generation_write_seq() -> Seq<SharedWrite> {
    seq![released(Update::NextGeneration)]
}

/// The id that an activation counter stands for: zero means that there was none yet.
pub open spec fn some_activation(id: u32) -> Option<u32> {
    if id > 0 {
        Some(id)
    } else {
        None
    }
}

// ---------------------------------------------------------------------------------------------
// Writes
// ---------------------------------------------------------------------------------------------
/// What to write for an activation, in this order.
pub fn activation_writes(a: &Activation) -> (writes: Vec<SharedWrite>)
    ensures
        writes@ == activation_write_seq(*a),
{
    let mut writes: Vec<SharedWrite> = Vec::new();
    if let Some(ActivatedBarrier::Barrier(id)) = a.barrier_id {
        writes.push(SharedWrite { update: Update::BarrierId(id), order: MemoryOrder::Relaxed });
    }
    if let Some((x, y)) = a.cursor_position {
        writes.push(SharedWrite { update: Update::CursorX(x), order: MemoryOrder::Relaxed });
        writes.push(SharedWrite { update: Update::CursorY(y), order: MemoryOrder::Relaxed });
    }
    if let Some(id) = a.activation_id {
        writes.push(SharedWrite { update: Update::ActivationId(id), order: MemoryOrder::Release });
    }
    assert(writes@ =~= activation_write_seq(*a));
    writes
}

/// What to write before a new session starts. The cursor position stays.
pub fn reset_writes() -> (writes: Vec<SharedWrite>)
    ensures
        writes@ == reset_write_seq(),
{
    let mut writes: Vec<SharedWrite> = Vec::new();
    writes.push(SharedWrite { update: Update::ActivationId(0), order: MemoryOrder::Relaxed });
    writes.push(SharedWrite { update: Update::BarrierId(0), order: MemoryOrder::Relaxed });
    writes.push(SharedWrite { update: Update::ZonesGeneration(0), order: MemoryOrder::Relaxed });
    writes
}

/// What to write once changed zones are armed again.
pub fn generation_writes() -> (writes: Vec<SharedWrite>)
    ensures
        writes@ == generation_write_seq(),
{
    let mut writes: Vec<SharedWrite> = Vec::new();
    writes.push(SharedWrite { update: Update::NextGeneration, order: MemoryOrder::Release });
    writes
}

/// The activation that a release refers to.
pub fn current_activation(activation_id: u32) -> (r: Option<u32>)
    ensures
        r == some_activation(activation_id),
{
    if activation_id > 0 {
        Some(activation_id)
    } else {
        None
    }
}

impl SharedActivation {
    /// The cells before the first session.
    pub fn new() -> (s: Self)
        ensures
            s == (SharedActivation {
                activation_id: 0,
                barrier_id: 0,
                cursor_pos_x: 0,
                cursor_pos_y: 0,
                zones_generation: 0,
            }),
    {
        SharedActivation {
            activation_id: 0,
            barrier_id: 0,
            cursor_pos_x: 0,
            cursor_pos_y: 0,
            zones_generation: 0,
        }
    }

    /// Performs one write.
    pub fn apply(&mut self, w: &SharedWrite)
        ensures
            *final(self) == after(*old(self), *w),
    {
        match w.update {
            Update::ActivationId(v) => {
                self.activation_id = v;
            },
            Update::BarrierId(v) => {
                self.barrier_id = v;
            },
            Update::CursorX(v) => {
                self.cursor_pos_x = v;
            },
            Update::CursorY(v) => {
                self.cursor_pos_y = v;
            },
            Update::ZonesGeneration(v) => {
                self.zones_generation = v;
            },
            Update::NextGeneration => {
                self.zones_generation = if self.zones_generation == 0xffff_ffff {
                    0
                } else {
                    self.zones_generation + 1
                };
            },
        }
    }

    /// Performs writes in order.
    pub fn apply_all(&mut self, writes: &[SharedWrite])
        ensures
            *final(self) == after_all(*old(self), writes@),
    {
        let ghost start = *self;
        let mut i: usize = 0;
        while i < writes.len()
            invariant
                i <= writes.len(),
                *self == after_all(start, writes@.take(i as int)),
            decreases writes.len() - i,
        {
            self.apply(&writes[i]);
            assert(writes@.take(i + 1).drop_last() =~= writes@.take(i as int));
            i = i + 1;
        }
        assert(writes@.take(i as int) =~= writes@);
    }

    /// Makes the cells ready for a new session. The cursor position stays.
    pub fn reset(&mut self)
        ensures
            *final(self) == after_all(*old(self), reset_write_seq()),
            *final(self) == (SharedActivation {
                activation_id: 0,
                barrier_id: 0,
                zones_generation: 0,
                ..*old(self)
            }),
    {
        let ghost start = *self;
        let writes: Vec<SharedWrite> = reset_writes();
        self.apply_all(writes.as_slice());
        proof {
            law_reset(start);
        }
    }
}

// ---------------------------------------------------------------------------------------------
// Laws
// ---------------------------------------------------------------------------------------------
/// A reset clears the id, the barrier and the generation, and nothing else.
pub proof fn law_reset(s: SharedActivation)
    ensures
        after_all(s, reset_write_seq()) == (SharedActivation {
            activation_id: 0,
            barrier_id: 0,
            zones_generation: 0,
            ..s
        }),
{
    let w = reset_write_seq();
    assert(w.drop_last().drop_last().drop_last() =~= Seq::empty());
    reveal_with_fuel(after_all, 4);
}

/// Writes that do not touch the id leave it alone.
proof fn lemma_id_kept(s: SharedActivation, writes: Seq<SharedWrite>)
    requires
        forall|i: int| 0 <= i < writes.len() ==> !((#[trigger] writes[i]).update is ActivationId),
    ensures
        after_all(s, writes).activation_id == s.activation_id,
    decreases writes.len(),
{
    if writes.len() > 0 {
        assert(forall|i: int|
            0 <= i < writes.drop_last().len() ==> writes.drop_last()[i] == writes[i]);
        lemma_id_kept(s, writes.drop_last());
        assert(!(writes[writes.len() - 1].update is ActivationId));
    }
}

/// The id of an activation is its last write and the only one with release order, and at no
/// point before it does the id change. So a reader that finds a new id, however far the writer
/// has got, finds the barrier and the cursor position of the same activation.
pub proof fn law_id_is_published_last(s: SharedActivation, a: Activation, k: int)
    requires
        0 <= k <= activation_write_seq(a).len(),
    ensures
        a.activation_id matches Some(id) ==> {
            &&& activation_write_seq(a).len() > 0
            &&& activation_write_seq(a).last() == released(Update::ActivationId(id))
        },
        forall|i: int|
            0 <= i < activation_write_seq(a).len() && (#[trigger] activation_write_seq(a)[i]).order
                == MemoryOrder::Release ==> i == activation_write_seq(a).len() - 1,
        after_all(s, activation_write_seq(a).take(k)).activation_id != s.activation_id
            ==> after_all(s, activation_write_seq(a).take(k)) == after_all(
            s,
            activation_write_seq(a),
        ),
{
    let writes = activation_write_seq(a);
    let head = writes.take(k);
    if k < writes.len() {
        assert forall|i: int| 0 <= i < head.len() implies !((#[trigger] head[i]).update
            is ActivationId) by {
            assert(head[i] == writes[i]);
        }
        lemma_id_kept(s, head);
    } else {
        assert(head =~= writes);
    }
}

/// Once all writes are done the cells hold what the activation said, and keep what it did not
/// say; the zones generation is never touched.
pub proof fn law_activation_is_shared(s: SharedActivation, a: Activation)
    ensures
        after_all(s, activation_write_seq(a)) == (SharedActivation {
            activation_id: match a.activation_id {
                Some(id) => id,
                None => s.activation_id,
            },
            barrier_id: match a.barrier_id {
                Some(ActivatedBarrier::Barrier(id)) => id,
                _ => s.barrier_id,
            },
            cursor_pos_x: match a.cursor_position {
                Some((x, _)) => x,
                None => s.cursor_pos_x,
            },
            cursor_pos_y: match a.cursor_position {
                Some((_, y)) => y,
                None => s.cursor_pos_y,
            },
            zones_generation: s.zones_generation,
        }),
{
    let b = barrier_write_seq(a.barrier_id);
    let c = cursor_write_seq(a.cursor_position);
    let i = id_write_seq(a.activation_id);
    reveal_with_fuel(after_all, 2);
    lemma_after_all_splits(s, b + c, i);
    lemma_after_all_splits(s, b, c);
    lemma_after_all_short(s, b);
    lemma_after_all_short(after_all(s, b), c);
    lemma_after_all_short(after_all(s, b + c), i);
}

/// Lists of at most two writes, spelled out.
proof fn lemma_after_all_short(s: SharedActivation, w: Seq<SharedWrite>)
    ensures
        w.len() == 0 ==> after_all(s, w) == s,
        w.len() == 1 ==> after_all(s, w) == after(s, w[0]),
        w.len() == 2 ==> after_all(s, w) == after(after(s, w[0]), w[1]),
{
    reveal_with_fuel(after_all, 3);
}

proof fn lemma_after_all_splits(s: SharedActivation, a: Seq<SharedWrite>, b: Seq<SharedWrite>)
    ensures
        after_all(s, a + b) == after_all(after_all(s, a), b),
    decreases b.len(),
{
    if b.len() == 0 {
        assert(a + b =~= a);
    } else {
        assert((a + b).drop_last() =~= a + b.drop_last());
        lemma_after_all_splits(s, a, b.drop_last());
    }
}

/// A write changes the one cell that it names, to the value that it names, and no other; how it
/// is ordered makes no difference to what it writes.
pub proof fn law_writes_change_one_cell(s: SharedActivation, order: MemoryOrder, v: u32, c: u64)
    ensures
        after(s, SharedWrite { update: Update::ActivationId(v), order }) == (SharedActivation {
            activation_id: v,
            ..s
        }),
        after(s, SharedWrite { update: Update::BarrierId(v), order }) == (SharedActivation {
            barrier_id: v,
            ..s
        }),
        after(s, SharedWrite { update: Update::CursorX(c), order }) == (SharedActivation {
            cursor_pos_x: c,
            ..s
        }),
        after(s, SharedWrite { update: Update::CursorY(c), order }) == (SharedActivation {
            cursor_pos_y: c,
            ..s
        }),
        after(s, SharedWrite { update: Update::ZonesGeneration(v), order }) == (SharedActivation {
            zones_generation: v,
            ..s
        }),
{
}

/// Writes take effect in order, one after the other.
pub proof fn law_writes_add_up(s: SharedActivation, a: Seq<SharedWrite>, b: Seq<SharedWrite>)
    ensures
        after_all(s, seq![]) == s,
        forall|w: SharedWrite| #[trigger] after_all(s, seq![w]) == after(s, w),
        after_all(s, a + b) == after_all(after_all(s, a), b),
{
    lemma_after_all_splits(s, a, b);
    assert forall|w: SharedWrite| #[trigger] after_all(s, seq![w]) == after(s, w) by {
        lemma_after_all_short(s, seq![w]);
    }
}

/// A completed refresh moves the generation on by one, from the highest back to zero, with
/// release order, and touches nothing else.
pub proof fn law_generation_counts_refreshes(s: SharedActivation)
    ensures
        ({
            let t = after_all(s, generation_write_seq());
            &&& t.zones_generation == (s.zones_generation + 1) % 0x1_0000_0000
            &&& t == (SharedActivation { zones_generation: t.zones_generation, ..s })
        }),
        generation_write_seq().len() == 1,
        generation_write_seq()[0].update is NextGeneration,
        generation_write_seq()[0].order is Release,
{
    lemma_after_all_short(s, generation_write_seq());
}

/// An activation writes what it says and nothing else: every write names the activation's own
/// barrier, coordinate or id, no cell is written twice, and only the id has release order.
pub proof fn law_activations_write_what_they_say(a: Activation)
    ensures
        ({
            let writes = activation_write_seq(a);
            &&& forall|i: int|
                0 <= i < writes.len() ==> match (#[trigger] writes[i]).update {
                    Update::BarrierId(id) => writes[i].order is Relaxed && a.barrier_id == Some(
                        ActivatedBarrier::Barrier(id),
                    ),
                    Update::CursorX(x) => writes[i].order is Relaxed && (a.cursor_position matches Some((
                        px,
                        _,
                    )) && px == x),
                    Update::CursorY(y) => writes[i].order is Relaxed && (a.cursor_position matches Some((
                        _,
                        py,
                    )) && py == y),
                    Update::ActivationId(id) => writes[i].order is Release && a.activation_id
                        == Some(id) && i == writes.len() - 1,
                    _ => false,
                }
            &&& writes.len() == (if a.activation_id is Some {
                1int
            } else {
                0
            }) + (if a.barrier_id matches Some(ActivatedBarrier::Barrier(_)) {
                1int
            } else {
                0
            }) + (if a.cursor_position is Some {
                2int
            } else {
                0
            })
        }),
{
}

/// A reset consists of three writes without an order, one for each cell that it clears.
pub proof fn law_reset_writes_three_cells()
    ensures
        reset_write_seq().len() == 3,
        forall|i: int|
            0 <= i < 3 ==> (#[trigger] reset_write_seq()[i]).order is Relaxed && (
            reset_write_seq()[i].update == Update::ActivationId(0) || reset_write_seq()[i].update
                == Update::BarrierId(0) || reset_write_seq()[i].update == Update::ZonesGeneration(
                0,
            )),
{
}

/// An activation counter of zero stands for no activation, any other for the one with that id.
pub proof fn law_zero_is_no_activation(id: u32)
    ensures
        some_activation(id) is None <==> id == 0,
        some_activation(id) matches Some(named) ==> named == id,
{
}

} // verus!
