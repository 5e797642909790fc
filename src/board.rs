//! All cells of a game, how they are spawned, and how events change them.
use vstd::prelude::*;

use crate::block::{Aabb3, Block, BlockEvent, BlockState, Entity};
use crate::grid::{calculate_position, centred};

verus! {

/// The number of cells of a grid of size `dim`.
pub open spec fn cell_count(dim: [usize; 3]) -> int {
    dim[0] * dim[1] * dim[2]
}

/// Whether `index` lies inside a grid of size `dim`.
pub open spec fn in_grid(index: [usize; 3], dim: [usize; 3]) -> bool {
    index[0] < dim[0] && index[1] < dim[1] && index[2] < dim[2]
}

/// The slot of `index` when the cells are laid out with the last axis
/// varying fastest.
pub open spec fn slot_of(index: [usize; 3], dim: [usize; 3]) -> int {
    (index[0] * dim[1] + index[1]) * dim[2] + index[2]
}

/// Whether `bb` is the unit cube centred on `pos`, in half units.
pub open spec fn is_unit_cube_at(bb: Aabb3, pos: Seq<int>) -> bool {
    forall|a: int| 0 <= a < 3 ==> bb.min[a] == 2 * pos[a] - 1 && bb.max[a] == 2 * pos[a] + 1
}

/// The centred position of `index` in a grid of size `dim`.
pub open spec fn position_of(index: [usize; 3], dim: [usize; 3]) -> Seq<int> {
    seq![
        centred(index[0] as int, dim[0] as int),
        centred(index[1] as int, dim[1] as int),
        centred(index[2] as int, dim[2] as int),
    ]
}

/// Whether `b` is a freshly spawned cell of a grid of size `dim`.
pub open spec fn is_fresh(b: BlockState, dim: [usize; 3]) -> bool {
    &&& !b.marked
    &&& b.revealed is None
    &&& b.wf()
    &&& is_unit_cube_at(b.bb, position_of(b.index, dim))
}

/// The state after one event: an event about an unknown cell, or about a
/// cell already revealed, changes nothing.
pub open spec fn apply_event(s: Seq<BlockState>, e: BlockEvent) -> Seq<BlockState> {
    let i = e.target().0 as int;
    if i >= s.len() || s[i].revealed is Some {
        s
    } else {
        match e {
            BlockEvent::Reveal(_, c) => s.update(i, s[i].revealed_as(c)),
            BlockEvent::Mark(_) => s.update(i, s[i].marked_toggled()),
        }
    }
}

/// The state after the events `es`, in order.
pub open spec fn apply_events(s: Seq<BlockState>, es: Seq<BlockEvent>) -> Seq<BlockState>
    decreases es.len(),
{
    if es.len() == 0 {
        s
    } else {
        apply_event(apply_events(s, es.drop_last()), es.last())
    }
}

/// Whether every cell carries the visual that its state calls for.
pub open spec fn all_wf(s: Seq<BlockState>) -> bool {
    forall|t: int| 0 <= t < s.len() ==> #[trigger] s[t].wf()
}

/// An event named a cell that the board does not hold.
#[derive(Clone, Copy, Debug, PartialEq, Eq, Structural)]
pub struct UnknownBlock(pub Entity);

/// The cells of one game.
pub struct Board {
    blocks: Vec<Block>,
}

impl View for Board {
    type V = Seq<BlockState>;

    closed spec fn view(&self) -> Seq<BlockState> {
        self.blocks@.map_values(|b: Block| b@)
    }
}

/// The unit cube centred on `pos`, in half units.
fn cube_bounds(pos: [isize; 3]) -> (r: Aabb3)
    requires
        forall|a: int| 0 <= a < 3 ==> -(isize::MAX / 4) <= #[trigger] pos[a] <= isize::MAX / 4,
    ensures
        forall|a: int|
            0 <= a < 3 ==> r.min[a] == 2 * pos[a] - 1 && r.max[a] == 2 * pos[a] + 1,
{
    assert(-(isize::MAX / 4) <= pos[0] <= isize::MAX / 4);
    assert(-(isize::MAX / 4) <= pos[1] <= isize::MAX / 4);
    assert(-(isize::MAX / 4) <= pos[2] <= isize::MAX / 4);
    Aabb3 {
        min: [2 * pos[0] - 1, 2 * pos[1] - 1, 2 * pos[2] - 1],
        max: [2 * pos[0] + 1, 2 * pos[1] + 1, 2 * pos[2] + 1],
    }
}

proof fn lemma_axis_below_count(dim: [usize; 3])
    requires
        dim[0] >= 1,
        dim[1] >= 1,
        dim[2] >= 1,
    ensures
        dim[0] <= cell_count(dim),
        dim[1] <= cell_count(dim),
        dim[2] <= cell_count(dim),
{
    let (a, b, c) = (dim[0] as int, dim[1] as int, dim[2] as int);
    assert(a <= a * b * c && b <= a * b * c && c <= a * b * c) by (nonlinear_arith)
        requires
            a >= 1,
            b >= 1,
            c >= 1,
    ;
}

impl Board {
    /// Spawns one concealed, unmarked cell for every index of a grid of size
    /// `dim`, the last axis varying fastest, each with the unit cube around
    /// its centred position as bounding box. The bound on the count keeps
    /// every corner, in half units, within a machine word.
    pub fn spawn(dim: [usize; 3]) -> (r: Board)
        requires
            cell_count(dim) <= isize::MAX / 4,
        ensures
            r@.len() == cell_count(dim),
            forall|t: int|
                0 <= t < r@.len() ==> {
                    &&& in_grid(#[trigger] r@[t].index, dim)
                    &&& slot_of(r@[t].index, dim) == t
                    &&& is_fresh(r@[t], dim)
                },
            all_wf(r@),
            forall|t: int, u: int|
                0 <= t < u < r@.len() ==> #[trigger] r@[t].index != #[trigger] r@[u].index,
    {
        let mut blocks: Vec<Block> = Vec::new();
        let ghost (d0, d1, d2) = (dim[0] as int, dim[1] as int, dim[2] as int);
        let mut i: usize = 0;
        assert(0 * d1 * d2 == 0) by (nonlinear_arith);
        while i < dim[0]
            invariant
                0 <= i <= dim[0],
                cell_count(dim) <= isize::MAX / 4,
                d0 == dim[0] && d1 == dim[1] && d2 == dim[2],
                blocks@.len() == i * d1 * d2,
                forall|t: int|
                    0 <= t < blocks@.len() ==> {
                        &&& in_grid(#[trigger] blocks@[t]@.index, dim)
                        &&& slot_of(blocks@[t]@.index, dim) == t
                        &&& is_fresh(blocks@[t]@, dim)
                    },
            decreases dim[0] - i,
        {
            let mut j: usize = 0;
            while j < dim[1]
                invariant
                    0 <= i < dim[0],
                    0 <= j <= dim[1],
                    cell_count(dim) <= isize::MAX / 4,
                    d0 == dim[0] && d1 == dim[1] && d2 == dim[2],
                    blocks@.len() == (i * d1 + j) * d2,
                    forall|t: int|
                        0 <= t < blocks@.len() ==> {
                            &&& in_grid(#[trigger] blocks@[t]@.index, dim)
                            &&& slot_of(blocks@[t]@.index, dim) == t
                            &&& is_fresh(blocks@[t]@, dim)
                        },
                decreases dim[1] - j,
            {
                let mut k: usize = 0;
                while k < dim[2]
                    invariant
                        0 <= i < dim[0],
                        0 <= j < dim[1],
                        0 <= k <= dim[2],
                        cell_count(dim) <= isize::MAX / 4,
                        d0 == dim[0] && d1 == dim[1] && d2 == dim[2],
                        blocks@.len() == (i * d1 + j) * d2 + k,
                        forall|t: int|
                            0 <= t < blocks@.len() ==> {
                                &&& in_grid(#[trigger] blocks@[t]@.index, dim)
                                &&& slot_of(blocks@[t]@.index, dim) == t
                                &&& is_fresh(blocks@[t]@, dim)
                            },
                    decreases dim[2] - k,
                {
                    let index: [usize; 3] = [i, j, k];
                    proof {
                        lemma_axis_below_count(dim);
                    }
                    let pos = calculate_position(index, dim);
                    assert(forall|a: int| 0 <= a < 3 ==> -(isize::MAX / 4) <= #[trigger] pos[a]
                        <= isize::MAX / 4) by {
                        assert(0 <= index[0] < dim[0] && 0 <= index[1] < dim[1] && 0 <= index[2]
                            < dim[2]);
                    }
                    let bb = cube_bounds(pos);
                    let block = Block::new(bb, index);
                    assert(position_of(index, dim) =~= seq![pos[0] as int, pos[1] as int, pos[2] as int]);
                    assert(is_fresh(block@, dim));
                    assert(slot_of(index, dim) == blocks@.len());
                    blocks.push(block);
                    k = k + 1;
                }
                assert((i * d1 + j) * d2 + d2 == (i * d1 + (j + 1)) * d2) by (nonlinear_arith);
                j = j + 1;
            }
            assert((i * d1 + d1) * d2 == (i + 1) * d1 * d2) by (nonlinear_arith);
            i = i + 1;
        }
        let r = Board { blocks };
        assert forall|t: int| 0 <= t < r@.len() implies r@[t] == r.blocks@[t]@ by {}
        assert forall|t: int| 0 <= t < r@.len() implies #[trigger] r@[t].wf() by {
            assert(r@[t] == r.blocks@[t]@);
            assert(in_grid(r.blocks@[t]@.index, dim));
        }
        assert forall|t: int, u: int| 0 <= t < u < r@.len() implies r@[t].index != r@[u].index by {
            assert(slot_of(r@[t].index, dim) == t && slot_of(r@[u].index, dim) == u);
        }
        r
    }

    /// The number of cells.
    pub fn len(&self) -> (r: usize)
        ensures
            r == self@.len(),
    {
        self.blocks.len()
    }

    /// The cell with identity `e`, if the board holds it.
    pub fn get(&self, e: Entity) -> (r: Option<&Block>)
        ensures
            e.0 < self@.len() ==> (r matches Some(b) && b@ == self@[e.0 as int]),
            e.0 >= self@.len() ==> r is None,
    {
        if e.0 < self.blocks.len() {
            Some(&self.blocks[e.0])
        } else {
            None
        }
    }

    /// Applies one event. An event naming a cell that the board does not
    /// hold is refused; one naming a revealed cell changes nothing.
    pub fn handle_block_event(&mut self, event: &BlockEvent) -> (r: Result<(), UnknownBlock>)
        ensures
            final(self)@ == apply_event(old(self)@, *event),
            r is Err <==> event.target().0 >= old(self)@.len(),
            r matches Err(u) ==> u.0 == event.target(),
            all_wf(old(self)@) ==> all_wf(final(self)@),
    {
        let id = event.block_id();
        if id.0 >= self.blocks.len() {
            return Err(UnknownBlock(id));
        }
        let mut block = self.blocks[id.0];
        if block.revealed().is_some() {
            return Ok(());
        }
        match event {
            BlockEvent::Reveal(_, c) => block.uncover(*c),
            BlockEvent::Mark(_) => block.toggle_mark(),
        }
        self.blocks.set(id.0, block);
        assert(self@ =~= apply_event(old(self)@, *event));
        Ok(())
    }

    /// Applies the events in order, skipping those that name a cell the
    /// board does not hold, and returns how many were skipped.
    pub fn handle_block_events(&mut self, events: &Vec<BlockEvent>) -> (skipped: usize)
        ensures
            final(self)@ == apply_events(old(self)@, events@),
            all_wf(old(self)@) ==> all_wf(final(self)@),
            skipped <= events@.len(),
    {
        let mut skipped: usize = 0;
        let mut n: usize = 0;
        while n < events.len()
            invariant
                n <= events@.len(),
                skipped <= n,
                self@ == apply_events(old(self)@, events@.take(n as int)),
                all_wf(old(self)@) ==> all_wf(self@),
            decreases events@.len() - n,
        {
            assert(events@.take(n as int + 1).drop_last() =~= events@.take(n as int));
            if self.handle_block_event(&events[n]).is_err() {
                skipped = skipped + 1;
            }
            n = n + 1;
        }
        assert(events@.take(n as int) =~= events@);
        skipped
    }
}

/// Marking a concealed cell twice leaves the board as it was, flag and
/// material alike.
pub proof fn lemma_mark_twice_is_identity(s: Seq<BlockState>, e: Entity)
    requires
        all_wf(s),
    ensures
        apply_event(apply_event(s, BlockEvent::Mark(e)), BlockEvent::Mark(e)) == s,
{
    let i = e.0 as int;
    if i < s.len() && s[i].revealed is None {
        assert(s[i].wf());
        assert(apply_event(apply_event(s, BlockEvent::Mark(e)), BlockEvent::Mark(e)) =~= s);
    }
}

/// A revealed cell keeps its state, visual included, whatever events follow.
pub proof fn lemma_revealed_is_terminal(s: Seq<BlockState>, es: Seq<BlockEvent>, i: int)
    requires
        0 <= i < s.len(),
        s[i].revealed is Some,
    ensures
        apply_events(s, es).len() == s.len(),
        apply_events(s, es)[i] == s[i],
    decreases es.len(),
{
    if es.len() > 0 {
        lemma_revealed_is_terminal(s, es.drop_last(), i);
    }
}

} // verus!
