//! A single cell of the grid, and the events that change it.
use vstd::prelude::*;

use crate::visual::{variant_for, visual_of, Contains, Visual};

verus! {

/// The identity of a cell: its slot in the board.
#[derive(Clone, Copy, Debug, PartialEq, Eq, Structural)]
pub struct Entity(pub usize);

/// An axis-aligned box. Coordinates are in half units, so that a unit cube
/// centred on an integer position has integer corners.
#[derive(Clone, Copy, Debug, PartialEq, Eq)]
pub struct Aabb3 {
    pub min: [isize; 3],
    pub max: [isize; 3],
}

/// The mathematical state of a cell.
pub struct BlockState {
    pub marked: bool,
    pub revealed: Option<Contains>,
    pub bb: Aabb3,
    pub index: [usize; 3],
    pub visual: Visual,
}

impl BlockState {
    /// The attached visual is the one that the state calls for.
    pub open spec fn wf(self) -> bool {
        self.visual == visual_of(self.marked, self.revealed)
    }

    /// The state after toggling the mark.
    pub open spec fn marked_toggled(self) -> BlockState {
        BlockState {
            marked: !self.marked,
            visual: visual_of(!self.marked, self.revealed),
            ..self
        }
    }

    /// The state after revealing `c`.
    pub open spec fn revealed_as(self, c: Contains) -> BlockState {
        BlockState { revealed: Some(c), visual: visual_of(self.marked, Some(c)), ..self }
    }
}

/// One cell of the grid.
#[derive(Clone, Copy, Debug)]
pub struct Block {
    /// Whether the player has flagged this cell as a mine.
    marked: bool,
    /// What the cell turned out to hold, once revealed.
    revealed: Option<Contains>,
    /// The cell's bounding box.
    bb: Aabb3,
    /// The cell's grid index.
    index: [usize; 3],
    /// The shape and material currently attached.
    visual: Visual,
}

impl View for Block {
    type V = BlockState;

    closed spec fn view(&self) -> BlockState {
        BlockState {
            marked: self.marked,
            revealed: self.revealed,
            bb: self.bb,
            index: self.index,
            visual: self.visual,
        }
    }
}

impl Block {
    /// A concealed, unmarked cell with the concealed visual.
    pub fn new(bb: Aabb3, index: [usize; 3]) -> (r: Self)
        ensures
            r@.marked == false,
            r@.revealed == None::<Contains>,
            r@.bb == bb,
            r@.index == index,
            r@.wf(),
    {
        Block { marked: false, revealed: None, bb, index, visual: variant_for(false, None) }
    }

    pub fn index(&self) -> (r: [usize; 3])
        ensures
            r == self@.index,
    {
        self.index
    }

    pub fn marked(&self) -> (r: bool)
        ensures
            r == self@.marked,
    {
        self.marked
    }

    pub fn revealed(&self) -> (r: Option<Contains>)
        ensures
            r == self@.revealed,
    {
        self.revealed
    }

    pub fn bounds(&self) -> (r: Aabb3)
        ensures
            r == self@.bb,
    {
        self.bb
    }

    pub fn visual(&self) -> (r: Visual)
        ensures
            r == self@.visual,
    {
        self.visual
    }

    /// Toggles the mark and swaps the material to match.
    pub fn toggle_mark(&mut self)
        ensures
            final(self)@ == old(self)@.marked_toggled(),
    {
        self.marked = !self.marked;
        self.visual = variant_for(self.marked, self.revealed);
    }

    /// Records what the cell holds and attaches the matching visual.
    pub fn uncover(&mut self, c: Contains)
        ensures
            final(self)@ == old(self)@.revealed_as(c),
    {
        self.revealed = Some(c);
        self.visual = variant_for(self.marked, self.revealed);
    }
}

/// A change requested of one cell.
#[derive(Clone, Copy, Debug, PartialEq, Eq, Structural)]
pub enum BlockEvent {
    /// Uncover a cell, showing what it holds.
    Reveal(Entity, Contains),
    /// Mark a cell as holding a mine, or unmark it if it is marked.
    Mark(Entity),
}

impl BlockEvent {
    /// The cell that the event is about.
    pub open spec fn target(self) -> Entity {
        match self {
            BlockEvent::Reveal(e, _) => e,
            BlockEvent::Mark(e) => e,
        }
    }

    pub fn block_id(&self) -> (r: Entity)
        ensures
            r == self.target(),
    {
        match self {
            BlockEvent::Reveal(e, _) => *e,
            BlockEvent::Mark(e) => *e,
        }
    }
}

/// A request to the owner of the mine layout.
#[derive(Clone, Copy, Debug, PartialEq, Eq)]
pub enum FieldEvent {
    /// Reveal the cell with this identity and grid index.
    Reveal(Entity, [usize; 3]),
}

} // verus!
