//! Resolving a click to the nearest concealed cell under the pointer.
use vstd::prelude::*;

use crate::block::{BlockEvent, BlockState, Entity, FieldEvent};
use crate::board::Board;

verus! {

/// A pointer button.
#[derive(Clone, Copy, Debug, PartialEq, Eq, Structural)]
pub enum Button {
    Left,
    Right,
    Middle,
    Back,
    Forward,
    Other(u16),
}

/// What a click asks for.
#[derive(Clone, Copy, Debug, PartialEq, Eq)]
pub enum ClickIntent {
    /// A request to the owner of the mine layout to reveal a cell.
    Field(FieldEvent),
    /// A change of one cell's own state.
    Block(BlockEvent),
}

/// Whether cell `i` may be picked: it is concealed and the ray enters its
/// box, `hits[i]` being the distance at which it does.
pub open spec fn is_candidate(s: Seq<BlockState>, hits: Seq<Option<u64>>, i: int) -> bool {
    &&& 0 <= i < s.len()
    &&& i < hits.len()
    &&& s[i].revealed is None
    &&& hits[i] is Some
}

/// Whether cell `i` is the nearest candidate, the first one among equals.
pub open spec fn is_nearest(s: Seq<BlockState>, hits: Seq<Option<u64>>, i: int) -> bool {
    &&& is_candidate(s, hits, i)
    &&& forall|j: int| #[trigger]
        is_candidate(s, hits, j) ==> hits[i]->0 <= hits[j]->0
    &&& forall|j: int|
        0 <= j < i && #[trigger] is_candidate(s, hits, j) ==> hits[i]->0 < hits[j]->0
}

/// The cell that a click picks, if any.
pub open spec fn picked(s: Seq<BlockState>, hits: Seq<Option<u64>>) -> Option<int> {
    if exists|i: int| is_nearest(s, hits, i) {
        Some(choose|i: int| is_nearest(s, hits, i))
    } else {
        None
    }
}

/// What a click with `button` asks for.
pub open spec fn click_outcome(s: Seq<BlockState>, hits: Seq<Option<u64>>, button: Button) -> Option<
    ClickIntent,
> {
    match picked(s, hits) {
        None => None,
        Some(i) => match button {
            Button::Left => Some(ClickIntent::Field(FieldEvent::Reveal(Entity(i as usize), s[i].index))),
            Button::Right => Some(ClickIntent::Block(BlockEvent::Mark(Entity(i as usize)))),
            _ => None,
        },
    }
}

proof fn lemma_nearest_unique(s: Seq<BlockState>, hits: Seq<Option<u64>>, i: int, k: int)
    requires
        is_nearest(s, hits, i),
        is_nearest(s, hits, k),
    ensures
        i == k,
{
    if i < k {
        assert(is_candidate(s, hits, i));
    } else if k < i {
        assert(is_candidate(s, hits, k));
    }
}

proof fn lemma_picked_is(s: Seq<BlockState>, hits: Seq<Option<u64>>, i: int)
    requires
        is_nearest(s, hits, i),
    ensures
        picked(s, hits) == Some(i),
{
    let k = choose|k: int| is_nearest(s, hits, k);
    lemma_nearest_unique(s, hits, i, k);
}

/// The nearest concealed cell that the ray enters, the first one among
/// equals; `hits[i]` is the distance at which the ray enters cell `i`'s box,
/// or `None` where it misses it.
pub fn pick(board: &Board, hits: &Vec<Option<u64>>) -> (r: Option<Entity>)
    requires
        hits@.len() == board@.len(),
    ensures
        r is None <==> !exists|j: int| is_candidate(board@, hits@, j),
        r matches Some(e) ==> is_nearest(board@, hits@, e.0 as int),
        match picked(board@, hits@) {
            Some(i) => r == Some(Entity(i as usize)),
            None => r is None,
        },
{
    let mut best: Option<(usize, u64)> = None;
    let mut n: usize = 0;
    while n < hits.len()
        invariant
            n <= hits@.len(),
            hits@.len() == board@.len(),
            best is None ==> forall|j: int| 0 <= j < n ==> !is_candidate(board@, hits@, j),
            best matches Some((b, d)) ==> {
                &&& b < n
                &&& is_candidate(board@, hits@, b as int)
                &&& hits@[b as int] == Some(d)
                &&& forall|j: int|
                    0 <= j < n && #[trigger] is_candidate(board@, hits@, j) ==> d <= hits@[j]->0
                &&& forall|j: int|
                    0 <= j < b && #[trigger] is_candidate(board@, hits@, j) ==> d < hits@[j]->0
            },
        decreases hits@.len() - n,
    {
        let concealed = match board.get(Entity(n)) {
            Some(block) => block.revealed().is_none(),
            None => false,
        };
        if concealed {
            if let Some(dist) = hits[n] {
                let closer = match best {
                    None => true,
                    Some((_, d)) => dist < d,
                };
                if closer {
                    best = Some((n, dist));
                }
            }
        }
        n = n + 1;
    }
    match best {
        None => None,
        Some((b, _)) => {
            assert(is_nearest(board@, hits@, b as int));
            proof {
                lemma_picked_is(board@, hits@, b as int);
            }
            Some(Entity(b))
        },
    }
}

/// What a press of `button` asks for: a reveal request for the picked cell
/// on the primary button, a mark toggle on the secondary one, and nothing on
/// other buttons or when no cell is picked.
pub fn click_on_block(board: &Board, button: Button, hits: &Vec<Option<u64>>) -> (r: Option<
    ClickIntent,
>)
    requires
        hits@.len() == board@.len(),
    ensures
        r == click_outcome(board@, hits@, button),
{
    match pick(board, hits) {
        None => None,
        Some(e) => match button {
            Button::Left => {
                let block = board.get(e);
                match block {
                    Some(b) => Some(ClickIntent::Field(FieldEvent::Reveal(e, b.index()))),
                    None => None,
                }
            },
            Button::Right => Some(ClickIntent::Block(BlockEvent::Mark(e))),
            _ => None,
        },
    }
}

/// A ray that enters exactly one concealed cell's box picks that cell: the
/// primary button asks to reveal it at its grid index, the secondary one to
/// toggle its mark.
pub proof fn lemma_single_hit_targets_it(s: Seq<BlockState>, hits: Seq<Option<u64>>, i: int)
    requires
        hits.len() == s.len(),
        is_candidate(s, hits, i),
        forall|j: int| j != i ==> !is_candidate(s, hits, j),
    ensures
        picked(s, hits) == Some(i),
        click_outcome(s, hits, Button::Left) == Some(
            ClickIntent::Field(FieldEvent::Reveal(Entity(i as usize), s[i].index)),
        ),
        click_outcome(s, hits, Button::Right) == Some(
            ClickIntent::Block(BlockEvent::Mark(Entity(i as usize))),
        ),
{
    assert(is_nearest(s, hits, i));
    lemma_picked_is(s, hits, i);
}

/// A ray that enters no concealed cell's box asks for nothing, whichever
/// button was pressed.
pub proof fn lemma_no_hit_no_intent(s: Seq<BlockState>, hits: Seq<Option<u64>>, button: Button)
    requires
        forall|j: int| !is_candidate(s, hits, j),
    ensures
        picked(s, hits) is None,
        click_outcome(s, hits, button) is None,
{
    assert(!exists|i: int| is_nearest(s, hits, i));
}

/// A revealed cell is never picked, whatever the ray.
pub proof fn lemma_revealed_never_picked(s: Seq<BlockState>, hits: Seq<Option<u64>>, i: int)
    requires
        0 <= i < s.len(),
        s[i].revealed is Some,
    ensures
        picked(s, hits) != Some(i),
{
    if picked(s, hits) == Some(i) {
        let k = choose|k: int| is_nearest(s, hits, k);
        assert(is_nearest(s, hits, k));
    }
}

} // verus!
