//! What a renderer needs to know of the chain: one record per segment, and
//! the integer part of the mapping from grid to screen.

use vstd::prelude::*;
use crate::chain::{lemma_one_head, lemma_one_tail, Chain, Pose};
use crate::grid::{Direction, GridCell};

verus! {

/// The side of a grid cell on screen, in pixels.
pub const CELL_SIZE: i32 = 15;

/// One segment as handed to a renderer.
#[derive(Clone, Copy, Debug, PartialEq, Eq, Structural)]
pub struct RenderItem {
    pub position: GridCell,
    pub facing: Direction,
    pub is_head: bool,
    pub is_tail: bool,
}

/// The records for a body, head first. The first is marked as head and the
/// last as tail; a body of one segment is both.
pub open spec fn render_of(body: Seq<Pose>) -> Seq<RenderItem> {
    Seq::new(
        body.len(),
        |i: int|
            RenderItem {
                position: body[i].cell,
                facing: body[i].direction,
                is_head: i == 0,
                is_tail: i == body.len() - 1,
            },
    )
}

/// The number of quarter turns, counter-clockwise, by which a sprite drawn
/// facing down has to be rotated to face `facing`.
pub open spec fn spec_quarter_turns(facing: Direction) -> u8 {
    match facing {
        Direction::Down => 0,
        Direction::Right => 1,
        Direction::Up => 2,
        Direction::Left => 3,
    }
}

/// The records for all segments of `chain`, head first. Head and tail are
/// told by their links: the head has no parent, the tail no child.
pub fn render_items(chain: &Chain) -> (items: Vec<RenderItem>)
    requires
        chain.wf(),
    ensures
        items@ == render_of(chain@),
{
    let n: usize = chain.len();
    let mut items: Vec<RenderItem> = Vec::new();
    let mut i: usize = 0;
    proof {
        lemma_one_head(*chain);
        lemma_one_tail(*chain);
    }
    while i < n
        invariant
            n == chain@.len(),
            i <= n,
            items@.len() == i,
            forall|j: int| 0 <= j < i ==> items@[j] == render_of(chain@)[j],
            forall|j: int| 0 <= j < chain@.len() && chain.parent_of(j) is None ==> j == 0,
            forall|j: int| 0 <= j < chain@.len() && chain.child_of(j) is None ==> j == n - 1,
            chain.parent_of(0) is None,
            chain.child_of(n - 1) is None,
        decreases n - i,
    {
        match chain.segment(i) {
            Some(segment) => {
                items.push(
                    RenderItem {
                        position: segment.cell,
                        facing: segment.direction,
                        is_head: segment.parent.is_none(),
                        is_tail: segment.child.is_none(),
                    },
                );
            },
            None => {},
        }
        i += 1;
    }
    assert(items@ =~= render_of(chain@));
    items
}

/// The pixel at which the cell is drawn, relative to the pixel of the
/// origin cell.
pub fn screen_position(cell: &GridCell) -> (pixel: (i32, i32))
    ensures
        pixel.0 == cell.x * CELL_SIZE,
        pixel.1 == cell.y * CELL_SIZE,
{
    let x: i32 = cell.x as i32;
    let y: i32 = cell.y as i32;
    (x * CELL_SIZE, y * CELL_SIZE)
}

/// The number of quarter turns, counter-clockwise, by which a sprite drawn
/// facing down has to be rotated to face `facing`.
pub fn quarter_turns(facing: &Direction) -> (turns: u8)
    ensures
        turns == spec_quarter_turns(*facing),
{
    match facing {
        Direction::Down => 0,
        Direction::Right => 1,
        Direction::Up => 2,
        Direction::Left => 3,
    }
}

} // verus!
