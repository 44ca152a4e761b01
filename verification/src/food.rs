//! Where food appears. The cell is drawn at random; what is proved is how a
//! random number becomes a cell, and that the cell lies within the food
//! area whatever number was drawn.

use vstd::prelude::*;
use crate::grid::GridCell;

verus! {

/// Food appears less than this many cells away from the origin, on each
/// axis.
pub const FOOD_REACH: i32 = 20;

/// The coordinate that a random number stands for: its remainder by the
/// reach, with the sign of the number.
pub open spec fn spec_food_coordinate(sample: i32) -> int {
    if sample >= 0 {
        sample as int % FOOD_REACH as int
    } else {
        -((-(sample as int)) % FOOD_REACH as int)
    }
}

/// Whether food may appear at `cell`.
pub open spec fn in_food_area(cell: GridCell) -> bool {
    -FOOD_REACH < cell.x < FOOD_REACH && -FOOD_REACH < cell.y < FOOD_REACH
}

/// A random number from the generator of the current thread
/// (`rand::random`). Nothing is claimed of the number: every `i32` can come
/// back, and two calls need not agree. The generator takes its seed from
/// the operating system when a thread first uses it, and panics there if
/// the system has none to give.
#[verifier::external_body]
fn random_i32() -> (sample: i32) {
    rand::random::<i32>()
}

/// The coordinate that a random number stands for.
pub fn food_coordinate(sample: i32) -> (coordinate: i8)
    ensures
        coordinate == spec_food_coordinate(sample),
        -FOOD_REACH < coordinate < FOOD_REACH,
{
    let r: i32 = sample % FOOD_REACH;
    r as i8
}

/// The cell that two random numbers stand for.
pub fn food_cell(sample_x: i32, sample_y: i32) -> (cell: GridCell)
    ensures
        cell.x == spec_food_coordinate(sample_x),
        cell.y == spec_food_coordinate(sample_y),
        in_food_area(cell),
{
    GridCell { x: food_coordinate(sample_x), y: food_coordinate(sample_y) }
}

/// Decides whether new food is due and where. Food is placed only while
/// none is on the grid, and then at a random cell of the food area.
pub fn place_food(food_on_grid: usize) -> (placed: Option<GridCell>)
    ensures
        food_on_grid > 0 ==> placed is None,
        food_on_grid == 0 ==> (placed matches Some(cell) && in_food_area(cell)),
{
    if food_on_grid == 0 {
        let sample_x: i32 = random_i32();
        let sample_y: i32 = random_i32();
        Some(food_cell(sample_x, sample_y))
    } else {
        None
    }
}

} // verus!
