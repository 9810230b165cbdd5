//! Food: one grid cell, drawn at random among the cells that the snake does
//! not cover.

use crate::grid::{points, Coords, Point};
use rand::rngs::StdRng;
use rand::Rng;
use vstd::prelude::*;

verus! {

/// The generator of the rand crate that the game draws from. Its state is
/// not visible to contracts.
#[verifier::external_type_specification]
#[verifier::external_body]
pub struct ExStdRng(StdRng);

/// Calls `Rng::gen_range` of the rand crate on the range from 0 up to, and
/// without, `bound`. The call panics on an empty range, hence the demand on
/// `bound`; what it returns lies in the range. Nothing is said of which value
/// comes, nor of what becomes of the generator.
#[verifier::external_body]
fn sample_below(rng: &mut StdRng, bound: i32) -> (drawn: i32)
    requires
        bound > 0,
    ensures
        0 <= drawn < bound,
{
    rng.gen_range(0..bound)
}

/// How often `Food::place` draws a cell before it settles for the first
/// free one.
pub const MAX_ATTEMPTS: u32 = 4096;

/// No food could be placed: every cell of the grid is occupied.
#[derive(Debug, PartialEq, Eq, Clone, Copy, Structural)]
pub struct FoodPlacementExhausted;

/// The one cell that holds food.
#[derive(Debug, PartialEq, Eq, Clone, Copy, Structural)]
pub struct Food {
    pub coords: Coords,
}

impl View for Food {
    type V = Point;

    open spec fn view(&self) -> Point {
        self.coords@
    }
}

/// Every cell of the grid with `size` cells a side is among `occupied`.
pub open spec fn grid_full(size: int, occupied: Seq<Point>) -> bool {
    forall|p: Point| p.in_grid(size) ==> #[trigger] occupied.contains(p)
}

/// `p` comes before `q` when the grid is read row by row, each row from
/// x = 0 on.
pub open spec fn precedes(p: Point, q: Point) -> bool {
    p.y < q.y || (p.y == q.y && p.x < q.x)
}

/// Whether `cell` is one of `occupied`.
pub fn is_occupied(cell: Coords, occupied: &Vec<Coords>) -> (found: bool)
    ensures
        found == points(occupied@).contains(cell@),
{
    let n = occupied.len();
    let mut i: usize = 0;
    while i < n
        invariant
            n == occupied@.len(),
            i <= n,
            forall|j: int| 0 <= j < i ==> (#[trigger] points(occupied@)[j]) != cell@,
        decreases n - i,
    {
        if occupied[i] == cell {
            assert(points(occupied@)[i as int] == cell@);
            return true;
        }
        i += 1;
    }
    false
}

/// The first cell of the grid, read row by row, that is not among
/// `occupied`; `None` when there is none, which is the case on a grid
/// without cells too.
pub fn first_free_cell(size: i32, occupied: &Vec<Coords>) -> (found: Option<Coords>)
    ensures
        match found {
            Some(cell) => {
                &&& cell@.in_grid(size as int)
                &&& !points(occupied@).contains(cell@)
                &&& forall|p: Point|
                    p.in_grid(size as int) && precedes(p, cell@) ==> #[trigger] points(
                        occupied@,
                    ).contains(p)
            },
            None => grid_full(size as int, points(occupied@)),
        },
{
    let mut y: i32 = 0;
    while y < size
        invariant
            0 <= y,
            y <= size || size <= 0,
            forall|p: Point|
                p.in_grid(size as int) && p.y < y ==> #[trigger] points(occupied@).contains(p),
        decreases size - y,
    {
        let mut x: i32 = 0;
        while x < size
            invariant
                0 <= x <= size,
                0 <= y < size,
                forall|p: Point|
                    p.in_grid(size as int) && p.y < y ==> #[trigger] points(occupied@).contains(p),
                forall|p: Point|
                    p.in_grid(size as int) && p.y == y && p.x < x ==> #[trigger] points(
                        occupied@,
                    ).contains(p),
            decreases size - x,
        {
            let cell = Coords::new(x, y);
            if !is_occupied(cell, occupied) {
                return Some(cell);
            }
            x += 1;
        }
        y += 1;
    }
    None
}

impl Food {
    /// Food on a cell drawn at random from the whole grid with `size` cells
    /// a side, occupied or not.
    pub fn new(size: i32, rng: &mut StdRng) -> (food: Food)
        requires
            size > 0,
        ensures
            food@.in_grid(size as int),
    {
        let x = sample_below(rng, size);
        let y = sample_below(rng, size);
        Food { coords: Coords::new(x, y) }
    }

    /// Food on `cell`, if `cell` is on the grid and not among `occupied`.
    pub fn try_at(cell: Coords, size: i32, occupied: &Vec<Coords>) -> (food: Option<Food>)
        ensures
            food == if cell@.in_grid(size as int) && !points(occupied@).contains(cell@) {
                Some(Food { coords: cell })
            } else {
                None
            },
    {
        if 0 <= cell.x && cell.x < size && 0 <= cell.y && cell.y < size && !is_occupied(
            cell,
            occupied,
        ) {
            Some(Food { coords: cell })
        } else {
            None
        }
    }

    /// Food on a free cell of the grid with `size` cells a side.
    ///
    /// Cells are drawn at random until one is not among `occupied`, and that
    /// one is taken. After `MAX_ATTEMPTS` draws that all hit an occupied
    /// cell, the first free cell is taken instead. The call fails exactly
    /// when no cell is free, and then draws nothing.
    pub fn place(size: i32, occupied: &Vec<Coords>, rng: &mut StdRng) -> (placed: Result<
        Food,
        FoodPlacementExhausted,
    >)
        ensures
            placed.is_err() <==> grid_full(size as int, points(occupied@)),
            placed matches Ok(food) ==> food@.in_grid(size as int) && !points(
                occupied@,
            ).contains(food@),
    {
        let spare = match first_free_cell(size, occupied) {
            Some(cell) => cell,
            None => {
                return Err(FoodPlacementExhausted);
            },
        };
        let mut attempt: u32 = 0;
        while attempt < MAX_ATTEMPTS
            invariant
                size > 0,
                spare@.in_grid(size as int),
                !points(occupied@).contains(spare@),
            decreases MAX_ATTEMPTS - attempt,
        {
            let sample = Food::new(size, rng);
            if let Some(food) = Food::try_at(sample.coords, size, occupied) {
                return Ok(food);
            }
            attempt += 1;
        }
        Ok(Food { coords: spare })
    }
}

/// Where all cells of the grid but `free` are occupied, a cell of the grid
/// that is not occupied can only be `free`: nothing else can be placed.
pub proof fn lemma_only_free_cell(size: int, occupied: Seq<Point>, free: Point, placed: Point)
    requires
        forall|p: Point| p.in_grid(size) && p != free ==> #[trigger] occupied.contains(p),
        placed.in_grid(size),
        !occupied.contains(placed),
    ensures
        placed == free,
{
}

} // verus!
