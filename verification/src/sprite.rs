//! Where the segments of the snake are drawn, in pixels, between two ticks.
//!
//! The head slides from the cell it left into the cell it is on; the tail
//! slides out of its cell, the way it reports. Every other segment fills its
//! cell.

use crate::grid::{Coords, Direction, Point};
use crate::snake::{Cell, CellType, CellView};
use vstd::prelude::*;

verus! {

/// The left edge of the square drawn for `cell`, on a grid with `size` cells
/// a side that are `cell_px` pixels wide, `offset` pixels into the slide.
pub open spec fn sprite_x(cell: CellView, size: int, cell_px: int, offset: int) -> int {
    let x = cell.pos.wrap(size).x;
    match (cell.kind, cell.direction) {
        (CellType::Head, Direction::Right) => (x - 1) * cell_px + offset,
        (CellType::Head, Direction::Left) => (x + 1) * cell_px - offset,
        (CellType::Tail, Direction::Right) => x * cell_px + offset,
        (CellType::Tail, Direction::Left) => x * cell_px - offset,
        _ => x * cell_px,
    }
}

/// The upper edge of the square drawn for `cell`.
pub open spec fn sprite_y(cell: CellView, size: int, cell_px: int, offset: int) -> int {
    let y = cell.pos.wrap(size).y;
    match (cell.kind, cell.direction) {
        (CellType::Head, Direction::Up) => (y + 1) * cell_px - offset,
        (CellType::Head, Direction::Down) => (y - 1) * cell_px + offset,
        (CellType::Tail, Direction::Up) => y * cell_px - offset,
        (CellType::Tail, Direction::Down) => y * cell_px + offset,
        _ => y * cell_px,
    }
}

/// The two points wrap to cells that are more than one column or more than
/// one row apart.
pub open spec fn far_apart(a: Point, b: Point, size: int) -> bool {
    let p = a.wrap(size);
    let q = b.wrap(size);
    p.x - q.x > 1 || q.x - p.x > 1 || p.y - q.y > 1 || q.y - p.y > 1
}

/// A product of two numbers that each fit 32 bits, with one to spare, fits
/// 64 bits with room for a third.
proof fn lemma_product_fits(a: int, b: int)
    by (nonlinear_arith)
    requires
        -0x8000_0000 <= a <= 0x8000_0000,
        -0x8000_0000 <= b <= 0x8000_0000,
    ensures
        -0x4000_0000_0000_0000 <= a * b <= 0x4000_0000_0000_0000,
{
}

/// `cells * cell_px + shift`, in 64 bits.
fn edge(cells: i64, cell_px: i32, shift: i64) -> (px: i64)
    requires
        -0x8000_0000 <= cells <= 0x8000_0000,
        -0x8000_0000 <= shift <= 0x8000_0000,
    ensures
        px == cells * cell_px + shift,
{
    proof {
        lemma_product_fits(cells as int, cell_px as int);
    }
    cells * (cell_px as i64) + shift
}

impl Cell {
    /// The upper left corner of the square drawn for this segment.
    pub fn sprite_origin(&self, size: i32, cell_px: i32, offset: i32) -> (origin: (i64, i64))
        requires
            size > 0,
        ensures
            origin.0 == sprite_x(self@, size as int, cell_px as int, offset as int),
            origin.1 == sprite_y(self@, size as int, cell_px as int, offset as int),
    {
        let at = self.coords.translate(size);
        let x = at.x as i64;
        let y = at.y as i64;
        let slide = offset as i64;
        let left = match (self.kind, self.direction) {
            (CellType::Head, Direction::Right) => edge(x - 1, cell_px, slide),
            (CellType::Head, Direction::Left) => edge(x + 1, cell_px, -slide),
            (CellType::Tail, Direction::Right) => edge(x, cell_px, slide),
            (CellType::Tail, Direction::Left) => edge(x, cell_px, -slide),
            _ => edge(x, cell_px, 0),
        };
        let top = match (self.kind, self.direction) {
            (CellType::Head, Direction::Up) => edge(y + 1, cell_px, -slide),
            (CellType::Head, Direction::Down) => edge(y - 1, cell_px, slide),
            (CellType::Tail, Direction::Up) => edge(y, cell_px, -slide),
            (CellType::Tail, Direction::Down) => edge(y, cell_px, slide),
            _ => edge(y, cell_px, 0),
        };
        (left, top)
    }
}

impl Coords {
    /// Whether the line drawn along the body has to be broken between this
    /// position and `next`: on the grid they are more than one column or
    /// more than one row apart, as they are across an edge.
    pub fn is_far_from(&self, next: &Coords, size: i32) -> (far: bool)
        requires
            size > 0,
        ensures
            far == far_apart(self@, next@, size as int),
    {
        let p = self.translate(size);
        let q = next.translate(size);
        p.x - q.x > 1 || q.x - p.x > 1 || p.y - q.y > 1 || q.y - p.y > 1
    }
}

} // verus!
