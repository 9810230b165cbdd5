//! Cells of a square grid that wraps round at its edges, and the four
//! directions a snake can travel in.
//!
//! A [`Coords`] is a machine value; contracts speak of the [`Point`] it stands
//! for, whose components are unbounded integers.

use vstd::arithmetic::div_mod::{
    lemma_fundamental_div_mod, lemma_mod_bound, lemma_mod_multiples_vanish, lemma_mod_twice,
    lemma_small_mod,
};
use vstd::prelude::*;

verus! {

/// A point of the unbounded integer plane.
pub struct Point {
    pub x: int,
    pub y: int,
}

impl Point {
    /// Component-wise sum.
    pub open spec fn plus(self, other: Point) -> Point {
        Point { x: self.x + other.x, y: self.y + other.y }
    }

    /// Component-wise difference.
    pub open spec fn minus(self, other: Point) -> Point {
        Point { x: self.x - other.x, y: self.y - other.y }
    }

    /// Both components can be held by a `Coords`.
    pub open spec fn fits(self) -> bool {
        &&& i32::MIN <= self.x <= i32::MAX
        &&& i32::MIN <= self.y <= i32::MAX
    }

    /// Both components are strictly inside the range of a `Coords`, so that
    /// one step in any direction still fits.
    pub open spec fn has_margin(self) -> bool {
        &&& i32::MIN < self.x < i32::MAX
        &&& i32::MIN < self.y < i32::MAX
    }

    /// The point names a cell of the grid with `size` cells a side.
    pub open spec fn in_grid(self, size: int) -> bool {
        &&& 0 <= self.x < size
        &&& 0 <= self.y < size
    }

    /// The cell of the grid that the point falls on when each axis is taken
    /// modulo `size`, with the remainder that is never negative.
    pub open spec fn wrap(self, size: int) -> Point
        recommends
            size > 0,
    {
        Point { x: self.x % size, y: self.y % size }
    }

    /// The direction whose unit step is exactly this point, if there is one.
    pub open spec fn heading(self) -> Option<Direction> {
        if self == Direction::Up.unit() {
            Some(Direction::Up)
        } else if self == Direction::Down.unit() {
            Some(Direction::Down)
        } else if self == Direction::Right.unit() {
            Some(Direction::Right)
        } else if self == Direction::Left.unit() {
            Some(Direction::Left)
        } else {
            None
        }
    }

    /// The point is one of the four unit steps.
    pub open spec fn is_unit_step(self) -> bool {
        self.heading().is_some()
    }

    /// On the grid with `size` cells a side, `other` lies one step from
    /// `self` in direction `d`.
    pub open spec fn steps_to(self, d: Direction, other: Point, size: int) -> bool {
        self.wrap(size).plus(d.unit()).wrap(size) == other.wrap(size)
    }
}

/// The points that a sequence of coordinates stands for, in the same order.
pub open spec fn points(cells: Seq<Coords>) -> Seq<Point> {
    cells.map_values(|c: Coords| c@)
}

/// A cell position. It may lie outside the grid: `translate` brings it in.
#[derive(Debug, PartialEq, Eq, Clone, Copy, Structural)]
pub struct Coords {
    pub x: i32,
    pub y: i32,
}

impl View for Coords {
    type V = Point;

    open spec fn view(&self) -> Point {
        Point { x: self.x as int, y: self.y as int }
    }
}

impl Coords {
    /// The coordinates `(x, y)`.
    pub fn new(x: i32, y: i32) -> (c: Coords)
        ensures
            c == (Coords { x, y }),
    {
        Coords { x, y }
    }

    /// The cell of the grid with `max` cells a side that these coordinates
    /// fall on: leaving by one edge comes in again at the opposite edge.
    pub fn translate(&self, max: i32) -> (cell: Coords)
        requires
            max > 0,
        ensures
            cell@ == self@.wrap(max as int),
            cell@.in_grid(max as int),
    {
        Coords { x: wrap_axis(self.x, max), y: wrap_axis(self.y, max) }
    }
}

/// One of the four directions of travel. `Up` is towards smaller `y`.
#[derive(Debug, PartialEq, Eq, Clone, Copy, Structural)]
pub enum Direction {
    Up,
    Down,
    Right,
    Left,
}

impl Direction {
    /// The step of length one in this direction.
    pub open spec fn unit(self) -> Point {
        match self {
            Direction::Up => Point { x: 0, y: -1 },
            Direction::Down => Point { x: 0, y: 1 },
            Direction::Right => Point { x: 1, y: 0 },
            Direction::Left => Point { x: -1, y: 0 },
        }
    }

    /// The two unit steps cancel each other.
    pub open spec fn opposes(self, other: Direction) -> bool {
        self.unit().plus(other.unit()) == (Point { x: 0, y: 0 })
    }

    /// The two directions lie on one axis.
    pub open spec fn on_axis_of(self, other: Direction) -> bool {
        self == other || self.opposes(other)
    }

    /// The unit step in this direction, as coordinates.
    pub fn displacement(self) -> (step: Coords)
        ensures
            step@ == self.unit(),
    {
        match self {
            Direction::Up => Coords { x: 0, y: -1 },
            Direction::Down => Coords { x: 0, y: 1 },
            Direction::Right => Coords { x: 1, y: 0 },
            Direction::Left => Coords { x: -1, y: 0 },
        }
    }

    /// The direction whose unit step is `delta`; `None` when `delta` is not
    /// one of the four unit steps.
    pub fn from_displacement(delta: Coords) -> (d: Option<Direction>)
        ensures
            d == delta@.heading(),
    {
        if delta.x == 0 && delta.y == -1 {
            Some(Direction::Up)
        } else if delta.x == 0 && delta.y == 1 {
            Some(Direction::Down)
        } else if delta.x == 1 && delta.y == 0 {
            Some(Direction::Right)
        } else if delta.x == -1 && delta.y == 0 {
            Some(Direction::Left)
        } else {
            None
        }
    }

    /// Whether `other` is this direction or its reverse.
    pub fn is_same_or_opposite(self, other: Direction) -> (same_axis: bool)
        ensures
            same_axis == self.on_axis_of(other),
    {
        let sum = self.displacement() + other.displacement();
        self == other || (sum.x == 0 && sum.y == 0)
    }
}

impl From<Direction> for Coords {
    fn from(d: Direction) -> (step: Coords)
        ensures
            step@ == d.unit(),
    {
        d.displacement()
    }
}

impl vstd::std_specs::convert::FromSpecImpl<Direction> for Coords {
    open spec fn obeys_from_spec() -> bool {
        true
    }

    open spec fn from_spec(d: Direction) -> Coords {
        match d {
            Direction::Up => Coords { x: 0, y: -1i32 },
            Direction::Down => Coords { x: 0, y: 1 },
            Direction::Right => Coords { x: 1, y: 0 },
            Direction::Left => Coords { x: -1i32, y: 0 },
        }
    }
}

impl From<Coords> for Option<Direction> {
    fn from(delta: Coords) -> (d: Option<Direction>)
        ensures
            d == delta@.heading(),
    {
        Direction::from_displacement(delta)
    }
}

impl vstd::std_specs::convert::FromSpecImpl<Coords> for Option<Direction> {
    open spec fn obeys_from_spec() -> bool {
        true
    }

    open spec fn from_spec(delta: Coords) -> Option<Direction> {
        delta@.heading()
    }
}

impl core::ops::Add for Coords {
    type Output = Coords;

    /// Component-wise sum. The sum has to fit.
    fn add(self, other: Coords) -> (sum: Coords)
        ensures
            sum@ == self@.plus(other@),
    {
        Coords { x: self.x + other.x, y: self.y + other.y }
    }
}

impl vstd::std_specs::ops::AddSpecImpl for Coords {
    open spec fn obeys_add_spec() -> bool {
        true
    }

    open spec fn add_req(self, other: Coords) -> bool {
        self@.plus(other@).fits()
    }

    open spec fn add_spec(self, other: Coords) -> Coords {
        Coords { x: (self.x + other.x) as i32, y: (self.y + other.y) as i32 }
    }
}

impl core::ops::Sub for Coords {
    type Output = Coords;

    /// Component-wise difference. The difference has to fit.
    fn sub(self, other: Coords) -> (difference: Coords)
        ensures
            difference@ == self@.minus(other@),
    {
        Coords { x: self.x - other.x, y: self.y - other.y }
    }
}

impl vstd::std_specs::ops::SubSpecImpl for Coords {
    open spec fn obeys_sub_spec() -> bool {
        true
    }

    open spec fn sub_req(self, other: Coords) -> bool {
        self@.minus(other@).fits()
    }

    open spec fn sub_spec(self, other: Coords) -> Coords {
        Coords { x: (self.x - other.x) as i32, y: (self.y - other.y) as i32 }
    }
}

/// `v` modulo `size`, never negative.
fn wrap_axis(v: i32, size: i32) -> (r: i32)
    requires
        size > 0,
    ensures
        r == (v as int) % (size as int),
        0 <= r < size,
{
    let r: i32 = v % size;
    proof {
        lemma_mod_negated(v as int, size as int);
    }
    if r < 0 {
        r + size
    } else {
        r
    }
}

/// How the remainder of `-v` follows from that of `v`.
proof fn lemma_mod_negated(v: int, n: int)
    requires
        n > 0,
    ensures
        0 <= v % n < n,
        (-v) % n == (if v % n == 0 {
            0
        } else {
            n - v % n
        }),
{
    let q = v / n;
    let r = v % n;
    lemma_mod_bound(v, n);
    lemma_fundamental_div_mod(v, n);
    if r == 0 {
        assert(n * (-q) + 0 == -v) by (nonlinear_arith)
            requires
                v == n * q + r,
                r == 0,
        ;
        lemma_mod_multiples_vanish(-q, 0, n);
        lemma_small_mod(0, n as nat);
    } else {
        assert(n * (-q - 1) + (n - r) == -v) by (nonlinear_arith)
            requires
                v == n * q + r,
        ;
        lemma_mod_multiples_vanish(-q - 1, n - r, n);
        lemma_small_mod((n - r) as nat, n as nat);
    }
}

/// Adding a multiple of `n` does not change the remainder modulo `n`.
proof fn lemma_mod_periodic(v: int, n: int, k: int)
    requires
        n > 0,
    ensures
        (v + k * n) % n == v % n,
{
    assert(n * k + v == v + k * n) by (nonlinear_arith);
    lemma_mod_multiples_vanish(k, v, n);
}

/// Wrapping lands on the grid.
pub proof fn lemma_wrap_in_grid(p: Point, size: int)
    requires
        size > 0,
    ensures
        p.wrap(size).in_grid(size),
{
    lemma_mod_bound(p.x, size);
    lemma_mod_bound(p.y, size);
}

/// Wrapping leaves a cell of the grid where it is.
pub proof fn lemma_wrap_fixes_grid(p: Point, size: int)
    requires
        p.in_grid(size),
    ensures
        p.wrap(size) == p,
{
    lemma_small_mod(p.x as nat, size as nat);
    lemma_small_mod(p.y as nat, size as nat);
}

/// Wrapping twice is wrapping once.
pub proof fn lemma_wrap_idempotent(p: Point, size: int)
    requires
        size > 0,
    ensures
        p.wrap(size).wrap(size) == p.wrap(size),
{
    lemma_mod_twice(p.x, size);
    lemma_mod_twice(p.y, size);
}

/// Moving a point by whole grid widths, `kx` of them along x and `ky` along
/// y, does not change the cell it wraps to.
pub proof fn lemma_wrap_periodic(p: Point, size: int, kx: int, ky: int)
    requires
        size > 0,
    ensures
        (Point { x: p.x + kx * size, y: p.y + ky * size }).wrap(size) == p.wrap(size),
{
    lemma_mod_periodic(p.x, size, kx);
    lemma_mod_periodic(p.y, size, ky);
}

/// The point one step up and left of the origin wraps to the far corner of
/// the grid, and so does every point that lies whole grid widths from it.
pub proof fn lemma_wrap_below_origin(size: int, k: int)
    requires
        size > 0,
    ensures
        (Point { x: -1, y: -1 }).wrap(size) == (Point { x: size - 1, y: size - 1 }),
        (Point { x: k * size - 1, y: k * size - 1 }).wrap(size) == (Point {
            x: size - 1,
            y: size - 1,
        }),
{
    let corner = Point { x: size - 1, y: size - 1 };
    lemma_wrap_fixes_grid(corner, size);
    lemma_wrap_periodic(corner, size, -1, -1);
    assert(size - 1 + (-1) * size == -1) by (nonlinear_arith);
    lemma_wrap_periodic(corner, size, k - 1, k - 1);
    assert(size - 1 + (k - 1) * size == k * size - 1) by (nonlinear_arith);
}

/// Directions and unit steps correspond one to one.
pub proof fn lemma_heading_inverts_unit(d: Direction, p: Point)
    ensures
        d.unit().heading() == Some(d),
        p.heading() == Some(d) <==> p == d.unit(),
{
}

/// Two directions lie on one axis exactly when they are equal or reverse
/// each other, and each direction has exactly one reverse.
pub proof fn lemma_axes(a: Direction, b: Direction)
    ensures
        a.opposes(b) == b.opposes(a),
        a.on_axis_of(b) == b.on_axis_of(a),
        !a.opposes(a),
        a.opposes(b) <==> (a, b) == (Direction::Up, Direction::Down) || (a, b) == (
            Direction::Down,
            Direction::Up,
        ) || (a, b) == (Direction::Left, Direction::Right) || (a, b) == (
            Direction::Right,
            Direction::Left,
        ),
{
}

/// Points one unit step apart in the plane wrap to cells one step apart on
/// the grid.
pub proof fn lemma_step_wraps(from: Point, d: Direction, size: int)
    requires
        size > 0,
    ensures
        from.steps_to(d, from.plus(d.unit()), size),
{
    let u = d.unit();
    vstd::arithmetic::div_mod::lemma_add_mod_noop_right(u.x, from.x, size);
    vstd::arithmetic::div_mod::lemma_add_mod_noop_right(u.y, from.y, size);
}

} // verus!
