//! The snake: an ordered body of segments, head first, that moves one cell a
//! tick, follows its head, grows at the tail and may run into itself.
//!
//! Segments keep their coordinates as they were computed, without wrapping
//! them; whatever compares cells wraps both sides first.

use crate::grid::{lemma_step_wraps, points, Coords, Direction, Point};
use vstd::prelude::*;

verus! {

/// The place of a segment in the body.
#[derive(Debug, PartialEq, Eq, Clone, Copy, Structural)]
pub enum CellType {
    Head,
    Middle,
    Tail,
}

/// One segment of the body.
#[derive(Debug, PartialEq, Eq, Clone, Copy, Structural)]
pub struct Cell {
    pub kind: CellType,
    /// Where the segment is, not wrapped to the grid.
    pub coords: Coords,
    /// The heading that the segment reports to whoever draws it.
    pub direction: Direction,
}

/// What a `Cell` stands for in contracts.
pub struct CellView {
    pub kind: CellType,
    pub pos: Point,
    pub direction: Direction,
}

impl View for Cell {
    type V = CellView;

    open spec fn view(&self) -> CellView {
        CellView { kind: self.kind, pos: self.coords@, direction: self.direction }
    }
}

impl Cell {
    /// A segment of the given kind at `coords` that reports `direction`.
    pub fn new(kind: CellType, coords: Coords, direction: Direction) -> (cell: Cell)
        ensures
            cell == (Cell { kind, coords, direction }),
    {
        Cell { kind, coords, direction }
    }

    /// Puts the segment at `c`, as given: coordinates are stored unwrapped.
    pub fn move_to(&mut self, c: Coords)
        ensures
            *final(self) == (Cell { coords: c, ..*old(self) }),
    {
        self.coords = c;
    }
}

/// The direction of the unit step that leads from `from` to `to`, if one
/// does. No difference is taken that might not fit.
fn heading_between(from: Coords, to: Coords) -> (d: Option<Direction>)
    ensures
        d == to@.minus(from@).heading(),
{
    let dx: i64 = to.x as i64 - from.x as i64;
    let dy: i64 = to.y as i64 - from.y as i64;
    if -1 <= dx && dx <= 1 && -1 <= dy && dy <= 1 {
        Direction::from_displacement(to - from)
    } else {
        None
    }
}

/// The snake. `direction` is the heading of the last tick, `next_direction`
/// the one that the next tick will take.
#[derive(Debug, PartialEq, Eq)]
pub struct Snake {
    pub cells: Vec<Cell>,
    pub direction: Direction,
    pub next_direction: Direction,
}

/// What a `Snake` stands for in contracts.
pub struct SnakeView {
    pub cells: Seq<CellView>,
    pub direction: Direction,
    pub next_direction: Direction,
}

impl View for Snake {
    type V = SnakeView;

    open spec fn view(&self) -> SnakeView {
        SnakeView {
            cells: self.cells@.map_values(|c: Cell| c@),
            direction: self.direction,
            next_direction: self.next_direction,
        }
    }
}

/// The kind that the segment at index `i` of a body of `len` segments has.
pub open spec fn kind_at(i: int, len: int) -> CellType {
    if i == 0 {
        CellType::Head
    } else if i == len - 1 {
        CellType::Tail
    } else {
        CellType::Middle
    }
}

impl SnakeView {
    /// The body a game starts with: a head at the origin and a tail one cell
    /// behind it, heading right.
    pub open spec fn initial() -> SnakeView {
        SnakeView {
            cells: seq![
                CellView {
                    kind: CellType::Head,
                    pos: Point { x: 0, y: 0 },
                    direction: Direction::Right,
                },
                CellView {
                    kind: CellType::Tail,
                    pos: Point { x: -1, y: 0 },
                    direction: Direction::Right,
                },
            ],
            direction: Direction::Right,
            next_direction: Direction::Right,
        }
    }

    /// At least two segments: one head, in front; one tail, at the end;
    /// middles between them.
    pub open spec fn well_formed(self) -> bool {
        &&& self.cells.len() >= 2
        &&& forall|i: int|
            0 <= i < self.cells.len() ==> (#[trigger] self.cells[i]).kind == kind_at(
                i,
                self.cells.len() as int,
            )
    }

    /// What leads from the segment at index `i + 1` to the segment in front
    /// of it.
    pub open spec fn gap(self, i: int) -> Point {
        self.cells[i].pos.minus(self.cells[i + 1].pos)
    }

    /// Each segment lies exactly one unit step from the one in front of it.
    pub open spec fn contiguous(self) -> bool {
        forall|i: int| 0 <= i < self.cells.len() - 1 ==> (#[trigger] self.gap(i)).is_unit_step()
    }

    /// The pending heading is not the reverse of the current one.
    pub open spec fn steady(self) -> bool {
        !self.next_direction.opposes(self.direction)
    }

    /// Every segment can take one step in any direction and still fit.
    pub open spec fn has_room(self) -> bool {
        forall|i: int| 0 <= i < self.cells.len() ==> (#[trigger] self.cells[i]).pos.has_margin()
    }

    /// The head's next position fits.
    pub open spec fn can_advance(self) -> bool {
        self.cells.len() > 0 ==> self.cells[0].pos.plus(self.next_direction.unit()).fits()
    }

    /// There is a tail, and the cell behind it fits.
    pub open spec fn can_grow(self) -> bool {
        &&& self.cells.len() > 0
        &&& self.cells.last().pos.minus(self.cells.last().direction.unit()).fits()
    }

    /// The snake after a request to head in direction `d`: the request is
    /// taken unless `d` is the current heading or its reverse.
    pub open spec fn turned(self, d: Direction) -> SnakeView {
        if self.direction.on_axis_of(d) {
            self
        } else {
            SnakeView { next_direction: d, ..self }
        }
    }

    /// The segment at index `i` after one tick.
    ///
    /// The head takes one step in the pending heading. Every other segment
    /// takes the place that the segment in front of it had before the tick.
    /// The head and the segment behind it report the new heading. A later
    /// segment reports the direction of the step that took it from its old
    /// position to its new one, and keeps what it reported where that was no
    /// unit step.
    pub open spec fn moved_cell(self, i: int) -> CellView {
        let cell = self.cells[i];
        if i == 0 {
            CellView {
                pos: cell.pos.plus(self.next_direction.unit()),
                direction: self.next_direction,
                ..cell
            }
        } else {
            let target = self.cells[i - 1].pos;
            CellView {
                pos: target,
                direction: if i == 1 {
                    self.next_direction
                } else {
                    match target.minus(cell.pos).heading() {
                        Some(d) => d,
                        None => cell.direction,
                    }
                },
                ..cell
            }
        }
    }

    /// The snake after one tick: the pending heading becomes the current one
    /// and every segment moves, each from the positions before the tick.
    pub open spec fn advanced(self) -> SnakeView {
        SnakeView {
            cells: Seq::new(self.cells.len(), |i: int| self.moved_cell(i)),
            direction: self.next_direction,
            next_direction: self.next_direction,
        }
    }

    /// The snake after growing by one segment: the tail becomes a middle, and
    /// a new tail stands one step behind it, against the direction that it
    /// reports, and reports the same.
    pub open spec fn grown(self) -> SnakeView {
        let tail = self.cells.last();
        SnakeView {
            cells: self.cells.update(
                self.cells.len() - 1,
                CellView { kind: CellType::Middle, ..tail },
            ).push(
                CellView {
                    kind: CellType::Tail,
                    pos: tail.pos.minus(tail.direction.unit()),
                    direction: tail.direction,
                },
            ),
            ..self
        }
    }

    /// The grid cells under the segments, head first.
    pub open spec fn occupied(self, size: int) -> Seq<Point> {
        Seq::new(self.cells.len(), |i: int| self.cells[i].pos.wrap(size))
    }

    /// The head is on the grid cell of some other segment.
    pub open spec fn self_collision(self, size: int) -> bool {
        exists|i: int|
            1 <= i < self.cells.len() && (#[trigger] self.cells[i]).pos.wrap(size)
                == self.cells[0].pos.wrap(size)
    }
}

impl Snake {
    /// A snake of two segments at the start of a game.
    pub fn new() -> (snake: Snake)
        ensures
            snake@ == SnakeView::initial(),
            snake@.well_formed(),
            snake@.contiguous(),
            snake@.steady(),
            snake@.has_room(),
    {
        let mut cells: Vec<Cell> = Vec::new();
        cells.push(Cell::new(CellType::Head, Coords::new(0, 0), Direction::Right));
        cells.push(Cell::new(CellType::Tail, Coords::new(-1, 0), Direction::Right));
        let snake = Snake { cells, direction: Direction::Right, next_direction: Direction::Right };
        assert(snake@.cells =~= SnakeView::initial().cells);
        snake
    }

    /// The first segment.
    pub fn get_head(&self) -> (head: &Cell)
        requires
            self.cells@.len() > 0,
        ensures
            *head == self.cells@[0],
            head@ == self@.cells[0],
    {
        &self.cells[0]
    }

    /// The coordinates of the segments as they are stored, head first.
    pub fn get_cell_coords(&self) -> (coords: Vec<Coords>)
        ensures
            coords@ == self.cells@.map_values(|c: Cell| c.coords),
    {
        let mut coords: Vec<Coords> = Vec::new();
        let n = self.cells.len();
        let mut i: usize = 0;
        while i < n
            invariant
                n == self.cells@.len(),
                i <= n,
                coords@ == self.cells@.take(i as int).map_values(|c: Cell| c.coords),
            decreases n - i,
        {
            coords.push(self.cells[i].coords);
            i += 1;
        }
        coords
    }

    /// The grid cells under the segments on a grid with `size` cells a side,
    /// head first, one for each segment.
    pub fn occupied_cells(&self, size: i32) -> (cells: Vec<Coords>)
        requires
            size > 0,
        ensures
            points(cells@) == self@.occupied(size as int),
    {
        let mut cells: Vec<Coords> = Vec::new();
        let n = self.cells.len();
        let mut i: usize = 0;
        while i < n
            invariant
                size > 0,
                n == self.cells@.len(),
                i <= n,
                cells@.len() == i,
                forall|j: int| 0 <= j < i ==> (#[trigger] cells@[j])@ == self@.cells[j].pos.wrap(size as int),
            decreases n - i,
        {
            cells.push(self.cells[i].coords.translate(size));
            i += 1;
        }
        cells
    }

    /// Whether the head is on the grid cell of another segment of the body,
    /// on a grid with `size` cells a side.
    pub fn detect_self_collision(&self, size: i32) -> (hit: bool)
        requires
            size > 0,
        ensures
            hit == self@.self_collision(size as int),
    {
        let n = self.cells.len();
        if n == 0 {
            return false;
        }
        let head = self.cells[0].coords.translate(size);
        let mut i: usize = 1;
        while i < n
            invariant
                size > 0,
                n == self.cells@.len(),
                1 <= i <= n,
                head@ == self@.cells[0].pos.wrap(size as int),
                forall|j: int| 1 <= j < i ==> (#[trigger] self@.cells[j]).pos.wrap(size as int) != head@,
            decreases n - i,
        {
            if self.cells[i].coords.translate(size) == head {
                assert(self@.cells[i as int].pos.wrap(size as int) == head@);
                return true;
            }
            i += 1;
        }
        false
    }

    /// Whether every segment lies strictly inside the range of `Coords`.
    pub fn has_room(&self) -> (roomy: bool)
        ensures
            roomy == self@.has_room(),
    {
        let n = self.cells.len();
        let mut i: usize = 0;
        while i < n
            invariant
                n == self.cells@.len(),
                i <= n,
                forall|j: int| 0 <= j < i ==> (#[trigger] self@.cells[j]).pos.has_margin(),
            decreases n - i,
        {
            let c = self.cells[i].coords;
            if c.x == i32::MIN || c.x == i32::MAX || c.y == i32::MIN || c.y == i32::MAX {
                assert(!self@.cells[i as int].pos.has_margin());
                return false;
            }
            i += 1;
        }
        true
    }

    /// Asks for heading `d` at the next tick. The request is dropped when `d`
    /// is the current heading or its reverse; a later request that is taken
    /// replaces an earlier one.
    pub fn change_direction(&mut self, d: Direction)
        ensures
            final(self)@ == old(self)@.turned(d),
            final(self).cells == old(self).cells,
    {
        if !self.direction.is_same_or_opposite(d) {
            self.next_direction = d;
        }
    }

    /// Moves the snake by one tick: the pending heading becomes the current
    /// one, the head takes a step in it, and every other segment takes the
    /// place of the segment in front of it.
    pub fn advance_tick(&mut self)
        requires
            old(self)@.can_advance(),
        ensures
            final(self)@ == old(self)@.advanced(),
    {
        self.direction = self.next_direction;
        let heading = self.direction;
        let n = self.cells.len();
        if n > 0 {
            let mut head = self.cells[0];
            let mut vacated = head.coords;
            head.direction = heading;
            head.move_to(vacated + heading.displacement());
            self.cells.set(0, head);
            let mut i: usize = 1;
            while i < n
                invariant
                    n == old(self).cells@.len(),
                    n == self.cells@.len(),
                    1 <= i <= n,
                    heading == old(self).next_direction,
                    self.direction == heading,
                    self.next_direction == heading,
                    vacated == old(self).cells@[i - 1].coords,
                    forall|j: int|
                        0 <= j < i ==> (#[trigger] self.cells@[j])@ == old(self)@.moved_cell(j),
                    forall|j: int| i <= j < n ==> #[trigger] self.cells@[j] == old(self).cells@[j],
                decreases n - i,
            {
                let mut cell = self.cells[i];
                let was = cell.coords;
                if i == 1 {
                    cell.direction = heading;
                } else if let Some(d) = heading_between(was, vacated) {
                    cell.direction = d;
                }
                cell.move_to(vacated);
                self.cells.set(i, cell);
                vacated = was;
                i += 1;
            }
        }
        assert(self@.cells =~= old(self)@.advanced().cells);
    }

    /// Adds one segment at the tail.
    pub fn grow(&mut self)
        requires
            old(self)@.can_grow(),
        ensures
            final(self)@ == old(self)@.grown(),
    {
        let last = self.cells.len() - 1;
        let mut tail = self.cells[last];
        let behind = tail.coords - tail.direction.displacement();
        tail.kind = CellType::Middle;
        self.cells.set(last, tail);
        self.cells.push(Cell::new(CellType::Tail, behind, tail.direction));
        assert(self@.cells =~= old(self)@.grown().cells);
    }
}

/// A request for the current heading or its reverse changes nothing, so the
/// next tick keeps the heading that was pending. Any other request is the
/// heading of the next tick.
pub proof fn lemma_reversal_guard(s: SnakeView, d: Direction)
    ensures
        s.direction.on_axis_of(d) ==> s.turned(d) == s,
        s.direction.on_axis_of(d) ==> s.turned(d).advanced().direction == s.next_direction,
        !s.direction.on_axis_of(d) ==> s.turned(d).advanced().direction == d,
        s.turned(d).cells == s.cells,
        s.turned(d).direction == s.direction,
{
}

/// A snake whose pending heading does not reverse its current one stays so
/// under requests and ticks, and no tick turns it round on the spot.
pub proof fn lemma_never_reverses(s: SnakeView, d: Direction)
    requires
        s.steady(),
    ensures
        s.turned(d).steady(),
        s.advanced().steady(),
        !s.advanced().direction.opposes(s.direction),
{
}

/// A tick keeps the number of segments and the kind of each, and with them
/// the shape of the body.
pub proof fn lemma_advance_keeps_shape(s: SnakeView)
    ensures
        s.advanced().cells.len() == s.cells.len(),
        forall|i: int|
            0 <= i < s.cells.len() ==> (#[trigger] s.advanced().cells[i]).kind == s.cells[i].kind,
        s.well_formed() ==> s.advanced().well_formed(),
{
}

/// After a tick the head has taken one step in the heading that was pending,
/// and every other segment stands where the segment in front of it stood
/// before the tick.
pub proof fn lemma_advance_follows_leader(s: SnakeView, i: int)
    requires
        0 <= i < s.cells.len(),
    ensures
        i == 0 ==> s.advanced().cells[i].pos == s.cells[0].pos.plus(s.next_direction.unit()),
        i > 0 ==> s.advanced().cells[i].pos == s.cells[i - 1].pos,
{
}

/// Of a body whose neighbours were one step apart: after a tick, segment
/// `i` has taken a unit step, the segment behind it stands exactly that step
/// behind it, and on a grid of any size the two wrap to cells one step apart.
pub proof fn lemma_advance_keeps_body_together(s: SnakeView, i: int, size: int)
    requires
        s.contiguous(),
        0 <= i < s.cells.len() - 1,
        size > 0,
    ensures
        ({
            let t = s.advanced();
            let step = t.cells[i].pos.minus(s.cells[i].pos);
            &&& step.heading() matches Some(d)
            &&& t.cells[i + 1].pos.plus(d.unit()) == t.cells[i].pos
            &&& t.cells[i + 1].pos.steps_to(d, t.cells[i].pos, size)
        }),
        s.advanced().contiguous(),
{
    let t = s.advanced();
    let step = t.cells[i].pos.minus(s.cells[i].pos);
    if i > 0 {
        assert(step == s.gap(i - 1));
    }
    lemma_step_wraps(t.cells[i + 1].pos, step.heading().unwrap(), size);
    lemma_advance_keeps_contiguous(s);
}

/// A tick keeps neighbours one step apart.
pub proof fn lemma_advance_keeps_contiguous(s: SnakeView)
    requires
        s.contiguous(),
    ensures
        s.advanced().contiguous(),
{
    let t = s.advanced();
    assert forall|j: int| 0 <= j < t.cells.len() - 1 implies (#[trigger] t.gap(j)).is_unit_step() by {
        if j > 0 {
            assert(t.gap(j) == s.gap(j - 1));
        }
    }
}

/// Growing adds exactly one segment and moves none; it keeps the shape of
/// the body and keeps neighbours one step apart, now and after the next tick.
pub proof fn lemma_grow_keeps_body(s: SnakeView)
    requires
        s.cells.len() > 0,
    ensures
        s.grown().cells.len() == s.cells.len() + 1,
        forall|i: int|
            0 <= i < s.cells.len() ==> (#[trigger] s.grown().cells[i]).pos == s.cells[i].pos,
        s.grown().direction == s.direction,
        s.grown().next_direction == s.next_direction,
        s.well_formed() ==> s.grown().well_formed(),
        s.contiguous() ==> s.grown().contiguous(),
        s.contiguous() ==> s.grown().advanced().contiguous(),
{
    let g = s.grown();
    let last = s.cells.len() - 1;
    if s.contiguous() {
        assert forall|j: int| 0 <= j < g.cells.len() - 1 implies (#[trigger] g.gap(j)).is_unit_step() by {
            if j < last {
                assert(g.gap(j) == s.gap(j));
            }
        }
        lemma_advance_keeps_contiguous(g);
    }
}

/// Of a body of three segments or more whose neighbours were one step
/// apart: after a tick, every segment behind the second reports the
/// direction of the step it has just taken, and a tail grown then stands
/// where the tail stood before the tick.
pub proof fn lemma_grow_after_tick_fills_wake(s: SnakeView, i: int)
    requires
        s.contiguous(),
        2 <= i < s.cells.len(),
    ensures
        s.advanced().cells[i].direction.unit() == s.advanced().cells[i].pos.minus(s.cells[i].pos),
        s.advanced().grown().cells.last().pos == s.cells.last().pos,
{
    let t = s.advanced();
    let last = s.cells.len() - 1;
    assert(t.cells[i].pos.minus(s.cells[i].pos) == s.gap(i - 1));
    assert(t.cells[last].pos.minus(s.cells[last].pos) == s.gap(last - 1));
}

/// The head bites the body exactly when its grid cell is among the occupied
/// cells that follow it.
pub proof fn lemma_collision_is_head_among_the_rest(s: SnakeView, size: int)
    requires
        s.cells.len() > 0,
    ensures
        s.self_collision(size) <==> s.occupied(size).skip(1).contains(s.occupied(size)[0]),
{
    let cells = s.occupied(size);
    let rest = cells.skip(1);
    if s.self_collision(size) {
        let i = choose|i: int|
            1 <= i < s.cells.len() && (#[trigger] s.cells[i]).pos.wrap(size) == s.cells[0].pos.wrap(
                size,
            );
        assert(rest[i - 1] == cells[0]);
    }
    if rest.contains(cells[0]) {
        let k = choose|k: int| 0 <= k < rest.len() && rest[k] == cells[0];
        assert(s.cells[k + 1].pos.wrap(size) == s.cells[0].pos.wrap(size));
    }
}

/// A body with room for a step everywhere can take a tick, and can grow
/// both before and after it.
pub proof fn lemma_room_suffices(s: SnakeView)
    requires
        s.has_room(),
        s.cells.len() > 0,
    ensures
        s.can_advance(),
        s.can_grow(),
        s.advanced().can_grow(),
{
}

} // verus!
