//! The Game of Life on the torus of the grid, double buffered.

use crate::hal::grid::{wrap, Grid, Point};
use vstd::prelude::*;

verus! {

/// A cell within the Game of Life.
#[derive(Clone, Copy, Debug, PartialEq, Eq, Structural)]
pub enum Cell {
    Alive,
    Dead,
}

impl Cell {
    /// The other state of the cell.
    pub open spec fn spec_toggled(self) -> Cell {
        match self {
            Cell::Alive => Cell::Dead,
            Cell::Dead => Cell::Alive,
        }
    }

    /// Negating a cell twice gives the cell back.
    pub proof fn lemma_toggle_involution(c: Cell)
        ensures
            c.spec_toggled().spec_toggled() == c,
            c.spec_toggled() != c,
    {
    }
}

impl core::ops::Not for Cell {
    type Output = Cell;

    /// Alive becomes dead and dead becomes alive.
    fn not(self) -> (c: Cell)
        ensures
            c == self.spec_toggled(),
    {
        match self {
            Cell::Alive => Cell::Dead,
            Cell::Dead => Cell::Alive,
        }
    }
}

impl vstd::std_specs::ops::NotSpecImpl for Cell {
    open spec fn obeys_not_spec() -> bool {
        true
    }

    open spec fn not_req(self) -> bool {
        true
    }

    open spec fn not_spec(self) -> Cell {
        self.spec_toggled()
    }
}

/// One if the cell of generation `s` at point `p` is alive, else zero.
pub open spec fn alive(s: Seq<Cell>, p: Point) -> int {
    if s[p.spec_index()] == Cell::Alive {
        1
    } else {
        0
    }
}

/// The number of live cells among the eight neighbours of `p` on the torus.
pub open spec fn spec_live_neighbor_count(s: Seq<Cell>, p: Point) -> int {
    alive(s, p.spec_add(Point::spec_new(-1, -1)))
        + alive(s, p.spec_add(Point::spec_new(0, -1)))
        + alive(s, p.spec_add(Point::spec_new(1, -1)))
        + alive(s, p.spec_add(Point::spec_new(-1, 0)))
        + alive(s, p.spec_add(Point::spec_new(1, 0)))
        + alive(s, p.spec_add(Point::spec_new(-1, 1)))
        + alive(s, p.spec_add(Point::spec_new(0, 1)))
        + alive(s, p.spec_add(Point::spec_new(1, 1)))
}

/// The rule of the game: what a cell becomes, given how many of its neighbours live.
pub open spec fn spec_next_cell(current: Cell, live_neighbors: int) -> Cell {
    if current == Cell::Alive && live_neighbors < 2 {
        Cell::Dead
    } else if current == Cell::Alive && (live_neighbors == 2 || live_neighbors == 3) {
        Cell::Alive
    } else if current == Cell::Alive && live_neighbors > 3 {
        Cell::Dead
    } else if current == Cell::Dead && live_neighbors == 3 {
        Cell::Alive
    } else {
        current
    }
}

/// What the cell at point `p` of generation `s` becomes in the next generation.
pub open spec fn spec_next_state(s: Seq<Cell>, p: Point) -> Cell {
    spec_next_cell(s[p.spec_index()], spec_live_neighbor_count(s, p))
}

/// The generation that follows generation `s`: every cell advanced by the rule,
/// all of them read from `s`.
pub open spec fn spec_step(s: Seq<Cell>) -> Seq<Cell> {
    Seq::new(100, |i: int| spec_next_state(s, Point::spec_from_index(i)))
}

/// The generation in which every cell is dead.
pub open spec fn spec_all_dead() -> Seq<Cell> {
    Seq::new(100, |i: int| Cell::Dead)
}

/// Wrapping a sum is the same whether or not one summand was wrapped before, and a
/// coordinate stays where it is only under an offset that is a multiple of ten.
proof fn lemma_wrap_sum(a: int, b: int)
    ensures
        wrap(a + wrap(b)) == wrap(a + b),
        0 <= a < 10 && wrap(a + b) == a ==> b % 10 == 0,
{
}

/// The coordinates of a neighbour: those of the point, moved by the offset and wrapped.
/// Under an offset that is no multiple of ten in both directions, the neighbour is
/// another point.
pub proof fn lemma_neighbor_coordinates(p: Point, dx: int, dy: int)
    requires
        p.wf(),
    ensures
        p.spec_add(Point::spec_new(dx, dy))@ == (
            wrap(p@.0 + dx),
            wrap(p@.1 + dy),
        ),
        p.spec_add(Point::spec_new(dx, dy)).wf(),
        0 <= p.spec_add(Point::spec_new(dx, dy)).spec_index() < 100,
        (dx % 10 != 0 || dy % 10 != 0) ==> p.spec_add(Point::spec_new(dx, dy)).spec_index()
            != p.spec_index(),
{
    let offset = Point::spec_new(dx, dy);
    let q = p.spec_add(offset);
    Point::lemma_spec_new(dx, dy);
    Point::lemma_spec_new(p@.0 + offset@.0, p@.1 + offset@.1);
    lemma_wrap_sum(p@.0, dx);
    lemma_wrap_sum(p@.1, dy);
    assert(q@ == (wrap(p@.0 + dx), wrap(p@.1 + dy)));
    if dx % 10 != 0 {
        assert(q@.0 != p@.0);
    }
    if dy % 10 != 0 {
        assert(q@.1 != p@.1);
    }
}

/// A live cell none of whose neighbours lives is dead in the next generation.
pub proof fn lemma_lonely_cell_dies(s: Seq<Cell>, p: Point)
    requires
        p.wf(),
        s.len() == 100,
        forall|i: int| 0 <= i < 100 && i != p.spec_index() ==> s[i] == Cell::Dead,
    ensures
        spec_live_neighbor_count(s, p) == 0,
        spec_step(s)[p.spec_index()] == Cell::Dead,
{
    lemma_neighbor_coordinates(p, -1, -1);
    lemma_neighbor_coordinates(p, 0, -1);
    lemma_neighbor_coordinates(p, 1, -1);
    lemma_neighbor_coordinates(p, -1, 0);
    lemma_neighbor_coordinates(p, 1, 0);
    lemma_neighbor_coordinates(p, -1, 1);
    lemma_neighbor_coordinates(p, 0, 1);
    lemma_neighbor_coordinates(p, 1, 1);
    Point::lemma_point_round_trip(p);
}

/// Toggling a cell twice restores the generation: the second toggle undoes the first.
pub proof fn lemma_toggle_twice_restores(s: Seq<Cell>, p: Point)
    requires
        p.wf(),
        s.len() == 100,
    ensures
        ({
            let i = p.spec_index();
            let once = s.update(i, s[i].spec_toggled());
            once.update(i, once[i].spec_toggled()) == s
        }),
{
    let i = p.spec_index();
    let once = s.update(i, s[i].spec_toggled());
    Cell::lemma_toggle_involution(s[i]);
    assert(once.update(i, once[i].spec_toggled()) =~= s);
}

/// A buffer in which every cell is dead.
fn dead_buffer() -> (buffer: [Cell; 100])
    ensures
        forall|i: int| 0 <= i < 100 ==> buffer@[i] == Cell::Dead,
{
    let buffer: [Cell; 100] = [Cell::Dead; 100];
    // name the fill, so that what vstd says of it is at hand
    assert(buffer == vstd::array::spec_array_fill_for_copy_type::<Cell, 100>(Cell::Dead));
    buffer
}

/// The Game of Life.
pub struct Universe {
    universe: [[Cell; 100]; 2],
    active_buffer_index: usize,
}

impl View for Universe {
    type V = Seq<Cell>;

    /// The current generation: the hundred cells of the active buffer, by linear index.
    closed spec fn view(&self) -> Seq<Cell> {
        self.universe[self.active_buffer_index as int]@
    }
}

impl Universe {
    #[verifier::type_invariant]
    closed spec fn inv(self) -> bool {
        self.active_buffer_index < 2
    }

    /// Which of the two buffers holds the current generation.
    pub closed spec fn spec_active(self) -> int {
        self.active_buffer_index as int
    }

    /// The cells of the buffer that does not hold the current generation.
    pub closed spec fn spec_shadow(self) -> Seq<Cell> {
        self.universe[1 - self.active_buffer_index]@
    }

    /// A generation always has a hundred cells.
    pub proof fn lemma_view_len(self)
        ensures
            self@.len() == 100,
    {
    }

    /// Construct a new Game of Life, in which every cell is dead.
    pub fn new() -> (u: Universe)
        ensures
            u@ == spec_all_dead(),
            u.spec_active() == 0,
    {
        let universe: [[Cell; 100]; 2] = [dead_buffer(), dead_buffer()];
        let u = Universe { universe, active_buffer_index: 0 };
        assert(u@ =~= spec_all_dead());
        u
    }

    /// Returns the state of the cell at the given point.
    pub fn get(&self, point: Point) -> (cell: Cell)
        ensures
            cell == self@[point.spec_index()],
    {
        proof {
            use_type_invariant(self);
        }
        self.universe[self.active_buffer_index][point.to_index() as usize]
    }

    /// Set the state of a cell at the given point.
    pub fn set(&mut self, point: Point, cell: Cell)
        ensures
            final(self)@ == old(self)@.update(point.spec_index(), cell),
            final(self).spec_active() == old(self).spec_active(),
            final(self).spec_shadow() == old(self).spec_shadow(),
    {
        proof {
            use_type_invariant(&*self);
        }
        let active = self.active_buffer_index;
        self.set_buffer(active, point, cell);
    }

    fn set_buffer(&mut self, buffer: usize, point: Point, cell: Cell)
        requires
            buffer < 2,
        ensures
            final(self).active_buffer_index == old(self).active_buffer_index,
            final(self).universe[buffer as int]@ == old(self).universe[buffer as int]@.update(
                point.spec_index(),
                cell,
            ),
            final(self).universe[1 - buffer]@ == old(self).universe[1 - buffer]@,
    {
        proof {
            use_type_invariant(&*self);
        }
        self.universe[buffer][point.to_index() as usize] = cell;
    }
    /// One if the neighbour of `point` at the offset `(dx, dy)` is alive, else zero.
    fn alive_at(&self, point: Point, dx: i8, dy: i8) -> (n: u8)
        ensures
            n == alive(self@, point.spec_add(Point::spec_new(dx as int, dy as int))),
            n <= 1,
    {
        match self.get(point + Point::new(dx, dy)) {
            Cell::Alive => 1,
            Cell::Dead => 0,
        }
    }

    /// Returns the number of live neighbours for the cell at the given point.
    pub fn live_neighbor_count(&self, point: Point) -> (n: u8)
        ensures
            n == spec_live_neighbor_count(self@, point),
            n <= 8,
    {
        self.alive_at(point, -1, -1) + self.alive_at(point, 0, -1) + self.alive_at(point, 1, -1)
            + self.alive_at(point, -1, 0) + self.alive_at(point, 1, 0) + self.alive_at(
            point,
            -1,
            1,
        ) + self.alive_at(point, 0, 1) + self.alive_at(point, 1, 1)
    }

    /// Returns the next state of a cell at a point in the universe.
    pub fn next_state(&self, point: Point) -> (cell: Cell)
        ensures
            cell == spec_next_state(self@, point),
    {
        let current = self.get(point);
        let n: u8 = self.live_neighbor_count(point);
        match current {
            // underpopulation
            Cell::Alive if n < 2 => Cell::Dead,
            // stable population
            Cell::Alive if n == 2 || n == 3 => Cell::Alive,
            // overpopulation
            Cell::Alive if n > 3 => Cell::Dead,
            // reproduction
            Cell::Dead if n == 3 => Cell::Alive,
            // anything else is stable
            _ => current,
        }
    }

    /// Progress the simulation by one generation. Every cell of the next generation is
    /// computed from the current one and written to the other buffer, which then
    /// becomes the active one.
    pub fn step(&mut self)
        ensures
            final(self)@ == spec_step(old(self)@),
            final(self).spec_active() == 1 - old(self).spec_active(),
            final(self).spec_shadow() == old(self)@,
    {
        proof {
            use_type_invariant(&*self);
        }
        let next_buffer_index: usize = if self.active_buffer_index == 0 {
            1
        } else {
            0
        };
        let points = Grid::points();
        let mut i: usize = 0;
        while i < points.len()
            invariant
                i <= 100,
                points@ == Grid::spec_points(),
                self.active_buffer_index < 2,
                next_buffer_index == 1 - self.active_buffer_index,
                self.active_buffer_index == old(self).active_buffer_index,
                self@ == old(self)@,
                forall|j: int|
                    0 <= j < i ==> self.universe[next_buffer_index as int]@[j] == spec_next_state(
                        old(self)@,
                        Point::spec_from_index(j),
                    ),
            decreases 100 - i,
        {
            let point = points[i];
            proof {
                Point::lemma_index_round_trip(i as int);
            }
            let cell = self.next_state(point);
            self.set_buffer(next_buffer_index, point, cell);
            i = i + 1;
        }
        self.active_buffer_index = next_buffer_index;
        assert(self@ =~= spec_step(old(self)@));
    }
}

} // verus!
