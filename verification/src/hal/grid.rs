//! The ten by ten torus of pads and its wraparound coordinates.

use vstd::prelude::*;

verus! {

/// The number of columns of the grid.
pub const WIDTH: u8 = 10;

/// The number of rows of the grid.
pub const HEIGHT: u8 = 10;

/// The coordinate on the torus that the integer `v` wraps to: the one value in
/// `[0, 10)` that differs from `v` by a multiple of ten.
pub open spec fn wrap(v: int) -> int {
    v % 10
}

/// The Launchpad Pro grid.
pub struct Grid;

/// A point on the Launchpad Pro grid. Its coordinates always lie on the grid.
#[derive(Copy, Clone, Debug, PartialEq, Eq, Structural)]
pub struct Point {
    x: i8,
    y: i8,
}

impl View for Point {
    type V = (int, int);

    /// The column and the row of the point.
    closed spec fn view(&self) -> (int, int) {
        (self.x as int, self.y as int)
    }
}

/// Wraps one signed coordinate into `[0, 10)`.
fn wrap_coordinate(v: i8) -> (r: i8)
    ensures
        r == wrap(v as int),
        0 <= r < 10,
{
    let m: i8 = v % 10;
    let r: i8 = (m + 10) % 10;
    r
}

impl Point {
    /// Both coordinates lie on the grid.
    #[verifier::type_invariant]
    pub open spec fn wf(self) -> bool {
        &&& 0 <= self@.0 < 10
        &&& 0 <= self@.1 < 10
    }

    /// The point whose coordinates are `x` and `y` wrapped onto the torus.
    pub closed spec fn spec_new(x: int, y: int) -> Point {
        Point { x: wrap(x) as i8, y: wrap(y) as i8 }
    }

    /// The point that the linear index `index` decodes to.
    pub open spec fn spec_from_index(index: int) -> Point {
        Point::spec_new(index % 10, index / 10)
    }

    /// The linear, row-major index of the point.
    pub open spec fn spec_index(self) -> int {
        self@.1 * 10 + self@.0
    }

    /// The component-wise sum of two points, wrapped onto the torus.
    pub open spec fn spec_add(self, rhs: Point) -> Point {
        Point::spec_new(self@.0 + rhs@.0, self@.1 + rhs@.1)
    }

    /// A wrapped point has the wrapped coordinates, and they lie on the grid.
    pub proof fn lemma_spec_new(x: int, y: int)
        ensures
            Point::spec_new(x, y)@ == (wrap(x), wrap(y)),
            Point::spec_new(x, y).wf(),
    {
    }

    /// Construct a new point. Coordinates that exceed the bounds of the grid will be wrapped.
    pub fn new(x: i8, y: i8) -> (p: Point)
        ensures
            p == Point::spec_new(x as int, y as int),
            p@ == (wrap(x as int), wrap(y as int)),
            p.wf(),
    {
        Point { x: wrap_coordinate(x), y: wrap_coordinate(y) }
    }

    /// Returns the points x coordinate.
    pub fn x(&self) -> (r: i8)
        ensures
            r == self@.0,
            0 <= r < 10,
    {
        proof {
            use_type_invariant(self);
        }
        self.x
    }

    /// Returns the points y coordinate.
    pub fn y(&self) -> (r: i8)
        ensures
            r == self@.1,
            0 <= r < 10,
    {
        proof {
            use_type_invariant(self);
        }
        self.y
    }

    /// Construct a point from an index in the range `[0, 100)`. Any index outside this range
    /// will be wrapped.
    pub fn from_index(index: u8) -> (p: Point)
        ensures
            p == Point::spec_from_index(index as int),
            p@ == ((index % 10) as int, ((index / 10) % 10) as int),
            index < 100 ==> p.spec_index() == index,
            p.wf(),
    {
        let x: u8 = index % 10;
        let y: u8 = index / 10;
        Point::new(x as i8, y as i8)
    }

    /// Returns an index in the range `[0, 100)` corresponding to this point.
    pub fn to_index(&self) -> (r: u8)
        ensures
            r == self.spec_index(),
            r < 100,
    {
        proof {
            use_type_invariant(self);
        }
        let r: i8 = self.y * 10 + self.x;
        r as u8
    }

    /// Wrapping is closed: whatever the integers, the wrapped point lies on the grid,
    /// and moving either coordinate by one full turn of the torus gives the same point.
    pub proof fn lemma_wraparound_closure(x: int, y: int)
        ensures
            0 <= Point::spec_new(x, y)@.0 < 10,
            0 <= Point::spec_new(x, y)@.1 < 10,
            Point::spec_new(x, y) == Point::spec_new(x + 10, y),
            Point::spec_new(x, y) == Point::spec_new(x, y + 10),
    {
    }

    /// Decoding an index of the grid and encoding the point again gives the index back.
    pub proof fn lemma_index_round_trip(index: int)
        requires
            0 <= index < 100,
        ensures
            Point::spec_from_index(index).spec_index() == index,
            Point::spec_from_index(index)@ == (index % 10, index / 10),
    {
    }

    /// Encoding a point of the grid and decoding the index again gives the point back.
    pub proof fn lemma_point_round_trip(p: Point)
        requires
            p.wf(),
        ensures
            0 <= p.spec_index() < 100,
            Point::spec_from_index(p.spec_index()) == p,
    {
    }
}

impl core::ops::Add for Point {
    type Output = Point;

    /// The component-wise sum, wrapped onto the torus.
    fn add(self, rhs: Point) -> (p: Point)
        ensures
            p == self.spec_add(rhs),
            p@ == (wrap(self@.0 + rhs@.0), wrap(self@.1 + rhs@.1)),
    {
        Point::new(self.x() + rhs.x(), self.y() + rhs.y())
    }
}

impl vstd::std_specs::ops::AddSpecImpl for Point {
    open spec fn obeys_add_spec() -> bool {
        true
    }

    open spec fn add_req(self, rhs: Point) -> bool {
        true
    }

    open spec fn add_spec(self, rhs: Point) -> Point {
        self.spec_add(rhs)
    }
}

impl Grid {
    /// All the points of the grid in row-major order, starting at the origin.
    pub open spec fn spec_points() -> Seq<Point> {
        Seq::new(100, |i: int| Point::spec_from_index(i))
    }

    /// The width of the grid.
    pub fn width() -> (w: u8)
        ensures
            w == 10,
    {
        WIDTH
    }

    /// The height of the grid.
    pub fn height() -> (h: u8)
        ensures
            h == 10,
    {
        HEIGHT
    }

    /// The area of the grid.
    pub fn size() -> (s: u8)
        ensures
            s == 100,
    {
        Grid::width() * Grid::height()
    }

    /// Returns all the points in the grid, row by row.
    pub fn points() -> (v: Vec<Point>)
        ensures
            v@ == Grid::spec_points(),
            v@.len() == 100,
            forall|i: int| 0 <= i < 100 ==> (#[trigger] v@[i]).spec_index() == i,
    {
        let mut v: Vec<Point> = Vec::new();
        let mut i: u8 = 0;
        while i < Grid::size()
            invariant
                i <= 100,
                v@.len() == i,
                forall|j: int| 0 <= j < i ==> v@[j] == Point::spec_from_index(j),
                forall|j: int| 0 <= j < i ==> (#[trigger] v@[j]).spec_index() == j,
            decreases 100 - i,
        {
            v.push(Point::from_index(i));
            i = i + 1;
        }
        assert(v@ =~= Grid::spec_points());
        v
    }

    /// The enumeration is complete and ordered: it holds a hundred points, the point
    /// at position `i` is column `i % 10` of row `i / 10`, no point occurs twice, and
    /// every point of the grid occurs at its own index.
    pub proof fn lemma_points_enumeration()
        ensures
            Grid::spec_points().len() == 100,
            forall|i: int|
                0 <= i < 100 ==> (#[trigger] Grid::spec_points()[i])@ == (i % 10, i / 10),
            forall|i: int, j: int|
                0 <= i < 100 && 0 <= j < 100 && i != j ==> Grid::spec_points()[i]
                    != Grid::spec_points()[j],
            forall|p: Point|
                p.wf() ==> 0 <= #[trigger] p.spec_index() < 100 && Grid::spec_points()[p.spec_index()]
                    == p,
    {
        assert forall|p: Point| p.wf() implies 0 <= #[trigger] p.spec_index() < 100
            && Grid::spec_points()[p.spec_index()] == p by {
            Point::lemma_point_round_trip(p);
        }
    }
}

} // verus!
