//! Integer grid points and 2d sizes over several plain representations.
use vstd::prelude::*;

use crate::directions::{dir_table, GridCompassOctant};

verus! {

/// An integer point on a 2d grid.
#[derive(Clone, Copy, Debug, PartialEq, Eq, Structural)]
pub struct GridPos {
    pub x: i32,
    pub y: i32,
}

impl GridPos {
    /// The point `(x, y)`.
    pub fn new(x: i32, y: i32) -> (r: GridPos)
        ensures
            r.x == x,
            r.y == y,
    {
        GridPos { x, y }
    }
}

/// The absolute value of an integer.
pub open spec fn abs_int(v: int) -> int {
    if v < 0 {
        -v
    } else {
        v
    }
}

/// The Manhattan distance between `(ax, ay)` and `(bx, by)`.
pub open spec fn manhattan_dist(ax: int, ay: int, bx: int, by: int) -> int {
    abs_int(ax - bx) + abs_int(ay - by)
}

/// The Chebyshev distance between `(ax, ay)` and `(bx, by)`.
pub open spec fn chebyshev_dist(ax: int, ay: int, bx: int, by: int) -> int {
    let dx = abs_int(ax - bx);
    let dy = abs_int(ay - by);
    if dx >= dy {
        dx
    } else {
        dy
    }
}

/// The squared Euclidean distance between `(ax, ay)` and `(bx, by)`.
pub open spec fn euclidean_sq_dist(ax: int, ay: int, bx: int, by: int) -> int {
    (ax - bx) * (ax - bx) + (ay - by) * (ay - by)
}

/// The Manhattan distance is symmetric, and zero exactly between equal points.
pub proof fn lemma_manhattan_symmetric_zero(ax: int, ay: int, bx: int, by: int)
    ensures
        manhattan_dist(ax, ay, bx, by) == manhattan_dist(bx, by, ax, ay),
        manhattan_dist(ax, ay, bx, by) >= 0,
        manhattan_dist(ax, ay, bx, by) == 0 <==> (ax == bx && ay == by),
{
}

/// The Chebyshev distance never exceeds the Manhattan distance.
pub proof fn lemma_chebyshev_le_manhattan(ax: int, ay: int, bx: int, by: int)
    ensures
        chebyshev_dist(ax, ay, bx, by) <= manhattan_dist(ax, ay, bx, by),
{
}

/// Whether `v` fits in an `i32`.
pub open spec fn fits_i32(v: int) -> bool {
    i32::MIN <= v <= i32::MAX
}

/// `|a - b|` for two `i32` values, as a `u64`.
fn abs_diff(a: i32, b: i32) -> (r: u64)
    ensures
        r as int == abs_int(a - b),
{
    let d: i64 = a as i64 - b as i64;
    if d < 0 {
        (-d) as u64
    } else {
        d as u64
    }
}

/// A type representing an integer point on a 2d grid.
pub trait GridPoint: Sized {
    /// The point's x coordinate.
    spec fn gx(&self) -> i32;

    /// The point's y coordinate.
    spec fn gy(&self) -> i32;

    /// The x coordinate, cast to `i32`.
    fn x(&self) -> (r: i32)
        ensures
            r == self.gx(),
    ;

    /// The y coordinate, cast to `i32`.
    fn y(&self) -> (r: i32)
        ensures
            r == self.gy(),
    ;

    /// The point as a [`GridPos`].
    fn as_ivec2(&self) -> (r: GridPos)
        ensures
            r.x == self.gx(),
            r.y == self.gy(),
    {
        GridPos { x: self.x(), y: self.y() }
    }

    /// The product of the coordinates, cast to `usize`.
    fn len(&self) -> (r: usize)
        requires
            fits_i32(self.gx() * self.gy()),
        ensures
            r == ((self.gx() * self.gy()) as i32) as usize,
    {
        let p: i32 = self.x() * self.y();
        p as usize
    }

    /// The grid point's row-major index in a grid `grid_width` wide:
    /// `y * grid_width + x`, each coordinate cast to `usize`.
    fn as_index(&self, grid_width: usize) -> (r: usize)
        requires
            (self.gy() as usize) * grid_width + (self.gx() as usize) <= usize::MAX,
        ensures
            r == (self.gy() as usize) * grid_width + (self.gx() as usize),
            self.gx() >= 0 && self.gy() >= 0 ==> r == self.gy() * grid_width + self.gx(),
    {
        let x: i32 = self.x();
        let y: i32 = self.y();
        assert((y as usize) * grid_width <= usize::MAX) by (nonlinear_arith)
            requires
                (y as usize) * grid_width + (x as usize) <= usize::MAX,
        ;
        y as usize * grid_width + x as usize
    }

    /// The grid point `amount` spaces above this one.
    fn up(&self, amount: i32) -> (r: GridPos)
        requires
            fits_i32(self.gy() + amount),
        ensures
            r.x == self.gx(),
            r.y == self.gy() + amount,
    {
        GridPos { x: self.x(), y: self.y() + amount }
    }

    /// The grid point `amount` spaces below this one.
    fn down(&self, amount: i32) -> (r: GridPos)
        requires
            fits_i32(self.gy() - amount),
        ensures
            r.x == self.gx(),
            r.y == self.gy() - amount,
    {
        GridPos { x: self.x(), y: self.y() - amount }
    }

    /// The grid point `amount` spaces to the right of this one.
    fn right(&self, amount: i32) -> (r: GridPos)
        requires
            fits_i32(self.gx() + amount),
        ensures
            r.x == self.gx() + amount,
            r.y == self.gy(),
    {
        GridPos { x: self.x() + amount, y: self.y() }
    }

    /// The grid point `amount` spaces to the left of this one.
    fn left(&self, amount: i32) -> (r: GridPos)
        requires
            fits_i32(self.gx() - amount),
        ensures
            r.x == self.gx() - amount,
            r.y == self.gy(),
    {
        GridPos { x: self.x() - amount, y: self.y() }
    }

    /// This grid point moved by `xy`.
    fn offset(&self, xy: GridPos) -> (r: GridPos)
        requires
            fits_i32(self.gx() + xy.x),
            fits_i32(self.gy() + xy.y),
        ensures
            r.x == self.gx() + xy.x,
            r.y == self.gy() + xy.y,
    {
        GridPos { x: self.x() + xy.x, y: self.y() + xy.y }
    }

    /// The Manhattan distance between two grid points.
    fn manhattan(self, other: GridPos) -> (r: usize)
        requires
            manhattan_dist(self.gx() as int, self.gy() as int, other.x as int, other.y as int)
                <= usize::MAX,
        ensures
            r == manhattan_dist(self.gx() as int, self.gy() as int, other.x as int, other.y as int),
    {
        let dx = abs_diff(self.x(), other.x);
        let dy = abs_diff(self.y(), other.y);
        (dx + dy) as usize
    }

    /// The Chebyshev distance between two grid points.
    fn chebyshev(self, other: GridPos) -> (r: usize)
        requires
            chebyshev_dist(self.gx() as int, self.gy() as int, other.x as int, other.y as int)
                <= usize::MAX,
        ensures
            r == chebyshev_dist(self.gx() as int, self.gy() as int, other.x as int, other.y as int),
    {
        let dx = abs_diff(self.x(), other.x);
        let dy = abs_diff(self.y(), other.y);
        if dx >= dy {
            dx as usize
        } else {
            dy as usize
        }
    }

    /// The squared Euclidean distance between two grid points.
    fn euclidean_squared(self, other: GridPos) -> (r: usize)
        requires
            euclidean_sq_dist(self.gx() as int, self.gy() as int, other.x as int, other.y as int)
                <= usize::MAX,
        ensures
            r == euclidean_sq_dist(
                self.gx() as int,
                self.gy() as int,
                other.x as int,
                other.y as int,
            ),
    {
        let dx = abs_diff(self.x(), other.x) as u128;
        let dy = abs_diff(self.y(), other.y) as u128;
        assert(dx * dx <= u32::MAX * u32::MAX && dy * dy <= u32::MAX * u32::MAX)
            by (nonlinear_arith)
            requires
                dx <= u32::MAX,
                dy <= u32::MAX,
        ;
        let s: u128 = dx * dx + dy * dy;
        assert(s == euclidean_sq_dist(
            self.gx() as int,
            self.gy() as int,
            other.x as int,
            other.y as int,
        )) by (nonlinear_arith)
            requires
                dx == abs_int(self.gx() - other.x),
                dy == abs_int(self.gy() - other.y),
                s == dx * dx + dy * dy,
        ;
        s as usize
    }

    /// The iterator over the eight points adjacent to this one.
    fn adj_8(&self) -> (r: AdjIterator)
        requires
            in_interior(self.gx() as int, self.gy() as int),
        ensures
            r.wf(),
            r.remaining() == adj_seq(GridPos { x: self.gx(), y: self.gy() }, 8),
    {
        AdjIterator { i: 0, p: self.as_ivec2(), n: 8 }
    }

    /// The iterator over the four points orthogonally adjacent to this one.
    fn adj_4(&self) -> (r: AdjIterator)
        requires
            in_interior(self.gx() as int, self.gy() as int),
        ensures
            r.wf(),
            r.remaining() == adj_seq(GridPos { x: self.gx(), y: self.gy() }, 4),
    {
        AdjIterator { i: 0, p: self.as_ivec2(), n: 4 }
    }
}

impl GridPoint for GridPos {
    open spec fn gx(&self) -> i32 {
        self.x
    }

    open spec fn gy(&self) -> i32 {
        self.y
    }

    fn x(&self) -> (r: i32) {
        self.x
    }

    fn y(&self) -> (r: i32) {
        self.y
    }
}

impl GridPoint for [i32; 2] {
    open spec fn gx(&self) -> i32 {
        self@[0]
    }

    open spec fn gy(&self) -> i32 {
        self@[1]
    }

    fn x(&self) -> (r: i32) {
        self[0]
    }

    fn y(&self) -> (r: i32) {
        self[1]
    }
}

impl GridPoint for (i32, i32) {
    open spec fn gx(&self) -> i32 {
        self.0
    }

    open spec fn gy(&self) -> i32 {
        self.1
    }

    fn x(&self) -> (r: i32) {
        self.0
    }

    fn y(&self) -> (r: i32) {
        self.1
    }
}

impl GridPoint for [u32; 2] {
    open spec fn gx(&self) -> i32 {
        self@[0] as i32
    }

    open spec fn gy(&self) -> i32 {
        self@[1] as i32
    }

    fn x(&self) -> (r: i32) {
        self[0] as i32
    }

    fn y(&self) -> (r: i32) {
        self[1] as i32
    }
}

impl GridPoint for (u32, u32) {
    open spec fn gx(&self) -> i32 {
        self.0 as i32
    }

    open spec fn gy(&self) -> i32 {
        self.1 as i32
    }

    fn x(&self) -> (r: i32) {
        self.0 as i32
    }

    fn y(&self) -> (r: i32) {
        self.1 as i32
    }
}

impl GridPoint for [usize; 2] {
    open spec fn gx(&self) -> i32 {
        self@[0] as i32
    }

    open spec fn gy(&self) -> i32 {
        self@[1] as i32
    }

    fn x(&self) -> (r: i32) {
        self[0] as i32
    }

    fn y(&self) -> (r: i32) {
        self[1] as i32
    }
}

impl GridPoint for (usize, usize) {
    open spec fn gx(&self) -> i32 {
        self.0 as i32
    }

    open spec fn gy(&self) -> i32 {
        self.1 as i32
    }

    fn x(&self) -> (r: i32) {
        self.0 as i32
    }

    fn y(&self) -> (r: i32) {
        self.1 as i32
    }
}

/// A type representing a 2d size: a width and a height.
pub trait Size2d: Sized {
    /// The width, the first component cast to `usize`.
    spec fn sw(&self) -> usize;

    /// The height, the second component cast to `usize`.
    spec fn sh(&self) -> usize;

    /// The width.
    fn width(&self) -> (r: usize)
        ensures
            r == self.sw(),
    ;

    /// The height.
    fn height(&self) -> (r: usize)
        ensures
            r == self.sh(),
    ;

    /// The area, `width * height`.
    fn len(&self) -> (r: usize)
        requires
            self.sw() * self.sh() <= usize::MAX,
        ensures
            r == self.sw() * self.sh(),
    {
        self.width() * self.height()
    }
}

impl Size2d for GridPos {
    open spec fn sw(&self) -> usize {
        self.x as usize
    }

    open spec fn sh(&self) -> usize {
        self.y as usize
    }

    fn width(&self) -> (r: usize) {
        self.x as usize
    }

    fn height(&self) -> (r: usize) {
        self.y as usize
    }
}

impl Size2d for [i32; 2] {
    open spec fn sw(&self) -> usize {
        self@[0] as usize
    }

    open spec fn sh(&self) -> usize {
        self@[1] as usize
    }

    fn width(&self) -> (r: usize) {
        self[0] as usize
    }

    fn height(&self) -> (r: usize) {
        self[1] as usize
    }
}

impl Size2d for (i32, i32) {
    open spec fn sw(&self) -> usize {
        self.0 as usize
    }

    open spec fn sh(&self) -> usize {
        self.1 as usize
    }

    fn width(&self) -> (r: usize) {
        self.0 as usize
    }

    fn height(&self) -> (r: usize) {
        self.1 as usize
    }
}

impl Size2d for [u32; 2] {
    open spec fn sw(&self) -> usize {
        self@[0] as usize
    }

    open spec fn sh(&self) -> usize {
        self@[1] as usize
    }

    fn width(&self) -> (r: usize) {
        self[0] as usize
    }

    fn height(&self) -> (r: usize) {
        self[1] as usize
    }
}

impl Size2d for (u32, u32) {
    open spec fn sw(&self) -> usize {
        self.0 as usize
    }

    open spec fn sh(&self) -> usize {
        self.1 as usize
    }

    fn width(&self) -> (r: usize) {
        self.0 as usize
    }

    fn height(&self) -> (r: usize) {
        self.1 as usize
    }
}

impl Size2d for [usize; 2] {
    open spec fn sw(&self) -> usize {
        self@[0]
    }

    open spec fn sh(&self) -> usize {
        self@[1]
    }

    fn width(&self) -> (r: usize) {
        self[0]
    }

    fn height(&self) -> (r: usize) {
        self[1]
    }
}

impl Size2d for (usize, usize) {
    open spec fn sw(&self) -> usize {
        self.0
    }

    open spec fn sh(&self) -> usize {
        self.1
    }

    fn width(&self) -> (r: usize) {
        self.0
    }

    fn height(&self) -> (r: usize) {
        self.1
    }
}

/// Whether every neighbour of `(x, y)` fits in `i32` coordinates.
pub open spec fn in_interior(x: int, y: int) -> bool {
    i32::MIN < x < i32::MAX && i32::MIN < y < i32::MAX
}

/// The first `n` neighbours of `p`, in direction-table order.
pub open spec fn adj_seq(p: GridPos, n: nat) -> Seq<GridPos> {
    Seq::new(
        n,
        |k: int| GridPos { x: (p.x + dir_table()[k].0) as i32, y: (p.y + dir_table()[k].1) as i32 },
    )
}

/// The four orthogonal neighbours of a point, in order: above, below, left,
/// right.
pub proof fn lemma_adj_4_neighbours(p: GridPos)
    requires
        in_interior(p.x as int, p.y as int),
    ensures
        adj_seq(p, 4) == seq![
            GridPos { x: p.x, y: (p.y + 1) as i32 },
            GridPos { x: p.x, y: (p.y - 1) as i32 },
            GridPos { x: (p.x - 1) as i32, y: p.y },
            GridPos { x: (p.x + 1) as i32, y: p.y },
        ],
{
    assert(adj_seq(p, 4) =~= seq![
        GridPos { x: p.x, y: (p.y + 1) as i32 },
        GridPos { x: p.x, y: (p.y - 1) as i32 },
        GridPos { x: (p.x - 1) as i32, y: p.y },
        GridPos { x: (p.x + 1) as i32, y: p.y },
    ]);
}

/// The eight neighbours of a point: the four orthogonal ones in their order,
/// then up-left, up-right, down-left, down-right.
pub proof fn lemma_adj_8_neighbours(p: GridPos)
    requires
        in_interior(p.x as int, p.y as int),
    ensures
        adj_seq(p, 8) == adj_seq(p, 4) + seq![
            GridPos { x: (p.x - 1) as i32, y: (p.y + 1) as i32 },
            GridPos { x: (p.x + 1) as i32, y: (p.y + 1) as i32 },
            GridPos { x: (p.x - 1) as i32, y: (p.y - 1) as i32 },
            GridPos { x: (p.x + 1) as i32, y: (p.y - 1) as i32 },
        ],
{
    assert(adj_seq(p, 8) =~= adj_seq(p, 4) + seq![
        GridPos { x: (p.x - 1) as i32, y: (p.y + 1) as i32 },
        GridPos { x: (p.x + 1) as i32, y: (p.y + 1) as i32 },
        GridPos { x: (p.x - 1) as i32, y: (p.y - 1) as i32 },
        GridPos { x: (p.x + 1) as i32, y: (p.y - 1) as i32 },
    ]);
}

/// Iterator over the points adjacent to an origin, one per entry of the
/// direction table, in table order.
pub struct AdjIterator {
    i: usize,
    p: GridPos,
    n: usize,
}

impl AdjIterator {
    /// The table holds four or eight directions, the cursor is within it,
    /// and every neighbour of the origin has `i32` coordinates.
    pub closed spec fn wf(&self) -> bool {
        &&& (self.n == 4 || self.n == 8)
        &&& self.i <= self.n
        &&& in_interior(self.p.x as int, self.p.y as int)
    }

    /// The points that the iterator has yet to produce.
    pub closed spec fn remaining(&self) -> Seq<GridPos> {
        adj_seq(self.p, self.n as nat).skip(self.i as int)
    }

    /// The next adjacent point, or none once every one has been produced.
    pub fn next(&mut self) -> (r: Option<GridPos>)
        requires
            old(self).wf(),
        ensures
            final(self).wf(),
            old(self).remaining().len() > 0 ==> r == Some(old(self).remaining()[0])
                && final(self).remaining() == old(self).remaining().drop_first(),
            old(self).remaining().len() == 0 ==> r.is_none() && final(self).remaining().len()
                == 0,
    {
        if self.i >= self.n {
            return None;
        }
        let d = match GridCompassOctant::from_index(self.i) {
            Some(d) => d,
            None => {
                return None;
            },
        };
        let o = d.to_offset();
        let q = GridPos { x: self.p.x + o.x, y: self.p.y + o.y };
        proof {
            let k = self.i as int;
            assert(adj_seq(self.p, self.n as nat)[k] == q);
        }
        self.i = self.i + 1;
        proof {
            assert(self.remaining() =~= old(self).remaining().drop_first());
        }
        Some(q)
    }
}

} // verus!
