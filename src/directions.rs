//! Compass directions on a 2d grid, their indices and their unit offsets.
use vstd::prelude::*;

use crate::point::{GridPoint, GridPos};

verus! {

/// The unit offsets of the eight grid directions, in their canonical order:
/// up, down, left, right, up-left, up-right, down-left, down-right.
/// The four orthogonal directions are the first four entries. Direction
/// indices and adjacency order are both positions in this table.
pub open spec fn dir_table() -> Seq<(int, int)> {
    seq![(0, 1), (0, -1), (-1, 0), (1, 0), (-1, 1), (1, 1), (-1, -1), (1, -1)]
}

/// Whether `v` holds, as points, the first `n` entries of the direction table.
pub open spec fn is_dir_prefix(v: Seq<GridPos>, n: int) -> bool {
    &&& v.len() == n
    &&& forall|k: int|
        0 <= k < n ==> v[k].x as int == dir_table()[k].0 && v[k].y as int == dir_table()[k].1
}

/// The four orthogonal grid directions: up, down, left, right.
pub fn dir_4() -> (r: Vec<GridPos>)
    ensures
        is_dir_prefix(r@, 4),
{
    vec![GridPos { x: 0, y: 1 }, GridPos { x: 0, y: -1 }, GridPos { x: -1, y: 0 }, GridPos { x: 1, y: 0 }]
}

/// The eight adjacent grid directions: the orthogonal four, then up-left,
/// up-right, down-left, down-right.
pub fn dir_8() -> (r: Vec<GridPos>)
    ensures
        is_dir_prefix(r@, 8),
{
    vec![
        GridPos { x: 0, y: 1 },
        GridPos { x: 0, y: -1 },
        GridPos { x: -1, y: 0 },
        GridPos { x: 1, y: 0 },
        GridPos { x: -1, y: 1 },
        GridPos { x: 1, y: 1 },
        GridPos { x: -1, y: -1 },
        GridPos { x: 1, y: -1 },
    ]
}

/// The sign of an integer: -1, 0 or 1.
pub open spec fn sgn(v: int) -> int {
    if v > 0 {
        1
    } else if v < 0 {
        -1
    } else {
        0
    }
}

/// The sign of `v`: -1, 0 or 1.
pub fn signum(v: i32) -> (r: i32)
    ensures
        r as int == sgn(v as int),
{
    if v > 0 {
        1
    } else if v < 0 {
        -1
    } else {
        0
    }
}

/// Four orthogonal directions on a 2d grid.
#[derive(Clone, Copy, Debug, PartialEq, Eq, Structural)]
pub enum GridCompassQuadrant {
    Up,
    Down,
    Left,
    Right,
}

/// The index of a quadrant direction, its position in the direction table.
pub open spec fn quadrant_index(d: GridCompassQuadrant) -> int {
    match d {
        GridCompassQuadrant::Up => 0,
        GridCompassQuadrant::Down => 1,
        GridCompassQuadrant::Left => 2,
        GridCompassQuadrant::Right => 3,
    }
}

/// The unit offset of a quadrant direction.
pub open spec fn quadrant_offset(d: GridCompassQuadrant) -> (int, int) {
    dir_table()[quadrant_index(d)]
}

/// Every index below four belongs to a quadrant direction, so converting it to
/// a direction and back gives it again.
pub proof fn lemma_quadrant_index_onto(i: int)
    requires
        0 <= i < 4,
    ensures
        exists|d: GridCompassQuadrant| quadrant_index(d) == i,
{
    if i == 0 {
        assert(quadrant_index(GridCompassQuadrant::Up) == i);
    } else if i == 1 {
        assert(quadrant_index(GridCompassQuadrant::Down) == i);
    } else if i == 2 {
        assert(quadrant_index(GridCompassQuadrant::Left) == i);
    } else {
        assert(quadrant_index(GridCompassQuadrant::Right) == i);
    }
}

/// A quadrant direction's index is below four and belongs to no other
/// direction, so converting it to an index and back gives it again.
pub proof fn lemma_quadrant_index_one_to_one(d: GridCompassQuadrant, e: GridCompassQuadrant)
    ensures
        0 <= quadrant_index(d) < 4,
        quadrant_index(d) == quadrant_index(e) ==> d == e,
{
}

impl GridCompassQuadrant {
    /// The direction whose unit offset has the signs of `p`'s coordinates,
    /// or none where no quadrant direction has them (the origin, a diagonal).
    pub fn from_point<P: GridPoint>(p: P) -> (r: Option<GridCompassQuadrant>)
        ensures
            forall|d: GridCompassQuadrant|
                #![trigger quadrant_offset(d)]
                r == Some(d) <==> quadrant_offset(d) == (sgn(p.gx() as int), sgn(p.gy() as int)),
    {
        let sx = signum(p.x());
        let sy = signum(p.y());
        if sx == 0 && sy == 1 {
            Some(GridCompassQuadrant::Up)
        } else if sx == 0 && sy == -1 {
            Some(GridCompassQuadrant::Down)
        } else if sx == -1 && sy == 0 {
            Some(GridCompassQuadrant::Left)
        } else if sx == 1 && sy == 0 {
            Some(GridCompassQuadrant::Right)
        } else {
            None
        }
    }

    /// The direction with index `i`, or none where `i` is past the last one.
    pub fn from_index(i: usize) -> (r: Option<GridCompassQuadrant>)
        ensures
            match r {
                Some(d) => quadrant_index(d) == i,
                None => i >= 4,
            },
    {
        match i {
            0 => Some(GridCompassQuadrant::Up),
            1 => Some(GridCompassQuadrant::Down),
            2 => Some(GridCompassQuadrant::Left),
            3 => Some(GridCompassQuadrant::Right),
            _ => None,
        }
    }

    /// The index of this direction.
    pub fn to_index(&self) -> (r: usize)
        ensures
            r == quadrant_index(*self),
    {
        match self {
            GridCompassQuadrant::Up => 0,
            GridCompassQuadrant::Down => 1,
            GridCompassQuadrant::Left => 2,
            GridCompassQuadrant::Right => 3,
        }
    }
}

/// Eight directions on a 2d grid.
#[derive(Clone, Copy, Debug, PartialEq, Eq, Structural)]
pub enum GridCompassOctant {
    Up,
    Down,
    Left,
    Right,
    UpLeft,
    UpRight,
    DownLeft,
    DownRight,
}

/// The index of an octant direction, its position in the direction table.
pub open spec fn octant_index(d: GridCompassOctant) -> int {
    match d {
        GridCompassOctant::Up => 0,
        GridCompassOctant::Down => 1,
        GridCompassOctant::Left => 2,
        GridCompassOctant::Right => 3,
        GridCompassOctant::UpLeft => 4,
        GridCompassOctant::UpRight => 5,
        GridCompassOctant::DownLeft => 6,
        GridCompassOctant::DownRight => 7,
    }
}

/// The unit offset of an octant direction.
pub open spec fn octant_offset(d: GridCompassOctant) -> (int, int) {
    dir_table()[octant_index(d)]
}

/// Every index below eight belongs to an octant direction, so converting it to
/// a direction and back gives it again.
pub proof fn lemma_octant_index_onto(i: int)
    requires
        0 <= i < 8,
    ensures
        exists|d: GridCompassOctant| octant_index(d) == i,
{
    if i == 0 {
        assert(octant_index(GridCompassOctant::Up) == i);
    } else if i == 1 {
        assert(octant_index(GridCompassOctant::Down) == i);
    } else if i == 2 {
        assert(octant_index(GridCompassOctant::Left) == i);
    } else if i == 3 {
        assert(octant_index(GridCompassOctant::Right) == i);
    } else if i == 4 {
        assert(octant_index(GridCompassOctant::UpLeft) == i);
    } else if i == 5 {
        assert(octant_index(GridCompassOctant::UpRight) == i);
    } else if i == 6 {
        assert(octant_index(GridCompassOctant::DownLeft) == i);
    } else {
        assert(octant_index(GridCompassOctant::DownRight) == i);
    }
}

/// An octant direction's index is below eight and belongs to no other
/// direction, so converting it to an index and back gives it again.
pub proof fn lemma_octant_index_one_to_one(d: GridCompassOctant, e: GridCompassOctant)
    ensures
        0 <= octant_index(d) < 8,
        octant_index(d) == octant_index(e) ==> d == e,
{
}

impl GridCompassOctant {
    /// The direction whose unit offset has the signs of `p`'s coordinates,
    /// or none for the origin.
    pub fn from_point<P: GridPoint>(p: P) -> (r: Option<GridCompassOctant>)
        ensures
            forall|d: GridCompassOctant|
                #![trigger octant_offset(d)]
                r == Some(d) <==> octant_offset(d) == (sgn(p.gx() as int), sgn(p.gy() as int)),
    {
        let sx = signum(p.x());
        let sy = signum(p.y());
        if sx == 0 && sy == 1 {
            Some(GridCompassOctant::Up)
        } else if sx == 0 && sy == -1 {
            Some(GridCompassOctant::Down)
        } else if sx == -1 && sy == 0 {
            Some(GridCompassOctant::Left)
        } else if sx == 1 && sy == 0 {
            Some(GridCompassOctant::Right)
        } else if sx == -1 && sy == 1 {
            Some(GridCompassOctant::UpLeft)
        } else if sx == 1 && sy == 1 {
            Some(GridCompassOctant::UpRight)
        } else if sx == -1 && sy == -1 {
            Some(GridCompassOctant::DownLeft)
        } else if sx == 1 && sy == -1 {
            Some(GridCompassOctant::DownRight)
        } else {
            None
        }
    }

    /// The direction with index `i`, or none where `i` is past the last one.
    pub fn from_index(i: usize) -> (r: Option<GridCompassOctant>)
        ensures
            match r {
                Some(d) => octant_index(d) == i,
                None => i >= 8,
            },
    {
        match i {
            0 => Some(GridCompassOctant::Up),
            1 => Some(GridCompassOctant::Down),
            2 => Some(GridCompassOctant::Left),
            3 => Some(GridCompassOctant::Right),
            4 => Some(GridCompassOctant::UpLeft),
            5 => Some(GridCompassOctant::UpRight),
            6 => Some(GridCompassOctant::DownLeft),
            7 => Some(GridCompassOctant::DownRight),
            _ => None,
        }
    }

    /// The index of this direction.
    pub fn to_index(&self) -> (r: usize)
        ensures
            r == octant_index(*self),
    {
        match self {
            GridCompassOctant::Up => 0,
            GridCompassOctant::Down => 1,
            GridCompassOctant::Left => 2,
            GridCompassOctant::Right => 3,
            GridCompassOctant::UpLeft => 4,
            GridCompassOctant::UpRight => 5,
            GridCompassOctant::DownLeft => 6,
            GridCompassOctant::DownRight => 7,
        }
    }

    /// The unit offset of this direction.
    pub fn to_offset(&self) -> (r: GridPos)
        ensures
            r.x as int == octant_offset(*self).0,
            r.y as int == octant_offset(*self).1,
    {
        match self {
            GridCompassOctant::Up => GridPos { x: 0, y: 1 },
            GridCompassOctant::Down => GridPos { x: 0, y: -1 },
            GridCompassOctant::Left => GridPos { x: -1, y: 0 },
            GridCompassOctant::Right => GridPos { x: 1, y: 0 },
            GridCompassOctant::UpLeft => GridPos { x: -1, y: 1 },
            GridCompassOctant::UpRight => GridPos { x: 1, y: 1 },
            GridCompassOctant::DownLeft => GridPos { x: -1, y: -1 },
            GridCompassOctant::DownRight => GridPos { x: 1, y: -1 },
        }
    }
}

impl GridCompassQuadrant {
    /// The unit offset of this direction.
    pub fn to_offset(&self) -> (r: GridPos)
        ensures
            r.x as int == quadrant_offset(*self).0,
            r.y as int == quadrant_offset(*self).1,
    {
        match self {
            GridCompassQuadrant::Up => GridPos { x: 0, y: 1 },
            GridCompassQuadrant::Down => GridPos { x: 0, y: -1 },
            GridCompassQuadrant::Left => GridPos { x: -1, y: 0 },
            GridCompassQuadrant::Right => GridPos { x: 1, y: 0 },
        }
    }
}

} // verus!
