//! Integer points, sizes and compass directions on a uniform 2d grid.
use vstd::prelude::*;

pub mod directions;
pub mod point;

verus! {

} // verus!
