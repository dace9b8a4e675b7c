//! Integer grid coordinates with componentwise arithmetic.

use vstd::prelude::*;

verus! {

/// A point on an integer grid.
#[derive(Clone, Copy, Debug, PartialEq, Eq, Hash, Structural)]
pub struct Coord {
    pub x: i32,
    pub y: i32,
}

impl Coord {
    pub fn new(x: i32, y: i32) -> (r: Coord)
        ensures
            r.x == x,
            r.y == y,
    {
        Coord { x, y }
    }
}

impl core::ops::Add for Coord {
    type Output = Coord;

    /// Componentwise sum.
    fn add(self, other: Coord) -> Coord {
        Coord { x: self.x + other.x, y: self.y + other.y }
    }
}

impl vstd::std_specs::ops::AddSpecImpl for Coord {
    open spec fn obeys_add_spec() -> bool {
        true
    }

    open spec fn add_req(self, other: Coord) -> bool {
        i32::MIN <= self.x + other.x <= i32::MAX
            && i32::MIN <= self.y + other.y <= i32::MAX
    }

    open spec fn add_spec(self, other: Coord) -> Coord {
        Coord { x: (self.x + other.x) as i32, y: (self.y + other.y) as i32 }
    }
}

impl core::ops::Sub for Coord {
    type Output = Coord;

    /// Componentwise difference.
    fn sub(self, other: Coord) -> Coord {
        Coord { x: self.x - other.x, y: self.y - other.y }
    }
}

impl vstd::std_specs::ops::SubSpecImpl for Coord {
    open spec fn obeys_sub_spec() -> bool {
        true
    }

    open spec fn sub_req(self, other: Coord) -> bool {
        i32::MIN <= self.x - other.x <= i32::MAX
            && i32::MIN <= self.y - other.y <= i32::MAX
    }

    open spec fn sub_spec(self, other: Coord) -> Coord {
        Coord { x: (self.x - other.x) as i32, y: (self.y - other.y) as i32 }
    }
}

impl core::ops::Mul for Coord {
    type Output = Coord;

    /// Componentwise product.
    fn mul(self, other: Coord) -> Coord {
        Coord { x: self.x * other.x, y: self.y * other.y }
    }
}

impl vstd::std_specs::ops::MulSpecImpl for Coord {
    open spec fn obeys_mul_spec() -> bool {
        true
    }

    open spec fn mul_req(self, other: Coord) -> bool {
        i32::MIN <= self.x * other.x <= i32::MAX
            && i32::MIN <= self.y * other.y <= i32::MAX
    }

    open spec fn mul_spec(self, other: Coord) -> Coord {
        Coord { x: (self.x * other.x) as i32, y: (self.y * other.y) as i32 }
    }
}

impl core::ops::Div for Coord {
    type Output = Coord;

    /// Componentwise quotient, truncated toward zero.
    fn div(self, other: Coord) -> Coord {
        Coord { x: self.x / other.x, y: self.y / other.y }
    }
}

impl vstd::std_specs::ops::DivSpecImpl for Coord {
    open spec fn obeys_div_spec() -> bool {
        true
    }

    open spec fn div_req(self, other: Coord) -> bool {
        &&& other.x != 0
        &&& other.y != 0
        &&& !(self.x == i32::MIN && other.x == -1)
        &&& !(self.y == i32::MIN && other.y == -1)
    }

    open spec fn div_spec(self, other: Coord) -> Coord {
        Coord {
            x: crate::geom::div_trunc(self.x as int, other.x as int) as i32,
            y: crate::geom::div_trunc(self.y as int, other.y as int) as i32,
        }
    }
}

} // verus!
