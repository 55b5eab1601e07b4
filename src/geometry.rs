use vstd::prelude::*;

verus! {

/// A point or extent on the display surface, in character cells.
#[derive(Debug, Clone, Copy, PartialEq, Eq, Structural)]
pub struct Vec2 {
    pub x: u16,
    pub y: u16,
}

impl Vec2 {
    pub fn new(x: u16, y: u16) -> (r: Self)
        ensures
            r.x == x,
            r.y == y,
    {
        Vec2 { x, y }
    }

    pub fn empty() -> (r: Self)
        ensures
            r.x == 0,
            r.y == 0,
    {
        Vec2::new(0, 0)
    }

    /// The horizontal component alone.
    pub fn x(&self) -> (r: Self)
        ensures
            r.x == self.x,
            r.y == 0,
    {
        Vec2::new(self.x, 0)
    }

    /// The vertical component alone.
    pub fn y(&self) -> (r: Self)
        ensures
            r.x == 0,
            r.y == self.y,
    {
        Vec2::new(0, self.y)
    }

    /// Component-wise sum.
    pub fn add(self, other: Vec2) -> (r: Vec2)
        requires
            self.x + other.x <= u16::MAX,
            self.y + other.y <= u16::MAX,
        ensures
            r.x == self.x + other.x,
            r.y == self.y + other.y,
    {
        Vec2::new(self.x + other.x, self.y + other.y)
    }

    /// Component-wise difference.
    pub fn sub(self, other: Vec2) -> (r: Vec2)
        requires
            self.x >= other.x,
            self.y >= other.y,
        ensures
            r.x == self.x - other.x,
            r.y == self.y - other.y,
    {
        Vec2::new(self.x - other.x, self.y - other.y)
    }

    /// Both components scaled by `k`.
    pub fn mul(self, k: u16) -> (r: Vec2)
        requires
            self.x * k <= u16::MAX,
            self.y * k <= u16::MAX,
        ensures
            r.x == self.x * k,
            r.y == self.y * k,
    {
        Vec2::new(self.x * k, self.y * k)
    }

    /// Both components divided by `k`, rounding down.
    pub fn div(self, k: u16) -> (r: Vec2)
        requires
            k > 0,
        ensures
            r.x == self.x / k,
            r.y == self.y / k,
    {
        Vec2::new(self.x / k, self.y / k)
    }
}

} // verus!
