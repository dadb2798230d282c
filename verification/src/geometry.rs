//! Points, sizes and rectangles in whole pixels.

use vstd::prelude::*;

verus! {

#[derive(Debug, Clone, Copy, PartialEq, Eq, Structural)]
pub struct Point {
    pub x: i32,
    pub y: i32,
}

#[derive(Debug, Clone, Copy, PartialEq, Eq, Structural)]
pub struct Size {
    pub w: i32,
    pub h: i32,
}

#[derive(Debug, Clone, Copy, PartialEq, Eq, Structural)]
pub struct Rectangle {
    pub loc: Point,
    pub size: Size,
}

impl From<(i32, i32)> for Point {
    fn from(pair: (i32, i32)) -> (r: Self) {
        Point { x: pair.0, y: pair.1 }
    }
}

impl vstd::std_specs::convert::FromSpecImpl<(i32, i32)> for Point {
    open spec fn obeys_from_spec() -> bool {
        true
    }

    open spec fn from_spec(pair: (i32, i32)) -> Self {
        Point { x: pair.0, y: pair.1 }
    }
}

impl From<(i32, i32)> for Size {
    fn from(pair: (i32, i32)) -> (r: Self) {
        Size { w: pair.0, h: pair.1 }
    }
}

impl vstd::std_specs::convert::FromSpecImpl<(i32, i32)> for Size {
    open spec fn obeys_from_spec() -> bool {
        true
    }

    open spec fn from_spec(pair: (i32, i32)) -> Self {
        Size { w: pair.0, h: pair.1 }
    }
}

impl Size {
    /// The size holds no pixel.
    pub open spec fn empty(self) -> bool {
        self.w <= 0 || self.h <= 0
    }

    /// Whether the size holds no pixel.
    pub fn is_empty(&self) -> (r: bool)
        ensures
            r == self.empty(),
    {
        self.w <= 0 || self.h <= 0
    }
}

impl Rectangle {
    pub fn new(loc: Point, size: Size) -> (r: Self)
        ensures
            r.loc == loc,
            r.size == size,
    {
        Rectangle { loc, size }
    }

    /// The rectangle of `size` at the origin.
    pub fn from_size(size: Size) -> (r: Self)
        ensures
            r == Rectangle::at_origin(size),
    {
        Rectangle { loc: Point { x: 0, y: 0 }, size }
    }

    pub open spec fn at_origin(size: Size) -> Self {
        Rectangle { loc: Point { x: 0, y: 0 }, size }
    }

    /// The pixel at `x`, `y` lies in the rectangle.
    pub open spec fn covers(self, x: int, y: int) -> bool {
        &&& self.loc.x <= x < self.loc.x + self.size.w
        &&& self.loc.y <= y < self.loc.y + self.size.h
    }
}

/// How an image is turned or mirrored before it is shown.
#[derive(Debug, Clone, Copy, PartialEq, Eq, Structural)]
pub enum Transform {
    Normal,
    _90,
    _180,
    _270,
    Flipped,
    Flipped90,
    Flipped180,
    Flipped270,
}

#[derive(Debug, Clone, Copy, PartialEq, Eq, Structural)]
pub struct Offset2D {
    pub x: i32,
    pub y: i32,
}

#[derive(Debug, Clone, Copy, PartialEq, Eq, Structural)]
pub struct Extent2D {
    pub width: u32,
    pub height: u32,
}

/// A rectangle of device pixels.
#[derive(Debug, Clone, Copy, PartialEq, Eq, Structural)]
pub struct Rect2D {
    pub offset: Offset2D,
    pub extent: Extent2D,
}

impl Rect2D {
    /// The pixel at `x`, `y` lies in the rectangle.
    pub open spec fn covers(self, x: int, y: int) -> bool {
        &&& self.offset.x <= x < self.offset.x + self.extent.width
        &&& self.offset.y <= y < self.offset.y + self.extent.height
    }

    /// How many of `areas` cover the pixel at `x`, `y`.
    pub open spec fn times(areas: Seq<Rect2D>, x: int, y: int) -> nat
        decreases areas.len(),
    {
        if areas.len() == 0 {
            0
        } else {
            Self::times(areas.drop_last(), x, y) + areas.last().once(x, y)
        }
    }

    /// One if the rectangle covers the pixel at `x`, `y`, else zero.
    pub open spec fn once(self, x: int, y: int) -> nat {
        if self.covers(x, y) {
            1
        } else {
            0
        }
    }

    /// The rectangle holds at least one pixel.
    pub open spec fn nonempty(self) -> bool {
        self.extent.width > 0 && self.extent.height > 0
    }

    /// Both rectangles are drawn on a common pixel.
    pub open spec fn overlaps(self, other: Rect2D) -> bool {
        &&& self.offset.x < other.offset.x + other.extent.width
        &&& other.offset.x < self.offset.x + self.extent.width
        &&& self.offset.y < other.offset.y + other.extent.height
        &&& other.offset.y < self.offset.y + self.extent.height
    }
}

#[derive(Debug, Clone, Copy, PartialEq, Eq, Structural)]
pub struct Offset3D {
    pub x: i32,
    pub y: i32,
    pub z: i32,
}

#[derive(Debug, Clone, Copy, PartialEq, Eq, Structural)]
pub struct Extent3D {
    pub width: u32,
    pub height: u32,
    pub depth: u32,
}

/// Pairs are read in the order across, then down.
pub proof fn law_pairs_go_across_and_then_down(
    pair: (i32, i32),
    point: Point,
    size: Size,
    rectangle: Rectangle,
    at_origin: Rectangle,
)
    requires
        call_ensures(<Point as From<(i32, i32)>>::from, (pair,), point),
        call_ensures(<Size as From<(i32, i32)>>::from, (pair,), size),
        call_ensures(Rectangle::new, (point, size), rectangle),
        call_ensures(Rectangle::from_size, (size,), at_origin),
    ensures
        point.x == pair.0 && point.y == pair.1,
        size.w == pair.0 && size.h == pair.1,
        rectangle.loc == point && rectangle.size == size,
        at_origin.loc.x == 0 && at_origin.loc.y == 0 && at_origin.size == size,
{
}

/// A size is empty exactly if no pixel lies in a rectangle of that size, wherever it is.
pub proof fn law_empty_sizes_hold_no_pixel(size: Size, loc: Point, x: int, y: int, r: bool)
    requires
        call_ensures(Size::is_empty, (&size,), r),
    ensures
        r ==> !(loc.x <= x < loc.x + size.w && loc.y <= y < loc.y + size.h),
        !r ==> loc.x < loc.x + size.w && loc.y < loc.y + size.h,
        r <==> !(size.w >= 1 && size.h >= 1),
{
}

} // verus!
