//! Scalar screen values and the geometry built from them.
//!
//! Coordinates are whole pixels held in `i64`. A percentage is a whole number
//! on a 0-100 scale (values outside that range are allowed) and scales a
//! reference length with the quotient rounded toward zero.
use vstd::prelude::*;

verus! {

/// True when `v` can be held in an `i64`.
pub open spec fn in_i64(v: int) -> bool {
    i64::MIN <= v <= i64::MAX
}

/// `reference * percent / 100`, rounded toward zero.
pub open spec fn percent_of(reference: int, percent: int) -> int {
    let n = reference * percent;
    if n >= 0 {
        n / 100
    } else {
        -((-n) / 100)
    }
}

/// Computes `percent_of` exactly, in a type wide enough for any pair of `i64`s.
fn scale_percent(reference: i64, percent: i64) -> (r: i128)
    ensures
        r as int == percent_of(reference as int, percent as int),
        -0x2000_0000_0000_0000_0000_0000_0000_0000 <= r <= 0x2000_0000_0000_0000_0000_0000_0000_0000,
{
    let a: i128 = reference as i128;
    let b: i128 = percent as i128;
    assert(-0x4000_0000_0000_0000_0000_0000_0000_0000 <= a * b <= 0x4000_0000_0000_0000_0000_0000_0000_0000)
        by (nonlinear_arith)
        requires
            -0x8000_0000_0000_0000 <= a <= 0x8000_0000_0000_0000,
            -0x8000_0000_0000_0000 <= b <= 0x8000_0000_0000_0000,
    {
        if a >= 0 {
            if b >= 0 {
                assert(a * b <= 0x8000_0000_0000_0000 * b);
            } else {
                assert(a * (-b) <= 0x8000_0000_0000_0000 * (-b));
            }
        } else {
            if b >= 0 {
                assert((-a) * b <= 0x8000_0000_0000_0000 * b);
            } else {
                assert((-a) * (-b) <= 0x8000_0000_0000_0000 * (-b));
            }
        }
    }
    let n: i128 = a * b;
    if n >= 0 {
        n / 100
    } else {
        let m: i128 = -n;
        -(m / 100)
    }
}

/// Narrows a value whose range has already been checked.
fn narrow(v: i128) -> (r: i64)
    requires
        in_i64(v as int),
    ensures
        r as int == v as int,
{
    v as i64
}

/// A length or offset: absolute pixels, or a percentage of a reference length
/// supplied when the value is resolved.
#[derive(Clone, Copy, Debug, PartialEq, Eq, Structural)]
pub enum ScreenVal {
    Pixel(i64),
    Percent(i64),
}

impl ScreenVal {
    /// The value as an extent (a width, a height, an inset): pixels are taken
    /// as they are, a percentage scales `reference`.
    pub open spec fn extent_spec(self, reference: int) -> int {
        match self {
            ScreenVal::Pixel(v) => v as int,
            ScreenVal::Percent(p) => percent_of(reference, p as int),
        }
    }

    /// The value as an offset from `origin` along an axis of length `reference`.
    pub open spec fn offset_spec(self, reference: int, origin: int) -> int {
        origin + self.extent_spec(reference)
    }

    /// The extent computed without narrowing.
    pub(crate) fn extent_wide(&self, reference: i64) -> (r: i128)
        ensures
            r as int == self.extent_spec(reference as int),
            -0x2000_0000_0000_0000_0000_0000_0000_0000 <= r <= 0x2000_0000_0000_0000_0000_0000_0000_0000,
    {
        match self {
            ScreenVal::Pixel(v) => *v as i128,
            ScreenVal::Percent(p) => scale_percent(reference, *p),
        }
    }

    /// Resolves the value as an extent against `reference`.
    pub fn extent(&self, reference: i64) -> (r: i64)
        requires
            in_i64(self.extent_spec(reference as int)),
        ensures
            r as int == self.extent_spec(reference as int),
    {
        narrow(self.extent_wide(reference))
    }

    /// Resolves the value as an offset from `origin` along an axis of length
    /// `reference`.
    pub fn offset(&self, reference: i64, origin: i64) -> (r: i64)
        requires
            in_i64(self.offset_spec(reference as int, origin as int)),
        ensures
            r as int == self.offset_spec(reference as int, origin as int),
    {
        narrow(origin as i128 + self.extent_wide(reference))
    }
}

impl Default for ScreenVal {
    /// The whole of the reference length.
    fn default() -> (r: Self)
        ensures
            r == ScreenVal::Percent(100),
    {
        ScreenVal::Percent(100)
    }
}

/// An axis-aligned rectangle: its origin corner and its extent, in pixels.
#[derive(Clone, Copy, Debug, PartialEq, Eq, Structural)]
pub struct Rect {
    pub x: i64,
    pub y: i64,
    pub width: i64,
    pub height: i64,
}

impl Rect {
    pub fn new(x: i64, y: i64, width: i64, height: i64) -> (r: Rect)
        ensures
            r == (Rect { x, y, width, height }),
    {
        Rect { x, y, width, height }
    }

    /// The rectangle's four numbers, origin first.
    pub open spec fn model(self) -> (int, int, int, int) {
        (self.x as int, self.y as int, self.width as int, self.height as int)
    }
}

/// True when every number of `b` can be held in an `i64`.
pub open spec fn bounds_fit(b: (int, int, int, int)) -> bool {
    in_i64(b.0) && in_i64(b.1) && in_i64(b.2) && in_i64(b.3)
}

/// The rectangle with the numbers of `b`, each narrowed to `i64`.
pub open spec fn rect_of(b: (int, int, int, int)) -> Rect {
    Rect { x: b.0 as i64, y: b.1 as i64, width: b.2 as i64, height: b.3 as i64 }
}

/// A point in pixels.
#[derive(Clone, Copy, Debug, PartialEq, Eq, Structural)]
pub struct Point {
    pub x: i64,
    pub y: i64,
}

/// An offset from a parent rectangle's origin, per axis.
#[derive(Clone, Copy, Debug, PartialEq, Eq, Structural)]
pub struct Position {
    pub x: ScreenVal,
    pub y: ScreenVal,
}

impl Position {
    pub fn new(x: ScreenVal, y: ScreenVal) -> (r: Self)
        ensures
            r == (Position { x, y }),
    {
        Position { x, y }
    }

    /// The parent's origin.
    pub fn zero() -> (r: Self)
        ensures
            r == (Position { x: ScreenVal::Pixel(0), y: ScreenVal::Pixel(0) }),
    {
        Position { x: ScreenVal::Pixel(0), y: ScreenVal::Pixel(0) }
    }

    /// The absolute point: x against the parent's width and left edge, y
    /// against its height and bottom edge.
    pub open spec fn to_px_spec(self, parent: Rect) -> (int, int) {
        (
            self.x.offset_spec(parent.width as int, parent.x as int),
            self.y.offset_spec(parent.height as int, parent.y as int),
        )
    }

    pub open spec fn fits(self, parent: Rect) -> bool {
        in_i64(self.to_px_spec(parent).0) && in_i64(self.to_px_spec(parent).1)
    }

    pub fn to_px(&self, parent: &Rect) -> (r: Point)
        requires
            self.fits(*parent),
        ensures
            r.x as int == self.to_px_spec(*parent).0,
            r.y as int == self.to_px_spec(*parent).1,
    {
        Point {
            x: self.x.offset(parent.width, parent.x),
            y: self.y.offset(parent.height, parent.y),
        }
    }
}

impl Default for Position {
    /// The parent's origin.
    fn default() -> (r: Self)
        ensures
            r == (Position { x: ScreenVal::Pixel(0), y: ScreenVal::Pixel(0) }),
    {
        Position::zero()
    }
}

/// An extent, each axis resolved against the parent's length on that axis.
#[derive(Clone, Copy, Debug, PartialEq, Eq, Structural)]
pub struct Size {
    pub width: ScreenVal,
    pub height: ScreenVal,
}

impl Size {
    pub fn new(width: ScreenVal, height: ScreenVal) -> (r: Self)
        ensures
            r == (Size { width, height }),
    {
        Size { width, height }
    }

    pub open spec fn to_px_spec(self, parent: Rect) -> (int, int) {
        (self.width.extent_spec(parent.width as int), self.height.extent_spec(parent.height as int))
    }

    pub open spec fn fits(self, parent: Rect) -> bool {
        in_i64(self.to_px_spec(parent).0) && in_i64(self.to_px_spec(parent).1)
    }

    pub fn to_px(&self, parent: &Rect) -> (r: Point)
        requires
            self.fits(*parent),
        ensures
            r.x as int == self.to_px_spec(*parent).0,
            r.y as int == self.to_px_spec(*parent).1,
    {
        Point { x: self.width.extent(parent.width), y: self.height.extent(parent.height) }
    }
}

impl Default for Size {
    /// The whole parent on both axes.
    fn default() -> (r: Self)
        ensures
            r == (Size { width: ScreenVal::Percent(100), height: ScreenVal::Percent(100) }),
    {
        Size { width: ScreenVal::default(), height: ScreenVal::default() }
    }
}

/// Insets from the four sides of a parent rectangle: top and bottom against
/// its height, left and right against its width.
#[derive(Clone, Copy, Debug, PartialEq, Eq, Structural)]
pub struct Margin {
    pub top: ScreenVal,
    pub right: ScreenVal,
    pub bottom: ScreenVal,
    pub left: ScreenVal,
}

impl Margin {
    pub fn new(top: ScreenVal, right: ScreenVal, bottom: ScreenVal, left: ScreenVal) -> (r: Self)
        ensures
            r == (Margin { top, right, bottom, left }),
    {
        Margin { top, right, bottom, left }
    }

    /// The parent shrunk by the insets. The origin moves by the left and
    /// bottom insets; an extent may come out negative when the insets exceed
    /// the parent, and is left so.
    pub open spec fn bounds(self, parent: Rect) -> (int, int, int, int) {
        let w = parent.width as int;
        let h = parent.height as int;
        let left = self.left.extent_spec(w);
        let right = self.right.extent_spec(w);
        let top = self.top.extent_spec(h);
        let bottom = self.bottom.extent_spec(h);
        (parent.x + left, parent.y + bottom, w - left - right, h - top - bottom)
    }

    pub open spec fn fits(self, parent: Rect) -> bool {
        bounds_fit(self.bounds(parent))
    }

    pub fn to_rect(&self, parent: &Rect) -> (r: Rect)
        requires
            self.fits(*parent),
        ensures
            r.model() == self.bounds(*parent),
    {
        let left = self.left.extent_wide(parent.width);
        let right = self.right.extent_wide(parent.width);
        let top = self.top.extent_wide(parent.height);
        let bottom = self.bottom.extent_wide(parent.height);
        Rect {
            x: narrow(parent.x as i128 + left),
            y: narrow(parent.y as i128 + bottom),
            width: narrow(parent.width as i128 - left - right),
            height: narrow(parent.height as i128 - top - bottom),
        }
    }
}

impl Default for Margin {
    /// The whole parent inset on every side.
    fn default() -> (r: Self)
        ensures
            r == (Margin {
                top: ScreenVal::Percent(100),
                right: ScreenVal::Percent(100),
                bottom: ScreenVal::Percent(100),
                left: ScreenVal::Percent(100),
            }),
    {
        Margin {
            top: ScreenVal::default(),
            right: ScreenVal::default(),
            bottom: ScreenVal::default(),
            left: ScreenVal::default(),
        }
    }
}

} // verus!
