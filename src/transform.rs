//! How a view's rectangle is derived from its parent's.
use vstd::prelude::*;
use crate::geometry::{bounds_fit, in_i64, rect_of, Margin, Position, Rect, ScreenVal, Size};

verus! {

#[derive(Clone, Copy, Debug, PartialEq, Eq, Structural)]
pub enum Transform {
    /// The parent's origin moved by `position`, with extent `size`.
    Relative { position: Position, size: Size },
    /// The parent shrunk by the margin on each side.
    Margin(Margin),
}

impl Transform {
    /// The resolved rectangle's numbers, before narrowing.
    pub open spec fn bounds(self, parent: Rect) -> (int, int, int, int) {
        match self {
            Transform::Relative { position, size } => {
                let p = position.to_px_spec(parent);
                let s = size.to_px_spec(parent);
                (p.0, p.1, s.0, s.1)
            },
            Transform::Margin(margin) => margin.bounds(parent),
        }
    }

    /// True when the resolved rectangle can be held in a `Rect`.
    pub open spec fn fits(self, parent: Rect) -> bool {
        bounds_fit(self.bounds(parent))
    }

    /// The rectangle this transform gives inside `parent`.
    pub open spec fn rect_spec(self, parent: Rect) -> Rect {
        rect_of(self.bounds(parent))
    }

    /// Resolves the transform against `parent`. The result depends on the
    /// transform and the parent alone.
    pub fn get_rect(&self, parent: &Rect) -> (r: Rect)
        requires
            self.fits(*parent),
        ensures
            r == self.rect_spec(*parent),
            r.model() == self.bounds(*parent),
    {
        match self {
            Transform::Relative { position, size } => {
                let p = position.to_px(parent);
                let s = size.to_px(parent);
                Rect::new(p.x, p.y, s.x, s.y)
            },
            Transform::Margin(margin) => margin.to_rect(parent),
        }
    }

    /// Tells whether `get_rect` can resolve this transform against `parent`.
    pub fn fits_in(&self, parent: &Rect) -> (r: bool)
        ensures
            r == self.fits(*parent),
    {
        let b = self.bounds_wide(parent);
        fits_i64(b.0) && fits_i64(b.1) && fits_i64(b.2) && fits_i64(b.3)
    }

    fn bounds_wide(&self, parent: &Rect) -> (r: (i128, i128, i128, i128))
        ensures
            r.0 as int == self.bounds(*parent).0,
            r.1 as int == self.bounds(*parent).1,
            r.2 as int == self.bounds(*parent).2,
            r.3 as int == self.bounds(*parent).3,
    {
        match self {
            Transform::Relative { position, size } => (
                offset_wide(&position.x, parent.width, parent.x),
                offset_wide(&position.y, parent.height, parent.y),
                size.width.extent_wide(parent.width),
                size.height.extent_wide(parent.height),
            ),
            Transform::Margin(m) => {
                let left = m.left.extent_wide(parent.width);
                let right = m.right.extent_wide(parent.width);
                let top = m.top.extent_wide(parent.height);
                let bottom = m.bottom.extent_wide(parent.height);
                (
                    parent.x as i128 + left,
                    parent.y as i128 + bottom,
                    parent.width as i128 - left - right,
                    parent.height as i128 - top - bottom,
                )
            },
        }
    }
}

impl Transform {
    /// At the parent's origin, with zero size.
    pub open spec fn default_spec() -> Transform {
        Transform::Relative {
            position: Position { x: ScreenVal::Pixel(0), y: ScreenVal::Pixel(0) },
            size: Size { width: ScreenVal::Pixel(0), height: ScreenVal::Pixel(0) },
        }
    }
}

impl Default for Transform {
    fn default() -> (r: Self)
        ensures
            r == Transform::default_spec(),
    {
        Transform::Relative {
            position: Position::zero(),
            size: Size::new(ScreenVal::Pixel(0), ScreenVal::Pixel(0)),
        }
    }
}

fn fits_i64(v: i128) -> (r: bool)
    ensures
        r == in_i64(v as int),
{
    -0x8000_0000_0000_0000 <= v && v <= 0x7fff_ffff_ffff_ffff
}

fn offset_wide(v: &ScreenVal, reference: i64, origin: i64) -> (r: i128)
    ensures
        r as int == v.offset_spec(reference as int, origin as int),
{
    origin as i128 + v.extent_wide(reference)
}

} // verus!
