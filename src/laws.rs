//! Facts about layout resolution that hold for every input.
use vstd::prelude::*;
use crate::geometry::{percent_of, Position, Rect, ScreenVal, Size};
use crate::transform::Transform;
use crate::view::{Primitive, View};

verus! {

broadcast use vstd::std_specs::vec::group_vec_axioms;

/// A pixel offset on the x axis resolves to the parent's left edge plus the
/// offset, whatever the parent's size.
pub proof fn pixel_x_offset(v: i64, y: ScreenVal, parent: Rect)
    ensures
        (Position { x: ScreenVal::Pixel(v), y }).to_px_spec(parent).0 == parent.x + v,
{
}

/// A percentage width is that share of the parent's width: nothing at 0 %,
/// the parent's width exactly at 100 %, and exactly `width * p / 100`
/// whenever that quotient is whole.
pub proof fn percent_width(p: i64, height: ScreenVal, parent: Rect)
    ensures
        (Size { width: ScreenVal::Percent(p), height }).to_px_spec(parent).0 == percent_of(
            parent.width as int,
            p as int,
        ),
        p == 0 ==> (Size { width: ScreenVal::Percent(p), height }).to_px_spec(parent).0 == 0,
        p == 100 ==> (Size { width: ScreenVal::Percent(p), height }).to_px_spec(parent).0
            == parent.width,
        (parent.width * p) % 100 == 0 ==> (Size { width: ScreenVal::Percent(p), height }).to_px_spec(
            parent,
        ).0 * 100 == parent.width * p,
{
    let w = parent.width as int;
    let n = w * p;
    if p == 0 {
        assert(n == 0) by (nonlinear_arith)
            requires
                n == w * p,
                p == 0,
        ;
    }
    if p == 100 {
        assert(n == w * 100);
        if n >= 0 {
            assert((w * 100) / 100 == w) by (nonlinear_arith);
        } else {
            assert(-n == (-w) * 100) by (nonlinear_arith)
                requires
                    n == w * 100,
            ;
            assert(((-w) * 100) / 100 == -w) by (nonlinear_arith);
        }
    }
    if n % 100 == 0 {
        if n >= 0 {
            assert((n / 100) * 100 == n) by (nonlinear_arith)
                requires
                    n % 100 == 0,
            ;
        } else {
            assert((-n) % 100 == 0) by (nonlinear_arith)
                requires
                    n % 100 == 0,
            ;
            assert(((-n) / 100) * 100 == -n) by (nonlinear_arith)
                requires
                    (-n) % 100 == 0,
            ;
        }
    }
}

/// Resolving a transform twice against the same parent gives the same
/// rectangle: `get_rect` depends on the transform and the parent alone.
pub proof fn get_rect_repeatable(t: Transform, parent: Rect, first: Rect, second: Rect)
    requires
        first == t.rect_spec(parent),
        second == t.rect_spec(parent),
    ensures
        first == second,
{
}

/// Against a parent of zero width, any percentage width resolves to zero and
/// fits, whatever the position and height.
pub proof fn zero_width_parent(p: i64, position: Position, height: ScreenVal, parent: Rect)
    requires
        parent.width == 0,
    ensures
        (Size { width: ScreenVal::Percent(p), height }).to_px_spec(parent).0 == 0,
        (Transform::Relative { position, size: Size { width: ScreenVal::Percent(p), height } }).bounds(
            parent,
        ).2 == 0,
{
    assert(0 * (p as int) == 0);
}

/// A traversal gives exactly one primitive for each view of the tree, and
/// the first is the root's own, with its resolved rectangle and its colour.
pub proof fn one_primitive_per_view(v: View, parent: Rect)
    ensures
        v.emitted(parent).len() == v.node_count(),
        v.emitted(parent)[0] == (Primitive { rect: v.transform.rect_spec(parent), color: v.color }),
    decreases v,
{
    let r = v.transform.rect_spec(parent);
    children_primitive_count(v, r, v.children.len() as nat);
}

/// The first `k` children's primitives number as many as their views.
proof fn children_primitive_count(v: View, r: Rect, k: nat)
    ensures
        v.children_emitted(r, k).len() == v.children_count(k),
    decreases v, k,
{
    if k != 0 && k <= v.children.len() {
        children_primitive_count(v, r, (k - 1) as nat);
        one_primitive_per_view(v.children[k - 1], r);
    }
}

} // verus!
