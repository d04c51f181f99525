//! Axis-aligned rectangle geometry for anchoring UI elements and hit-testing
//! pointer positions: position `(x, y)`, size `(w, h)`, and immutable-style
//! transforms that return new rectangles.

use vstd::prelude::*;

verus! {

use crate::arith::lemma_neg_div_is_neg_ceil;
use vstd::arithmetic::div_mod::{lemma_div_is_ordered, lemma_fundamental_div_mod, lemma_mod_bound};

/// An axis-aligned rectangle: position and size. Sizes are unsigned, so the
/// invariant `w >= 0, h >= 0` holds by construction.
#[derive(Clone, Copy, Debug, PartialEq, Eq, Structural)]
pub struct Bounds {
    /// Horizontal position of the left edge.
    pub x: i32,
    /// Vertical position of the top edge.
    pub y: i32,
    /// Width.
    pub w: u32,
    /// Height.
    pub h: u32,
}

/// Half of a signed size difference, rounded toward negative infinity:
/// `(c - s) / 2` in flooring (Euclidean) division. The result always fits in
/// an `i32`.
fn half_diff(c: u32, s: u32) -> (r: i64)
    ensures
        r == (c - s) / 2,
        i32::MIN <= r <= i32::MAX,
{
    if c >= s {
        let d: u32 = c - s;
        proof {
            lemma_div_is_ordered(d as int, 0xffffffff, 2);
        }
        (d / 2) as i64
    } else {
        let d: u32 = s - c;
        proof {
            lemma_neg_div_is_neg_ceil(d as int, 2);
            lemma_div_is_ordered((d + 1) as int, 0x100000000, 2);
        }
        let q: u32 = (d - 1) / 2 + 1;
        -(q as i64)
    }
}

impl Bounds {
    /// True iff the point lies inside the rectangle, edges half-open: the
    /// left and top edges are contained, the right and bottom edges are not.
    pub open spec fn spec_contains(self, px: int, py: int) -> bool {
        &&& self.x <= px < self.x + self.w
        &&& self.y <= py < self.y + self.h
    }

    /// A rectangle of the given size at the origin.
    pub fn with_size(w: u32, h: u32) -> (r: Bounds)
        ensures
            r == (Bounds { x: 0, y: 0, w, h }),
    {
        Bounds { x: 0, y: 0, w, h }
    }

    /// A rectangle of this rectangle's size, centered within `container`:
    /// each position is the container's position plus half the size
    /// difference, halving rounded toward negative infinity.
    ///
    /// Law: the centering is exact up to the one unit that integer halving
    /// can lose — twice the result's center differs from twice the
    /// container's center exactly by the parity of the size difference.
    pub fn anchor_center(&self, container: &Bounds) -> (r: Bounds)
        requires
            i32::MIN <= container.x + (container.w - self.w) / 2 <= i32::MAX,
            i32::MIN <= container.y + (container.h - self.h) / 2 <= i32::MAX,
        ensures
            r.x == container.x + (container.w - self.w) / 2,
            r.y == container.y + (container.h - self.h) / 2,
            r.w == self.w,
            r.h == self.h,
            2 * r.x + r.w == 2 * container.x + container.w - ((container.w - self.w) % 2),
            2 * r.y + r.h == 2 * container.y + container.h - ((container.h - self.h) % 2),
            0 <= (container.w - self.w) % 2 <= 1,
            0 <= (container.h - self.h) % 2 <= 1,
    {
        proof {
            lemma_fundamental_div_mod(container.w - self.w, 2);
            lemma_mod_bound(container.w - self.w, 2);
            lemma_fundamental_div_mod(container.h - self.h, 2);
            lemma_mod_bound(container.h - self.h, 2);
        }
        let ox: i64 = half_diff(container.w, self.w);
        let oy: i64 = half_diff(container.h, self.h);
        let x: i64 = container.x as i64 + ox;
        let y: i64 = container.y as i64 + oy;
        Bounds { x: x as i32, y: y as i32, w: self.w, h: self.h }
    }

    /// The same rectangle shifted horizontally by `dx`.
    pub fn translate_x(&self, dx: i32) -> (r: Bounds)
        requires
            i32::MIN <= self.x + dx <= i32::MAX,
        ensures
            r == (Bounds { x: (self.x + dx) as i32, ..*self }),
    {
        let x: i64 = self.x as i64 + dx as i64;
        Bounds { x: x as i32, ..*self }
    }

    /// The same rectangle shifted vertically by `dy`.
    pub fn translate_y(&self, dy: i32) -> (r: Bounds)
        requires
            i32::MIN <= self.y + dy <= i32::MAX,
        ensures
            r == (Bounds { y: (self.y + dy) as i32, ..*self }),
    {
        let y: i64 = self.y as i64 + dy as i64;
        Bounds { y: y as i32, ..*self }
    }

    /// The rectangle shrunk by `n` from its left edge: the position shifts
    /// right by `n` and the width loses `n`, clamped at zero.
    pub fn inset_left(&self, n: u32) -> (r: Bounds)
        requires
            self.x + n <= i32::MAX,
        ensures
            r.x == self.x + n,
            r.w == (if n <= self.w {
                self.w - n
            } else {
                0
            }),
            r.y == self.y,
            r.h == self.h,
    {
        let x: i64 = self.x as i64 + n as i64;
        let w: u32 = if n <= self.w {
            self.w - n
        } else {
            0
        };
        Bounds { x: x as i32, w, ..*self }
    }

    /// The rectangle shrunk by `n` from its top edge: the position shifts
    /// down by `n` and the height loses `n`, clamped at zero.
    pub fn inset_top(&self, n: u32) -> (r: Bounds)
        requires
            self.y + n <= i32::MAX,
        ensures
            r.y == self.y + n,
            r.h == (if n <= self.h {
                self.h - n
            } else {
                0
            }),
            r.x == self.x,
            r.w == self.w,
    {
        let y: i64 = self.y as i64 + n as i64;
        let h: u32 = if n <= self.h {
            self.h - n
        } else {
            0
        };
        Bounds { y: y as i32, h, ..*self }
    }

    /// Hit-test a point against the rectangle, edges half-open: a point at
    /// `(x, y)` is contained, a point at `(x + w, y + h)` is not.
    pub fn intersects_point(&self, px: i32, py: i32) -> (r: bool)
        ensures
            r == self.spec_contains(px as int, py as int),
    {
        self.x <= px && (px as i64) < self.x as i64 + self.w as i64 && self.y <= py && (py as i64)
            < self.y as i64 + self.h as i64
    }

    /// The stored position.
    pub fn xy(&self) -> (r: (i32, i32))
        ensures
            r == (self.x, self.y),
    {
        (self.x, self.y)
    }

    /// The stored size.
    pub fn wh(&self) -> (r: (u32, u32))
        ensures
            r == (self.w, self.h),
    {
        (self.w, self.h)
    }

    /// The stored horizontal position.
    pub fn x(&self) -> (r: i32)
        ensures
            r == self.x,
    {
        self.x
    }

    /// The stored vertical position.
    pub fn y(&self) -> (r: i32)
        ensures
            r == self.y,
    {
        self.y
    }
}

} // verus!
