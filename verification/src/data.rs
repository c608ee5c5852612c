//! Plain geometric data: axis-aligned rectangles in integer
//! device-independent units, and the single-use liveness wrapper.

use vstd::prelude::*;

verus! {

/// An axis-aligned rectangle. `x`, `y` is the top-left corner; `w`, `h`
/// are the width and height, which are never negative in a well-formed
/// value.
#[derive(Clone, Copy, Debug, PartialEq, Eq, Structural)]
pub struct Rectangle {
    pub x: i64,
    pub y: i64,
    pub w: i64,
    pub h: i64,
}

impl Rectangle {
    /// Dimensions are non-negative and both far edges are representable,
    /// so edge arithmetic never overflows.
    pub open spec fn well_formed(self) -> bool {
        &&& 0 <= self.w
        &&& 0 <= self.h
        &&& self.x + self.w <= i64::MAX
        &&& self.y + self.h <= i64::MAX
    }

    /// All four corners of `rect` lie within (inclusive) this rectangle's
    /// bounds.
    pub open spec fn spec_contains(self, rect: Rectangle) -> bool {
        &&& rect.x >= self.x
        &&& rect.x + rect.w <= self.x + self.w
        &&& rect.y >= self.y
        &&& rect.y + rect.h <= self.y + self.h
    }

    /// The projections of the two rectangles overlap strictly on both
    /// axes; touching edges do not count.
    pub open spec fn spec_overlaps(self, other: Rectangle) -> bool {
        &&& self.x < other.x + other.w
        &&& self.x + self.w > other.x
        &&& self.y < other.y + other.h
        &&& self.y + self.h > other.y
    }

    /// One axis of the clamping rule of `move_inside`: if the min edge is
    /// left of the parent's min edge, snap to the parent's min edge; else
    /// if the max edge is at or past the parent's max edge, snap so the
    /// max edges coincide; else leave the position unchanged. The `>=` in
    /// the max-edge test is deliberate boundary policy: a child exactly
    /// flush with the parent's max edge takes the snap branch.
    pub open spec fn clamp_axis(pos: int, len: int, parent_pos: int, parent_len: int) -> int {
        if pos < parent_pos {
            parent_pos
        } else if pos + len >= parent_pos + parent_len {
            parent_pos + parent_len - len
        } else {
            pos
        }
    }

    /// The smallest translation of `self` that keeps it fully inside
    /// `parent`, preserving the size; `None` exactly when `self` is too
    /// wide or too tall to fit.
    pub fn move_inside(self, parent: Rectangle) -> (r: Option<Rectangle>)
        requires
            self.well_formed(),
            parent.well_formed(),
        ensures
            r is None <==> (self.w > parent.w || self.h > parent.h),
            r matches Some(res) ==> {
                &&& res.w == self.w
                &&& res.h == self.h
                &&& res.x == Self::clamp_axis(self.x as int, self.w as int, parent.x as int, parent.w as int)
                &&& res.y == Self::clamp_axis(self.y as int, self.h as int, parent.y as int, parent.h as int)
                &&& parent.spec_contains(res)
                &&& res.well_formed()
            },
    {
        if self.w > parent.w || self.h > parent.h {
            return None;
        }

        Some(Rectangle {
            w: self.w,
            h: self.h,
            x: if self.x < parent.x {
                parent.x
            } else if self.x + self.w >= parent.x + parent.w {
                parent.x + parent.w - self.w
            } else {
                self.x
            },
            y: if self.y < parent.y {
                parent.y
            } else if self.y + self.h >= parent.y + parent.h {
                parent.y + parent.h - self.h
            } else {
                self.y
            },
        })
    }

    /// Whether all four corners of `rect` lie within (inclusive) this
    /// rectangle's bounds.
    pub fn contains(&self, rect: Rectangle) -> (r: bool)
        requires
            self.well_formed(),
            rect.well_formed(),
        ensures
            r == self.spec_contains(rect),
    {
        let xmin = rect.x;
        let xmax = xmin + rect.w;
        let ymin = rect.y;
        let ymax = ymin + rect.h;

        xmin >= self.x && xmin <= self.x + self.w
            && xmax >= self.x && xmax <= self.x + self.w
            && ymin >= self.y && ymin <= self.y + self.h
            && ymax >= self.y && ymax <= self.y + self.h
    }

    /// Separating-axis overlap test; touching edges do not overlap.
    pub fn overlaps(&self, other: Rectangle) -> (r: bool)
        requires
            self.well_formed(),
            other.well_formed(),
        ensures
            r == self.spec_overlaps(other),
    {
        self.x < other.x + other.w
            && self.x + self.w > other.x
            && self.y < other.y + other.h
            && self.y + self.h > other.y
    }

    /// A rectangle with the given size and its top-left corner at the origin.
    pub fn with_size(w: i64, h: i64) -> (r: Rectangle)
        requires
            0 <= w,
            0 <= h,
        ensures
            r == (Rectangle { x: 0, y: 0, w: w, h: h }),
            r.well_formed(),
    {
        Rectangle { x: 0, y: 0, w, h }
    }

    /// A copy of this rectangle translated so that its centroid is at the
    /// given point. Halves round toward zero, as integer division does.
    pub fn center_at(self, center: (i64, i64)) -> (r: Rectangle)
        requires
            self.well_formed(),
            i64::MIN <= center.0 - self.w / 2,
            center.0 - self.w / 2 + self.w <= i64::MAX,
            i64::MIN <= center.1 - self.h / 2,
            center.1 - self.h / 2 + self.h <= i64::MAX,
        ensures
            r.x == center.0 - self.w / 2,
            r.y == center.1 - self.h / 2,
            r.w == self.w,
            r.h == self.h,
            r.well_formed(),
    {
        Rectangle { x: center.0 - self.w / 2, y: center.1 - self.h / 2, ..self }
    }

    /// The centroid of the rectangle.
    pub fn center(self) -> (c: (i64, i64))
        requires
            self.well_formed(),
        ensures
            c.0 == self.x + self.w / 2,
            c.1 == self.y + self.h / 2,
    {
        let x = self.x + self.w / 2;
        let y = self.y + self.h / 2;
        (x, y)
    }

    /// The rectangle in device coordinates: integer position, unsigned
    /// size. Negative dimensions are a programming error, ruled out by
    /// the precondition, so a device rectangle always comes back.
    pub fn to_sdl(self) -> (r: Option<DeviceRect>)
        requires
            0 <= self.w,
            0 <= self.h,
            i32::MIN <= self.x <= i32::MAX,
            i32::MIN <= self.y <= i32::MAX,
            self.w <= u32::MAX,
            self.h <= u32::MAX,
        ensures
            r matches Some(d) && d == (DeviceRect {
                x: self.x as i32,
                y: self.y as i32,
                w: self.w as u32,
                h: self.h as u32,
            }),
    {
        Some(DeviceRect {
            x: self.x as i32,
            y: self.y as i32,
            w: self.w as u32,
            h: self.h as u32,
        })
    }
}

/// A rectangle in the device's own coordinate types, ready to hand to a
/// rendering backend.
#[derive(Clone, Copy, Debug, PartialEq, Eq, Structural)]
pub struct DeviceRect {
    pub x: i32,
    pub y: i32,
    pub w: u32,
    pub h: u32,
}

/// Containment is reflexive: every well-formed rectangle contains itself.
pub proof fn lemma_contains_reflexive(r: Rectangle)
    requires
        r.well_formed(),
    ensures
        r.spec_contains(r),
{
}

/// A well-formed rectangle overlaps itself exactly when it has positive
/// area on both axes.
pub proof fn lemma_overlaps_self(r: Rectangle)
    requires
        r.well_formed(),
    ensures
        r.spec_overlaps(r) <==> (r.w > 0 && r.h > 0),
{
}

/// Overlap is symmetric.
pub proof fn lemma_overlaps_symmetric(a: Rectangle, b: Rectangle)
    ensures
        a.spec_overlaps(b) == b.spec_overlaps(a),
{
}

/// The `>=` boundary policy of `move_inside`: a child exactly flush with
/// the parent's right edge takes the snap branch, whose result coincides
/// with the child's own position.
pub proof fn lemma_flush_right_edge_snaps(child: Rectangle, parent: Rectangle)
    requires
        child.well_formed(),
        parent.well_formed(),
        child.x + child.w == parent.x + parent.w,
        child.x >= parent.x,
    ensures
        Rectangle::clamp_axis(
            child.x as int,
            child.w as int,
            parent.x as int,
            parent.w as int,
        ) == parent.x + parent.w - child.w,
{
}

/// Distance between two coordinates.
pub open spec fn dist(a: int, b: int) -> int {
    if a >= b {
        a - b
    } else {
        b - a
    }
}

/// The repositioning of `move_inside` is the smallest translation that
/// fits: on each axis, no other placement of the same size inside the
/// parent is closer to the child's original position than the clamped
/// one.
pub proof fn lemma_move_inside_minimal(child: Rectangle, parent: Rectangle, other: Rectangle)
    requires
        child.well_formed(),
        parent.well_formed(),
        child.w <= parent.w,
        child.h <= parent.h,
        other.w == child.w,
        other.h == child.h,
        parent.spec_contains(other),
    ensures
        dist(
            Rectangle::clamp_axis(child.x as int, child.w as int, parent.x as int, parent.w as int),
            child.x as int,
        ) <= dist(other.x as int, child.x as int),
        dist(
            Rectangle::clamp_axis(child.y as int, child.h as int, parent.y as int, parent.h as int),
            child.y as int,
        ) <= dist(other.y as int, child.y as int),
{
}

/// A value paired with a one-frame liveness decision: entity update logic
/// marks itself dead instead of removing itself from a shared collection.
pub struct MaybeAlive<T> {
    pub alive: bool,
    pub value: T,
}

impl<T> MaybeAlive<T> {
    /// Consumes the wrapper: the value if it is still alive, nothing
    /// otherwise.
    pub fn as_option(self) -> (r: Option<T>)
        ensures
            self.alive ==> r == Some(self.value),
            !self.alive ==> r is None,
    {
        if self.alive {
            Some(self.value)
        } else {
            None
        }
    }
}

} // verus!
