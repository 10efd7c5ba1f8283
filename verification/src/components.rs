//! Colliders, markers and the exact rectangle-overlap geometry.
//!
//! All geometry works on integer world coordinates: positions, offsets and
//! extents share one fixed-point scale chosen by the host. Halving (the only
//! non-linear step of the overlap math) truncates toward zero, so on an even
//! grid the overlap centers are exact.

use vstd::prelude::*;

verus! {

/// Magnitude bound on the coordinates the geometry accepts; generous enough
/// for any fixed-point scale while keeping every intermediate sum inside
/// `i64`.
pub const COORD_LIMIT: i64 = 0x100_0000_0000_0000;

pub open spec fn in_coord_range(x: int) -> bool {
    -COORD_LIMIT <= x <= COORD_LIMIT
}

/// A plain 2D vector of integer world coordinates.
#[derive(Clone, Copy, Debug, PartialEq, Eq, Structural)]
pub struct Vector2 {
    pub x: i64,
    pub y: i64,
}

pub open spec fn vec_in_range(v: Vector2) -> bool {
    in_coord_range(v.x as int) && in_coord_range(v.y as int)
}

/// The part of the host's transform this core reads and writes: a world
/// translation and a per-axis scale. Movement writes the translation;
/// detection reads both.
#[derive(Clone, Copy, Debug, PartialEq, Eq, Structural)]
pub struct Transform2D {
    pub translation: Vector2,
    pub scale: Vector2,
}

/// `min(w, 0)`: the amount by which the overlap math shifts interval starts
/// to reinterpret a negative extent as a shifted positive one.
pub open spec fn min_zero(w: int) -> int {
    if w < 0 {
        w
    } else {
        0
    }
}

pub open spec fn abs_value(w: int) -> int {
    if w < 0 {
        -w
    } else {
        w
    }
}

/// Halving with truncation toward zero, the integer reading of `x * 0.5`.
pub open spec fn half_toward_zero(x: int) -> int {
    if x >= 0 {
        x / 2
    } else {
        -((-x) / 2)
    }
}

fn half(x: i64) -> (r: i64)
    requires
        i64::MIN < x,
    ensures
        r as int == half_toward_zero(x as int),
{
    if x >= 0 {
        ((x as u64) / 2) as i64
    } else {
        let m: i64 = -x;
        -(((m as u64) / 2) as i64)
    }
}

/// One axis of overlap between two intervals `[start, start + width]`, after
/// normalizing both widths to their absolute values. Both starts are shifted
/// by `min(width, 0)` of the *first* width only; detection preserves this
/// convention deliberately (see `overlap`'s doc comment). Touching boundaries
/// count as overlap. The result is the overlapping interval's start and width.
pub open spec fn spec_overlap(start: int, width: int, other_start: int, other_width: int) -> Option<
    (int, int),
> {
    let s1 = start - min_zero(width);
    let s2 = other_start - min_zero(width);
    let w1 = abs_value(width);
    let w2 = abs_value(other_width);
    let end1 = s1 + w1;
    let end2 = s2 + w2;
    if end1 < s2 || s1 > end2 {
        None
    } else if s1 < s2 {
        Some((s2, if end1 > end2 { w2 } else { end1 - s2 }))
    } else {
        Some((s1, if end1 < end2 { w1 } else { end2 - s1 }))
    }
}

/// The center of the one-axis overlap of two centered intervals: interval one
/// is centered at `pos` with extent `extent`, interval two likewise. `None`
/// when the intervals are disjoint.
pub open spec fn spec_overlap_center(
    pos: int,
    extent: int,
    other_pos: int,
    other_extent: int,
) -> Option<int> {
    match spec_overlap(
        pos - half_toward_zero(extent),
        extent,
        other_pos - half_toward_zero(other_extent),
        other_extent,
    ) {
        Some(ov) => Some(ov.0 + half_toward_zero(ov.1)),
        None => None,
    }
}

#[derive(Clone, Copy, Debug, PartialEq, Eq, Structural)]
struct Overlap {
    pub start: i64,
    pub width: i64,
}

/// Both interval starts are shifted by `min(width, 0)` of the first width
/// only, never by the second width's own sign. This matches the behaviour the
/// rest of the crate is specified against; with a negative second width the
/// two orders of the arguments can disagree about the center.
fn overlap(start: i64, width: i64, other_start: i64, other_width: i64) -> (r: Option<Overlap>)
    requires
        -4 * COORD_LIMIT <= start <= 4 * COORD_LIMIT,
        -4 * COORD_LIMIT <= width <= 4 * COORD_LIMIT,
        -4 * COORD_LIMIT <= other_start <= 4 * COORD_LIMIT,
        -4 * COORD_LIMIT <= other_width <= 4 * COORD_LIMIT,
    ensures
        match r {
            Some(o) => spec_overlap(start as int, width as int, other_start as int, other_width as int)
                == Some((o.start as int, o.width as int)),
            None => spec_overlap(start as int, width as int, other_start as int, other_width as int)
                is None,
        },
        r matches Some(o) ==> -8 * COORD_LIMIT <= o.start <= 8 * COORD_LIMIT && 0 <= o.width <= 4
            * COORD_LIMIT,
{
    // Widths need to be positive
    let flip: i64 = if width < 0 { width } else { 0 };
    let start: i64 = start - flip;
    let other_start: i64 = other_start - flip;
    let width: i64 = if width < 0 { -width } else { width };
    let other_width: i64 = if other_width < 0 { -other_width } else { other_width };

    let end: i64 = start + width;
    let other_end: i64 = other_start + other_width;

    if end < other_start || start > other_end {
        return None;
    }
    let ov_start: i64;
    let ov_width: i64;

    if start < other_start {
        ov_start = other_start;
        if end > other_end {
            ov_width = other_width;
        } else {
            ov_width = end - other_start;
        }
    } else {
        ov_start = start;
        if end < other_end {
            ov_width = width;
        } else {
            ov_width = other_end - start;
        }
    }
    Some(Overlap { start: ov_start, width: ov_width })
}

/// One-axis overlap center of two centered intervals; `None` when disjoint.
pub fn overlap_center(pos: i64, extent: i64, other_pos: i64, other_extent: i64) -> (r: Option<i64>)
    requires
        -2 * COORD_LIMIT <= pos <= 2 * COORD_LIMIT,
        -2 * COORD_LIMIT <= extent <= 2 * COORD_LIMIT,
        -2 * COORD_LIMIT <= other_pos <= 2 * COORD_LIMIT,
        -2 * COORD_LIMIT <= other_extent <= 2 * COORD_LIMIT,
    ensures
        match r {
            Some(c) => spec_overlap_center(
                pos as int,
                extent as int,
                other_pos as int,
                other_extent as int,
            ) == Some(c as int),
            None => spec_overlap_center(
                pos as int,
                extent as int,
                other_pos as int,
                other_extent as int,
            ) is None,
        },
        r matches Some(c) ==> -10 * COORD_LIMIT <= c <= 10 * COORD_LIMIT,
{
    let ov = overlap(
        pos - half(extent),
        extent,
        other_pos - half(other_extent),
        other_extent,
    );
    match ov {
        Some(o) => Some(o.start + half(o.width)),
        None => None,
    }
}

/// Detection is symmetric in whether a pair overlaps at all: shifting both
/// interval starts by the first width's `min(width, 0)` translates the whole
/// configuration and never changes disjointness.
pub proof fn lemma_overlap_existence_symmetric(
    pos: int,
    extent: int,
    other_pos: int,
    other_extent: int,
)
    ensures
        spec_overlap_center(pos, extent, other_pos, other_extent) is Some <==> spec_overlap_center(
            other_pos,
            other_extent,
            pos,
            extent,
        ) is Some,
{
}

/// When both extents shift interval starts by the same amount — in particular
/// whenever neither extent is negative — the overlap center itself is
/// symmetric in the two rectangles.
pub proof fn lemma_overlap_center_symmetric(
    pos: int,
    extent: int,
    other_pos: int,
    other_extent: int,
)
    requires
        min_zero(extent) == min_zero(other_extent),
    ensures
        spec_overlap_center(pos, extent, other_pos, other_extent) == spec_overlap_center(
            other_pos,
            other_extent,
            pos,
            extent,
        ),
{
}

/// Whether a pair of rectangles overlaps does not depend on which of the two
/// is tested first.
pub proof fn lemma_collision_existence_symmetric(
    first: Collider2D,
    first_pos: Vector2,
    second: Collider2D,
    second_pos: Vector2,
)
    ensures
        spec_collision(first, first_pos, second, second_pos) is Some <==> spec_collision(
            second,
            second_pos,
            first,
            first_pos,
        ) is Some,
{
    lemma_overlap_existence_symmetric(
        first_pos.x + first.offset.x,
        first.spec_width(),
        second_pos.x + second.offset.x,
        second.spec_width(),
    );
    lemma_overlap_existence_symmetric(
        first_pos.y + first.offset.y,
        first.spec_height(),
        second_pos.y + second.offset.y,
        second.spec_height(),
    );
}

/// Symmetry of detection: with nonnegative extents the overlap center of a
/// pair of colliders is the same whichever of the two is tested first. (With
/// extents of mixed sign the centers can differ, because the overlap math
/// shifts both interval starts by the first extent's `min(extent, 0)` only.)
pub proof fn lemma_collision_symmetric(
    first: Collider2D,
    first_pos: Vector2,
    second: Collider2D,
    second_pos: Vector2,
)
    requires
        first.spec_width() >= 0,
        first.spec_height() >= 0,
        second.spec_width() >= 0,
        second.spec_height() >= 0,
    ensures
        spec_collision(first, first_pos, second, second_pos) == spec_collision(
            second,
            second_pos,
            first,
            first_pos,
        ),
{
    lemma_overlap_center_symmetric(
        first_pos.x + first.offset.x,
        first.spec_width(),
        second_pos.x + second.offset.x,
        second.spec_width(),
    );
    lemma_overlap_center_symmetric(
        first_pos.y + first.offset.y,
        first.spec_height(),
        second_pos.y + second.offset.y,
        second.spec_height(),
    );
}

#[derive(Clone, Copy, Debug, PartialEq, Eq, Structural)]
pub enum Shape {
    Rectangle { width: i64, height: i64 },
}

/// A local-space axis-aligned rectangle collider: an offset from the entity's
/// translation and a centered rectangle shape. Extents may be negative; the
/// overlap math reads them by absolute value.
#[derive(Clone, Copy, Debug, PartialEq, Eq, Structural)]
pub struct Collider2D {
    pub offset: Vector2,
    pub shape: Shape,
}

pub open spec fn collider_in_range(c: Collider2D) -> bool {
    &&& vec_in_range(c.offset)
    &&& in_coord_range(c.spec_width())
    &&& in_coord_range(c.spec_height())
}

/// The world-space overlap center of two colliders, or `None` when they do
/// not overlap. Each collider's rectangle is centered at its entity's
/// position plus its own offset.
pub open spec fn spec_collision(
    this: Collider2D,
    self_pos: Vector2,
    other: Collider2D,
    other_pos: Vector2,
) -> Option<(int, int)> {
    let cx = self_pos.x + this.offset.x;
    let cy = self_pos.y + this.offset.y;
    let ox = other_pos.x + other.offset.x;
    let oy = other_pos.y + other.offset.y;
    match (
        spec_overlap_center(cx, this.spec_width(), ox, other.spec_width()),
        spec_overlap_center(cy, this.spec_height(), oy, other.spec_height()),
    ) {
        (Some(a), Some(b)) => Some((a, b)),
        _ => None,
    }
}

impl Collider2D {
    pub open spec fn spec_width(self) -> int {
        match self.shape {
            Shape::Rectangle { width, .. } => width as int,
        }
    }

    pub open spec fn spec_height(self) -> int {
        match self.shape {
            Shape::Rectangle { height, .. } => height as int,
        }
    }

    /// The collider scaled per axis: both extents and the offset multiply.
    pub open spec fn spec_scaled_by(self, x: int, y: int) -> Collider2D {
        Collider2D {
            offset: Vector2 { x: (self.offset.x * x) as i64, y: (self.offset.y * y) as i64 },
            shape: Shape::Rectangle {
                width: (self.spec_width() * x) as i64,
                height: (self.spec_height() * y) as i64,
            },
        }
    }

    pub fn rect(width: i64, height: i64, offset: Vector2) -> (r: Self)
        ensures
            r == (Collider2D { offset, shape: Shape::Rectangle { width, height } }),
    {
        Collider2D { offset, shape: Shape::Rectangle { width, height } }
    }

    pub fn rect_without_offset(width: i64, height: i64) -> (r: Self)
        ensures
            r == (Collider2D {
                offset: Vector2 { x: 0, y: 0 },
                shape: Shape::Rectangle { width, height },
            }),
    {
        Collider2D::rect(width, height, Vector2 { x: 0, y: 0 })
    }

    pub fn scaled_by(&self, x: i64, y: i64) -> (r: Collider2D)
        requires
            in_coord_range(self.spec_width() * x),
            in_coord_range(self.spec_height() * y),
            in_coord_range(self.offset.x * x),
            in_coord_range(self.offset.y * y),
        ensures
            r == self.spec_scaled_by(x as int, y as int),
            collider_in_range(r),
    {
        Collider2D::rect(
            self.width() * x,
            self.height() * y,
            Vector2 { x: self.offset.x * x, y: self.offset.y * y },
        )
    }

    pub fn width(&self) -> (r: i64)
        ensures
            r as int == self.spec_width(),
    {
        match self.shape {
            Shape::Rectangle { width, .. } => width,
        }
    }

    pub fn height(&self) -> (r: i64)
        ensures
            r as int == self.spec_height(),
    {
        match self.shape {
            Shape::Rectangle { height, .. } => height,
        }
    }

    pub fn collides_with(&self, self_pos: &Vector2, other: &Collider2D, other_pos: &Vector2) -> (r:
        bool)
        requires
            collider_in_range(*self),
            vec_in_range(*self_pos),
            collider_in_range(*other),
            vec_in_range(*other_pos),
        ensures
            r <==> spec_collision(*self, *self_pos, *other, *other_pos) is Some,
    {
        self.collision(self_pos, other, other_pos).is_some()
    }

    /// The world-space overlap center of the two colliders, when they overlap.
    pub fn collision(&self, self_pos: &Vector2, other: &Collider2D, other_pos: &Vector2) -> (r:
        Option<Vector2>)
        requires
            collider_in_range(*self),
            vec_in_range(*self_pos),
            collider_in_range(*other),
            vec_in_range(*other_pos),
        ensures
            match r {
                Some(c) => spec_collision(*self, *self_pos, *other, *other_pos) == Some(
                    (c.x as int, c.y as int),
                ),
                None => spec_collision(*self, *self_pos, *other, *other_pos) is None,
            },
            r matches Some(c) ==> -10 * COORD_LIMIT <= c.x <= 10 * COORD_LIMIT && -10 * COORD_LIMIT
                <= c.y <= 10 * COORD_LIMIT,
    {
        let coll_center_x: i64 = self_pos.x + self.offset.x;
        let coll_center_y: i64 = self_pos.y + self.offset.y;
        let other_center_x: i64 = other_pos.x + other.offset.x;
        let other_center_y: i64 = other_pos.y + other.offset.y;

        let coll_x = overlap_center(coll_center_x, self.width(), other_center_x, other.width());
        let coll_y = overlap_center(coll_center_y, self.height(), other_center_y, other.height());
        match (coll_x, coll_y) {
            (Some(cx), Some(cy)) => Some(Vector2 { x: cx, y: cy }),
            _ => None,
        }
    }

    /// The vectors from each entity's position to the overlap center: first
    /// the path of `self`'s entity, then the path of the other entity.
    pub fn collision_paths(&self, self_pos: &Vector2, other: &Collider2D, other_pos: &Vector2) -> (
        r: Option<(Vector2, Vector2)>)
        requires
            collider_in_range(*self),
            vec_in_range(*self_pos),
            collider_in_range(*other),
            vec_in_range(*other_pos),
        ensures
            r is Some <==> spec_collision(*self, *self_pos, *other, *other_pos) is Some,
            r matches Some(p) ==> spec_collision(*self, *self_pos, *other, *other_pos) matches Some(
                c,
            ) && p.0.x as int == c.0 - self_pos.x && p.0.y as int == c.1 - self_pos.y && p.1.x as int
                == c.0 - other_pos.x && p.1.y as int == c.1 - other_pos.y,
    {
        match self.collision(self_pos, other, other_pos) {
            Some(c) => Some(
                (
                    Vector2 { x: c.x - self_pos.x, y: c.y - self_pos.y },
                    Vector2 { x: c.x - other_pos.x, y: c.y - other_pos.y },
                ),
            ),
            None => None,
        }
    }
}

/// Disables collision testing for this entity entirely.
///
/// This marker has no effect if the host entity does not carry a
/// `Collider2D` as well.
#[derive(Clone, Copy, Debug, Default, PartialEq, Eq, Structural)]
pub struct DeactivateCollider;

/// Restricts collision testing for an entity.
///
/// Entities with this marker don't test for collisions themselves; they only
/// get tested by other, active colliders. That way two entities that can
/// never collide anyway — say, two static walls — are never paired.
///
/// This marker has no effect if the host entity does not carry a
/// `Collider2D` as well.
#[derive(Clone, Copy, Debug, Default, PartialEq, Eq, Structural)]
pub struct PassiveCollider;

/// Makes an entity move.
#[derive(Clone, Copy, Debug, PartialEq, Eq, Structural)]
pub struct Velocity(pub Vector2);

/// Automatically handle collisions. The way a collision is handled is
/// directed by the variant.
#[derive(Clone, Copy, Debug, PartialEq, Eq, Structural)]
pub enum HandleCollisionMode {
    /// Does not handle the collision. Use it when a collision needs custom
    /// handling elsewhere.
    Ignore,
    /// Redirect the velocity vector, with the angle of entry to the bounce
    /// surface equal to the angle of reflection.
    Reflect,
    /// Reflects, but also scales the velocity vector componentwise by the
    /// factor.
    Bounce(i64),
    /// Velocity points away from the collision partner afterwards.
    Oppose,
}

impl Default for HandleCollisionMode {
    fn default() -> (r: Self)
        ensures
            r == HandleCollisionMode::Ignore,
    {
        HandleCollisionMode::Ignore
    }
}

} // verus!
