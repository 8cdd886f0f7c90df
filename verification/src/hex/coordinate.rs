//! Axial cell coordinates and the transforms that act on them.
use vstd::prelude::*;
use crate::base::misc::Axes3D;

verus! {

/// Axial coordinate of one hex cell. The third cube coordinate is `-q - r`.
#[derive(PartialEq, Eq, Structural, Copy, Clone, Hash, Debug)]
pub struct Axial {
    /// Column coordinate.
    pub q: i32,
    /// Row coordinate.
    pub r: i32,
}

/// A rigid motion of the cell lattice: an optional mirroring across the `q`
/// axis, then a rotation by `rotation` steps of 60 degrees, then a translation.
#[derive(PartialEq, Eq, Structural, Copy, Clone, Hash, Debug)]
pub struct Transform {
    /// Added to the coordinate after mirroring and rotation.
    pub translation: Axial,
    /// Number of 60 degree steps, taken modulo 6; negative values turn the other way.
    pub rotation: i32,
    /// Whether the coordinate is mirrored before it is rotated.
    pub mirror: bool,
}

/// Absolute value of an integer.
pub open spec fn abs_int(x: int) -> int {
    if x < 0 { -x } else { x }
}

/// The cube metric: the number of cell-to-cell steps that separate two cells
/// whose coordinates differ by `(dq, dr)`.
pub open spec fn cell_distance(dq: int, dr: int) -> int {
    (abs_int(dq) + abs_int(dr) + abs_int(dq + dr)) / 2
}

/// True when the displacement `(dq, dr)` runs along one of the six
/// cell-to-cell axes, that is when its angle is a multiple of 60 degrees.
pub open spec fn lies_on_axis(dq: int, dr: int) -> bool {
    dq == 0 || dr == 0 || dq + dr == 0
}

/// The 60 degree sector that holds the displacement `(dq, dr)`. The angle is
/// measured from the `+q` axis towards the `+r` axis; sector `k` spans the
/// angles from `60k` degrees (included) to `60k + 60` degrees (excluded).
pub open spec fn direction_sector(dq: int, dr: int) -> int {
    if dq > 0 && dr >= 0 {
        0
    } else if dq <= 0 && dq + dr > 0 {
        1
    } else if dr > 0 && dq + dr <= 0 {
        2
    } else if dq < 0 && dr <= 0 {
        3
    } else if dq >= 0 && dq + dr < 0 {
        4
    } else {
        5
    }
}

/// The coordinate `(q, r)` turned about the origin by `k` steps of 60 degrees,
/// for `k` in `0..6`.
pub open spec fn turned(q: int, r: int, k: int) -> (int, int) {
    if k == 0 {
        (q, r)
    } else if k == 1 {
        (-r, q + r)
    } else if k == 2 {
        (-q - r, q)
    } else if k == 3 {
        (-q, -r)
    } else if k == 4 {
        (r, -q - r)
    } else {
        (q + r, -q)
    }
}

/// The coordinate `(q, r)` turned about the origin by `steps` steps of 60
/// degrees; any integer is a valid number of steps.
pub open spec fn rotated(q: int, r: int, steps: int) -> (int, int) {
    turned(q, r, steps % 6)
}

/// The coordinate `(q, r)` mirrored across a cube axis through the origin:
/// the coordinate of that axis stays, the other two trade places.
pub open spec fn reflected(q: int, r: int, axis: Axes3D) -> (int, int) {
    match axis {
        Axes3D::X => (q, -q - r),
        Axes3D::Y => (-q - r, r),
        Axes3D::Z => (r, q),
    }
}

/// The image of `(q, r)` under `t`: mirrored if `t` says so, then rotated, then translated.
pub open spec fn transformed(q: int, r: int, t: Transform) -> (int, int) {
    let m = if t.mirror { reflected(q, r, Axes3D::X) } else { (q, r) };
    let p = rotated(m.0, m.1, t.rotation as int);
    (p.0 + t.translation.q, p.1 + t.translation.r)
}

/// True when both components lie in the range of `i32`.
pub open spec fn fits_i32(p: (int, int)) -> bool {
    i32::MIN <= p.0 <= i32::MAX && i32::MIN <= p.1 <= i32::MAX
}

/// The rotation of the transform that does `first` and then `second`, in `0..6`.
pub open spec fn composed_rotation(first: Transform, second: Transform) -> int {
    if second.mirror {
        (second.rotation - first.rotation) % 6
    } else {
        (second.rotation + first.rotation) % 6
    }
}

fn abs_i64(x: i64) -> (a: i64)
    requires
        x > i64::MIN,
    ensures
        a == abs_int(x as int),
{
    if x < 0 { -x } else { x }
}

fn steps_mod_six(steps: i64) -> (k: u8)
    requires
        -4294967296 <= steps <= 4294967296,
    ensures
        k as int == (steps as int) % 6,
{
    let lifted: i64 = steps + 4294967298;
    (lifted % 6) as u8
}

fn narrow(q: i64, r: i64) -> (c: Axial)
    requires
        fits_i32((q as int, r as int)),
    ensures
        c.q == q,
        c.r == r,
{
    Axial { q: q as i32, r: r as i32 }
}

fn rotate_wide(q: i64, r: i64, k: u8) -> (p: (i64, i64))
    requires
        -4294967296 <= q <= 4294967296,
        -4294967296 <= r <= 4294967296,
        k < 6,
    ensures
        (p.0 as int, p.1 as int) == turned(q as int, r as int, k as int),
        (p.0 as int, p.1 as int) == rotated(q as int, r as int, k as int),
{
    if k == 0 {
        (q, r)
    } else if k == 1 {
        (-r, q + r)
    } else if k == 2 {
        (-q - r, q)
    } else if k == 3 {
        (-q, -r)
    } else if k == 4 {
        (r, -q - r)
    } else {
        (q + r, -q)
    }
}

impl Transform {
    /// The transform that leaves every coordinate where it is.
    pub fn identity() -> (t: Transform)
        ensures
            t == (Transform { translation: Axial { q: 0, r: 0 }, rotation: 0, mirror: false }),
            forall|q: int, r: int| #[trigger] transformed(q, r, t) == (q, r),
    {
        Transform { translation: Axial { q: 0, r: 0 }, rotation: 0, mirror: false }
    }

    /// The transform that does `self` and then `next`, as a value.
    pub open spec fn spec_then(self, next: Transform) -> Transform {
        let t = transformed(self.translation.q as int, self.translation.r as int, next);
        Transform {
            translation: Axial { q: t.0 as i32, r: t.1 as i32 },
            rotation: composed_rotation(self, next) as i32,
            mirror: self.mirror != next.mirror,
        }
    }

    /// True when the translation of `self` followed by `next` is representable.
    pub open spec fn can_precede(self, next: Transform) -> bool {
        fits_i32(transformed(self.translation.q as int, self.translation.r as int, next))
    }

    /// Composes two transforms: the result moves a coordinate as `self` and
    /// then `next` would, one after the other.
    pub fn then(&self, next: Transform) -> (t: Transform)
        requires
            self.can_precede(next),
        ensures
            t == self.spec_then(next),
            forall|q: int, r: int| #[trigger]
                transformed(q, r, t) == ({
                    let mid = transformed(q, r, *self);
                    transformed(mid.0, mid.1, next)
                }),
    {
        let translation = self.translation.apply_transform(next);
        let k1: u8 = steps_mod_six(self.rotation as i64);
        let k2: u8 = steps_mod_six(next.rotation as i64);
        let k: u8 = if next.mirror { (k2 + 6 - k1) % 6 } else { (k2 + k1) % 6 };
        proof {
            lemma_steps_mod_six(self.rotation as int, next.rotation as int);
            lemma_then_is_sequential(*self, next);
        }
        Transform { translation, rotation: k as i32, mirror: self.mirror != next.mirror }
    }
}

proof fn lemma_steps_mod_six(a: int, b: int)
    ensures
        (b % 6 + 6 - a % 6) % 6 == (b - a) % 6,
        (b % 6 + a % 6) % 6 == (b + a) % 6,
{
}

proof fn lemma_turns_add(q: int, r: int, j: int, k: int)
    requires
        0 <= j < 6,
        0 <= k < 6,
    ensures
        ({
            let p = turned(q, r, j);
            turned(p.0, p.1, k) == turned(q, r, (j + k) % 6)
        }),
{
    if j == 0 {
    } else if j == 1 {
    } else if j == 2 {
    } else if j == 3 {
    } else if j == 4 {
    } else {
    }
}

proof fn lemma_turn_is_linear(q: int, r: int, tq: int, tr: int, k: int)
    requires
        0 <= k < 6,
    ensures
        ({
            let whole = turned(q + tq, r + tr, k);
            let left = turned(q, r, k);
            let right = turned(tq, tr, k);
            whole == (left.0 + right.0, left.1 + right.1)
        }),
{
}

proof fn lemma_mirror_of_turn(q: int, r: int, k: int)
    requires
        0 <= k < 6,
    ensures
        ({
            let p = turned(q, r, k);
            let m = reflected(q, r, Axes3D::X);
            reflected(p.0, p.1, Axes3D::X) == turned(m.0, m.1, (6 - k) % 6)
        }),
{
}

/// Composition agrees with sequential application: moving a coordinate by
/// `first.spec_then(second)` gives what moving it by `first` and then by
/// `second` gives.
pub proof fn lemma_then_is_sequential(first: Transform, second: Transform)
    requires
        first.can_precede(second),
    ensures
        forall|q: int, r: int| #[trigger]
            transformed(q, r, first.spec_then(second)) == ({
                let mid = transformed(q, r, first);
                transformed(mid.0, mid.1, second)
            }),
{
    let t = first.spec_then(second);
    let k1 = (first.rotation as int) % 6;
    let k2 = (second.rotation as int) % 6;
    let kc = composed_rotation(first, second);
    assert(t.rotation as int == kc);
    assert(kc % 6 == kc);
    assert(kc == if second.mirror { (k2 + (6 - k1) % 6) % 6 } else { (k2 + k1) % 6 });
    assert forall|q: int, r: int| #[trigger]
        transformed(q, r, t) == ({
            let mid = transformed(q, r, first);
            transformed(mid.0, mid.1, second)
        }) by {
        let tq = first.translation.q as int;
        let tr = first.translation.r as int;
        let m1 = if first.mirror { reflected(q, r, Axes3D::X) } else { (q, r) };
        let p1 = turned(m1.0, m1.1, k1);
        let shift = if second.mirror { reflected(tq, tr, Axes3D::X) } else { (tq, tr) };
        let body = if second.mirror { reflected(p1.0, p1.1, Axes3D::X) } else { p1 };
        lemma_turn_is_linear(body.0, body.1, shift.0, shift.1, k2);
        if second.mirror {
            lemma_mirror_of_turn(m1.0, m1.1, k1);
            let mm = reflected(m1.0, m1.1, Axes3D::X);
            lemma_turns_add(mm.0, mm.1, (6 - k1) % 6, k2);
        } else {
            lemma_turns_add(m1.0, m1.1, k1, k2);
        }
    }
}

impl Axial {
    /// The number of cell-to-cell steps between `self` and `b`, as a value.
    pub open spec fn spec_distance(self, b: Axial) -> int {
        cell_distance(self.q - b.q, self.r - b.r)
    }

    /// The image of `self` under `t`, as a pair of unbounded integers.
    pub open spec fn spec_apply_transform(self, t: Transform) -> (int, int) {
        transformed(self.q as int, self.r as int, t)
    }

    /// True when the image of `self` under `t` is representable.
    pub open spec fn transform_fits(self, t: Transform) -> bool {
        fits_i32(self.spec_apply_transform(t))
    }

    /// The implied third cube coordinate, `-q - r`.
    pub fn compute_s(&self) -> (s: i64)
        ensures
            s == -(self.q as int) - (self.r as int),
    {
        -(self.q as i64) - (self.r as i64)
    }

    /// Hex-grid distance between two cells: `(|dq| + |dr| + |dq + dr|) / 2`.
    pub fn distance(&self, b: Axial) -> (d: i32)
        requires
            self.spec_distance(b) <= i32::MAX,
        ensures
            d == self.spec_distance(b),
            d >= 0,
    {
        let dq: i64 = self.q as i64 - b.q as i64;
        let dr: i64 = self.r as i64 - b.r as i64;
        let total: i64 = abs_i64(dq) + abs_i64(dr) + abs_i64(dq + dr);
        (total / 2) as i32
    }

    /// The sector, in `0..6`, of the direction from `self` to `b`.
    pub fn sector_towards(&self, b: Axial) -> (s: usize)
        ensures
            s == direction_sector(b.q - self.q, b.r - self.r),
            s < 6,
    {
        let dq: i64 = b.q as i64 - self.q as i64;
        let dr: i64 = b.r as i64 - self.r as i64;
        if dq > 0 && dr >= 0 {
            0
        } else if dq <= 0 && dq + dr > 0 {
            1
        } else if dr > 0 {
            2
        } else if dq < 0 {
            3
        } else if dq + dr < 0 {
            4
        } else {
            5
        }
    }

    /// Whether the direction from `self` to `b` follows a cell-to-cell axis.
    pub fn is_axis_aligned(&self, b: Axial) -> (on: bool)
        ensures
            on == lies_on_axis(b.q - self.q, b.r - self.r),
    {
        let dq: i64 = b.q as i64 - self.q as i64;
        let dr: i64 = b.r as i64 - self.r as i64;
        dq == 0 || dr == 0 || dq + dr == 0
    }

    /// Turns `self` about the origin by `steps` steps of 60 degrees.
    pub fn rotate(&self, steps: i32) -> (c: Axial)
        requires
            fits_i32(rotated(self.q as int, self.r as int, steps as int)),
        ensures
            (c.q as int, c.r as int) == rotated(self.q as int, self.r as int, steps as int),
    {
        let k: u8 = steps_mod_six(steps as i64);
        let p = rotate_wide(self.q as i64, self.r as i64, k);
        narrow(p.0, p.1)
    }

    /// Mirrors `self` across the given cube axis through the origin.
    pub fn reflect(&self, axis: Axes3D) -> (c: Axial)
        requires
            fits_i32(reflected(self.q as int, self.r as int, axis)),
        ensures
            (c.q as int, c.r as int) == reflected(self.q as int, self.r as int, axis),
    {
        let q: i64 = self.q as i64;
        let r: i64 = self.r as i64;
        match axis {
            Axes3D::X => narrow(q, -q - r),
            Axes3D::Y => narrow(-q - r, r),
            Axes3D::Z => narrow(r, q),
        }
    }

    /// Applies `t` to `self` when the image is representable.
    pub fn checked_apply_transform(&self, t: Transform) -> (res: Option<Axial>)
        ensures
            res.is_some() == self.transform_fits(t),
            res matches Some(c) ==> (c.q as int, c.r as int) == self.spec_apply_transform(t),
    {
        let q: i64 = self.q as i64;
        let r: i64 = self.r as i64;
        let m: (i64, i64) = if t.mirror { (q, -q - r) } else { (q, r) };
        let k: u8 = steps_mod_six(t.rotation as i64);
        let p = rotate_wide(m.0, m.1, k);
        let nq: i64 = p.0 + t.translation.q as i64;
        let nr: i64 = p.1 + t.translation.r as i64;
        if -2147483648 <= nq && nq <= 2147483647 && -2147483648 <= nr && nr <= 2147483647 {
            Some(narrow(nq, nr))
        } else {
            None
        }
    }

    /// Mirrors, rotates and translates `self` as `t` says.
    pub fn apply_transform(&self, t: Transform) -> (c: Axial)
        requires
            self.transform_fits(t),
        ensures
            (c.q as int, c.r as int) == self.spec_apply_transform(t),
    {
        match self.checked_apply_transform(t) {
            Some(c) => c,
            None => *self,
        }
    }
}

/// A cell is at distance zero from itself.
pub proof fn lemma_distance_to_self(a: Axial)
    ensures
        a.spec_distance(a) == 0,
{
}

/// Distance does not depend on the order of its two cells.
pub proof fn lemma_distance_symmetric(a: Axial, b: Axial)
    ensures
        a.spec_distance(b) == b.spec_distance(a),
{
}

/// Going through a third cell is never shorter than going directly.
pub proof fn lemma_distance_triangle(a: Axial, b: Axial, c: Axial)
    ensures
        a.spec_distance(c) <= a.spec_distance(b) + b.spec_distance(c),
{
}

/// Distance is never negative, and it is zero only between a cell and itself.
pub proof fn lemma_distance_zero_iff_same(a: Axial, b: Axial)
    ensures
        a.spec_distance(b) >= 0,
        a.spec_distance(b) == 0 <==> a == b,
{
}

/// A transform never sends two coordinates to the same place.
pub proof fn lemma_transform_injective(t: Transform, q1: int, r1: int, q2: int, r2: int)
    requires
        transformed(q1, r1, t) == transformed(q2, r2, t),
    ensures
        q1 == q2,
        r1 == r2,
{
}

/// Six steps of 60 degrees bring every coordinate back, and turns add up.
pub proof fn lemma_rotations_add(q: int, r: int, j: int, k: int)
    ensures
        rotated(q, r, 6) == (q, r),
        ({
            let p = rotated(q, r, j);
            rotated(p.0, p.1, k) == rotated(q, r, j + k)
        }),
{
    assert((j % 6 + k % 6) % 6 == (j + k) % 6);
    lemma_turns_add(q, r, j % 6, k % 6);
}

} // verus!
