//! The pointer-tracking geometry engine.
//!
//! Two eye sprites sit at fixed anchor points. On every pointer move, each
//! sprite is displaced from its anchor toward the pointer, by at most
//! [`AMPLITUDE`] pixels. The direction is chosen in two parts: the magnitude
//! of each offset component is the exact whole-pixel floor of
//! `AMPLITUDE * |d| / sqrt(dx*dx + dy*dy)` — characterized without square
//! roots as the unique `q >= 0` with
//! `q*q*s <= AMPLITUDE*AMPLITUDE*d*d < (q+1)*(q+1)*s` — and the signs come
//! from a four-way quadrant case analysis on the delta vector.
//!
//! Because the floors are exact, the displaced position lies on the
//! amplitude circle around the anchor up to one pixel of rounding per
//! component ([`lemma_offset_within_radius`], [`lemma_offset_reaches_radius`]),
//! and depends only on the delta's direction, never on its length
//! ([`lemma_offset_direction_only`]).

use vstd::prelude::*;

verus! {

/// Maximum offset, in pixels, of a sprite from its anchor.
pub const AMPLITUDE: i64 = 35;

/// Bound on the coordinates the engine accepts; generous enough for any page,
/// small enough that the squared delta length fits in an `i64`.
pub const COORD_LIMIT: i64 = 1_000_000_000;

/// A point in page space, in whole pixels.
#[derive(Clone, Copy, Debug, PartialEq, Eq, Structural)]
pub struct Point {
    pub x: i64,
    pub y: i64,
}

/// Coordinates the engine works on.
pub open spec fn coord_in_range(v: int) -> bool {
    -COORD_LIMIT <= v <= COORD_LIMIT
}

impl Point {
    /// Both coordinates are within the engine's working range.
    pub open spec fn wf(self) -> bool {
        coord_in_range(self.x as int) && coord_in_range(self.y as int)
    }
}

/// Absolute value, kept in `int`.
pub open spec fn abs_int(v: int) -> int {
    if v >= 0 {
        v
    } else {
        -v
    }
}

/// Squared length of a delta vector.
pub open spec fn delta_sq(dx: int, dy: int) -> int {
    dx * dx + dy * dy
}

/// `q` is the magnitude of one offset component for a delta component of
/// magnitude `a` and a squared delta length `s`: the exact floor of
/// `AMPLITUDE * a / sqrt(s)`, said without square roots.
pub open spec fn is_offset_mag(a: int, s: int, q: int) -> bool {
    &&& q >= 0
    &&& q * q * s <= AMPLITUDE * AMPLITUDE * (a * a)
    &&& (q + 1) * (q + 1) * s > AMPLITUDE * AMPLITUDE * (a * a)
}

/// The offset magnitude itself (uniquely characterized by
/// [`is_offset_mag`]; see [`lemma_offset_mag_exists`] and
/// [`lemma_offset_mag_unique`]).
pub open spec fn offset_mag(a: int, s: int) -> int {
    choose|q: int| is_offset_mag(a, s, q)
}

/// Climb from a known lower candidate to a witness for the offset magnitude.
proof fn lemma_offset_mag_exists_rec(a: int, s: int, k: int)
    requires
        1 <= s,
        0 <= a,
        a * a <= s,
        0 <= k <= AMPLITUDE,
        k * k * s <= AMPLITUDE * AMPLITUDE * (a * a),
    ensures
        exists|q: int| is_offset_mag(a, s, q),
    decreases AMPLITUDE - k,
{
    if (k + 1) * (k + 1) * s > AMPLITUDE * AMPLITUDE * (a * a) {
        assert(is_offset_mag(a, s, k));
    } else {
        assert(k + 1 <= AMPLITUDE) by (nonlinear_arith)
            requires
                1 <= s,
                a * a <= s,
                0 <= k,
                1 <= AMPLITUDE,
                (k + 1) * (k + 1) * s <= AMPLITUDE * AMPLITUDE * (a * a),
        ;
        lemma_offset_mag_exists_rec(a, s, k + 1);
    }
}

/// Every in-range delta component has an offset magnitude, and it never
/// exceeds the amplitude.
pub proof fn lemma_offset_mag_exists(a: int, s: int)
    requires
        1 <= s,
        0 <= a,
        a * a <= s,
    ensures
        is_offset_mag(a, s, offset_mag(a, s)),
        0 <= offset_mag(a, s) <= AMPLITUDE,
{
    assert(0 * 0 * s <= AMPLITUDE * AMPLITUDE * (a * a)) by (nonlinear_arith)
        requires
            0 <= a,
            1 <= AMPLITUDE,
    ;
    lemma_offset_mag_exists_rec(a, s, 0);
    let q = offset_mag(a, s);
    assert(is_offset_mag(a, s, q));
    assert(q <= AMPLITUDE) by (nonlinear_arith)
        requires
            1 <= s,
            a * a <= s,
            0 <= q,
            1 <= AMPLITUDE,
            q * q * s <= AMPLITUDE * AMPLITUDE * (a * a),
    ;
}

/// The offset magnitude is unique.
pub proof fn lemma_offset_mag_unique(a: int, s: int, q1: int, q2: int)
    requires
        1 <= s,
        is_offset_mag(a, s, q1),
        is_offset_mag(a, s, q2),
    ensures
        q1 == q2,
{
    if q1 < q2 {
        assert((q1 + 1) * (q1 + 1) * s <= q2 * q2 * s) by (nonlinear_arith)
            requires
                0 <= q1 + 1 <= q2,
                1 <= s,
        ;
    }
    if q2 < q1 {
        assert((q2 + 1) * (q2 + 1) * s <= q1 * q1 * s) by (nonlinear_arith)
            requires
                0 <= q2 + 1 <= q1,
                1 <= s,
        ;
    }
}

/// Compute one offset magnitude: the largest `q` with
/// `q*q*s <= AMPLITUDE*AMPLITUDE*a*a`, found by a bounded search (the
/// magnitude never exceeds the amplitude).
pub fn offset_component(a: i64, s: i64) -> (q: i64)
    requires
        0 <= a <= 2_000_000_000,
        1 <= s <= 8_000_000_000_000_000_000,
        a * a <= s,
    ensures
        is_offset_mag(a as int, s as int, q as int),
        q as int == offset_mag(a as int, s as int),
        0 <= q <= AMPLITUDE,
{
    let su: u128 = s as u128;
    let au: u128 = a as u128;
    assert(1225 * au * au <= 0x1000_0000_0000_0000_0000_0000) by (nonlinear_arith)
        requires
            0 <= au <= 2_000_000_000,
    ;
    let cap: u128 = 1225 * au * au;
    proof {
        assert(AMPLITUDE * AMPLITUDE == 1225);
        assert(cap == AMPLITUDE * AMPLITUDE * ((a as int) * (a as int))) by (nonlinear_arith)
            requires
                cap == 1225 * au * au,
                au == a as int,
                0 <= a,
    ;
    }
    let mut q: i64 = 0;
    let mut k: i64 = 1;
    proof {
        assert((0int) * (0int) * (s as int) == 0) by (nonlinear_arith);
    }
    while k <= AMPLITUDE
        invariant
            0 <= q < k <= AMPLITUDE + 1,
            0 <= a <= 2_000_000_000,
            1 <= s <= 8_000_000_000_000_000_000,
            su == s as int,
            cap == AMPLITUDE * AMPLITUDE * ((a as int) * (a as int)),
            (q as int) * (q as int) * (s as int) <= cap,
            q + 1 < k ==> ((q + 1) as int) * ((q + 1) as int) * (s as int) > cap,
        decreases AMPLITUDE + 1 - k,
    {
        let ku: u128 = k as u128;
        assert(ku * ku <= 1296) by (nonlinear_arith)
            requires
                0 <= ku <= 36,
        ;
        assert(ku * ku * su <= 0x1000_0000_0000_0000_0000_0000) by (nonlinear_arith)
            requires
                0 <= ku <= 36,
                0 <= su <= 8_000_000_000_000_000_000,
        ;
        let trial: u128 = ku * ku * su;
        proof {
            assert(trial == (k as int) * (k as int) * (s as int)) by (nonlinear_arith)
                requires
                    trial == ku * ku * su,
                    ku == k as int,
                    su == s as int,
                    0 <= k,
            ;
        }
        if trial <= cap {
            q = k;
        }
        k = k + 1;
    }
    proof {
        if q == AMPLITUDE {
            assert(((q + 1) as int) * ((q + 1) as int) * (s as int) > cap) by (nonlinear_arith)
                requires
                    1 <= s,
                    a * a <= s,
                    q == AMPLITUDE,
                    1 <= AMPLITUDE,
                    cap == AMPLITUDE * AMPLITUDE * ((a as int) * (a as int)),
            ;
        }
        assert(is_offset_mag(a as int, s as int, q as int));
        lemma_offset_mag_exists(a as int, s as int);
        lemma_offset_mag_unique(a as int, s as int, q as int, offset_mag(a as int, s as int));
    }
    q
}

/// Sign chosen for the horizontal offset, by the quadrant case table:
/// both deltas non-negative gives a positive pair, both negative a negative
/// pair, strictly-positive x with negative y a mixed pair, and every
/// remaining vector the other mixed pair.
pub open spec fn x_sign_positive(dx: int, dy: int) -> bool {
    if dx >= 0 && dy >= 0 {
        true
    } else if dx < 0 && dy < 0 {
        false
    } else if dx > 0 && dy < 0 {
        true
    } else {
        false
    }
}

/// Sign chosen for the vertical offset; see [`x_sign_positive`].
pub open spec fn y_sign_positive(dx: int, dy: int) -> bool {
    if dx >= 0 && dy >= 0 {
        true
    } else if dx < 0 && dy < 0 {
        false
    } else if dx > 0 && dy < 0 {
        false
    } else {
        true
    }
}

/// Quadrant selection is total and deterministic: every delta vector maps to
/// exactly one of the four offset-sign pairs, following the case table
/// (both components non-negative: `(+, +)`; both negative: `(-, -)`;
/// x positive with y negative: `(+, -)`; every remaining vector: `(-, +)`).
pub proof fn lemma_quadrant_total(dx: int, dy: int)
    ensures
        dx >= 0 && dy >= 0 ==> x_sign_positive(dx, dy) && y_sign_positive(dx, dy),
        dx < 0 && dy < 0 ==> !x_sign_positive(dx, dy) && !y_sign_positive(dx, dy),
        dx > 0 && dy < 0 ==> x_sign_positive(dx, dy) && !y_sign_positive(dx, dy),
        !(dx >= 0 && dy >= 0) && !(dx < 0 && dy < 0) && !(dx > 0 && dy < 0) ==> !x_sign_positive(
            dx,
            dy,
        ) && y_sign_positive(dx, dy),
{
}

/// Pick the offset signs for a delta vector.
pub fn quadrant_signs(dx: i64, dy: i64) -> (s: (bool, bool))
    ensures
        s.0 == x_sign_positive(dx as int, dy as int),
        s.1 == y_sign_positive(dx as int, dy as int),
{
    if dx >= 0 && dy >= 0 {
        (true, true)
    } else if dx < 0 && dy < 0 {
        (false, false)
    } else if dx > 0 && dy < 0 {
        (true, false)
    } else {
        (false, true)
    }
}

/// The offset vector by which a sprite is displaced from its anchor, for a
/// pointer at delta `(dx, dy)` from the anchor. A zero delta leaves the
/// sprite at its anchor (the pointer sits exactly on the eye, so there is no
/// direction to look in); otherwise each component's magnitude is the exact
/// floor of `AMPLITUDE` times that component over the delta's length, and
/// the signs come from the quadrant case table.
pub open spec fn offset_spec(dx: int, dy: int) -> (int, int) {
    if dx == 0 && dy == 0 {
        (0, 0)
    } else {
        let s = delta_sq(dx, dy);
        let ox = offset_mag(abs_int(dx), s);
        let oy = offset_mag(abs_int(dy), s);
        (
            if x_sign_positive(dx, dy) {
                ox
            } else {
                -ox
            },
            if y_sign_positive(dx, dy) {
                oy
            } else {
                -oy
            },
        )
    }
}

/// Shared setup for the offset laws: names and basic facts for the
/// magnitudes of a nonzero delta.
proof fn lemma_offset_mag_setup(dx: int, dy: int)
    requires
        !(dx == 0 && dy == 0),
    ensures
        ({
            let a = abs_int(dx);
            let b = abs_int(dy);
            let s = delta_sq(dx, dy);
            &&& s >= 1
            &&& a * a == dx * dx && b * b == dy * dy
            &&& a * a <= s && b * b <= s
            &&& s == a * a + b * b
            &&& is_offset_mag(a, s, offset_mag(a, s))
            &&& is_offset_mag(b, s, offset_mag(b, s))
            &&& 0 <= offset_mag(a, s) <= AMPLITUDE
            &&& 0 <= offset_mag(b, s) <= AMPLITUDE
        }),
{
    let a = abs_int(dx);
    let b = abs_int(dy);
    let s = delta_sq(dx, dy);
    assert(a == dx || a == -dx);
    assert(b == dy || b == -dy);
    assert(a * a == dx * dx && b * b == dy * dy) by (nonlinear_arith)
        requires
            a == dx || a == -dx,
            b == dy || b == -dy,
    ;
    assert(s >= 1 && a * a <= s && b * b <= s) by (nonlinear_arith)
        requires
            !(dx == 0 && dy == 0),
            s == dx * dx + dy * dy,
            a * a == dx * dx,
            b * b == dy * dy,
    ;
    lemma_offset_mag_exists(a, s);
    lemma_offset_mag_exists(b, s);
}

/// The displaced sprite stays within the amplitude circle: the offset for
/// any delta vector satisfies `ox * ox + oy * oy <= AMPLITUDE * AMPLITUDE`,
/// and each component is at most `AMPLITUDE` in magnitude.
pub proof fn lemma_offset_within_radius(dx: int, dy: int)
    ensures
        ({
            let (ox, oy) = offset_spec(dx, dy);
            &&& ox * ox + oy * oy <= AMPLITUDE * AMPLITUDE
            &&& -AMPLITUDE <= ox <= AMPLITUDE
            &&& -AMPLITUDE <= oy <= AMPLITUDE
        }),
{
    if dx == 0 && dy == 0 {
    } else {
        lemma_offset_mag_setup(dx, dy);
        let a = abs_int(dx);
        let b = abs_int(dy);
        let s = delta_sq(dx, dy);
        let q1 = offset_mag(a, s);
        let q2 = offset_mag(b, s);
        assert(q1 * q1 + q2 * q2 <= AMPLITUDE * AMPLITUDE) by (nonlinear_arith)
            requires
                1 <= s,
                s == a * a + b * b,
                0 <= q1,
                0 <= q2,
                q1 * q1 * s <= AMPLITUDE * AMPLITUDE * (a * a),
                q2 * q2 * s <= AMPLITUDE * AMPLITUDE * (b * b),
        ;
        let (ox, oy) = offset_spec(dx, dy);
        assert(ox == q1 || ox == -q1);
        assert(oy == q2 || oy == -q2);
        assert(ox * ox == q1 * q1 && oy * oy == q2 * q2) by (nonlinear_arith)
            requires
                ox == q1 || ox == -q1,
                oy == q2 || oy == -q2,
        ;
    }
}

/// The displaced sprite reaches the amplitude circle up to one pixel of
/// rounding per component: for every nonzero delta,
/// `(|ox| + 1)^2 + (|oy| + 1)^2 > AMPLITUDE^2`. Together with
/// [`lemma_offset_within_radius`] this puts the integer displacement on the
/// circle within whole-pixel rounding; exact equality with the amplitude
/// holds only in real arithmetic.
pub proof fn lemma_offset_reaches_radius(dx: int, dy: int)
    requires
        !(dx == 0 && dy == 0),
    ensures
        ({
            let (ox, oy) = offset_spec(dx, dy);
            (abs_int(ox) + 1) * (abs_int(ox) + 1) + (abs_int(oy) + 1) * (abs_int(oy) + 1)
                > AMPLITUDE * AMPLITUDE
        }),
{
    lemma_offset_mag_setup(dx, dy);
    let a = abs_int(dx);
    let b = abs_int(dy);
    let s = delta_sq(dx, dy);
    let q1 = offset_mag(a, s);
    let q2 = offset_mag(b, s);
    assert((q1 + 1) * (q1 + 1) + (q2 + 1) * (q2 + 1) > AMPLITUDE * AMPLITUDE) by (nonlinear_arith)
        requires
            1 <= s,
            s == a * a + b * b,
            (q1 + 1) * (q1 + 1) * s > AMPLITUDE * AMPLITUDE * (a * a),
            (q2 + 1) * (q2 + 1) * s > AMPLITUDE * AMPLITUDE * (b * b),
    ;
    let (ox, oy) = offset_spec(dx, dy);
    assert(ox == q1 || ox == -q1);
    assert(oy == q2 || oy == -q2);
    assert(abs_int(ox) == q1 && abs_int(oy) == q2);
}

/// The displacement depends only on the delta's direction, never on its
/// length: scaling a nonzero delta by any positive factor leaves the offset
/// unchanged.
pub proof fn lemma_offset_direction_only(dx: int, dy: int, k: int)
    requires
        k >= 1,
        !(dx == 0 && dy == 0),
    ensures
        offset_spec(k * dx, k * dy).0 == offset_spec(dx, dy).0,
        offset_spec(k * dx, k * dy).1 == offset_spec(dx, dy).1,
{
    let a = abs_int(dx);
    let b = abs_int(dy);
    let s = delta_sq(dx, dy);
    lemma_offset_mag_setup(dx, dy);
    assert(!(k * dx == 0 && k * dy == 0)) by (nonlinear_arith)
        requires
            k >= 1,
            !(dx == 0 && dy == 0),
    ;
    lemma_offset_mag_setup(k * dx, k * dy);
    let ka = abs_int(k * dx);
    let kb = abs_int(k * dy);
    let ks = delta_sq(k * dx, k * dy);
    assert(ka == k * a && kb == k * b) by (nonlinear_arith)
        requires
            k >= 1,
            a == dx || a == -dx,
            b == dy || b == -dy,
            ka == k * dx || ka == -(k * dx),
            kb == k * dy || kb == -(k * dy),
            ka >= 0,
            kb >= 0,
            a >= 0,
            b >= 0,
    ;
    assert(ks == k * k * s) by (nonlinear_arith)
        requires
            ks == (k * dx) * (k * dx) + (k * dy) * (k * dy),
            s == dx * dx + dy * dy,
    ;
    // the scaled magnitudes satisfy the same characterization
    let q1 = offset_mag(a, s);
    let q2 = offset_mag(b, s);
    assert(is_offset_mag(ka, ks, q1)) by (nonlinear_arith)
        requires
            k >= 1,
            1 <= s,
            ka == k * a,
            ks == k * k * s,
            0 <= q1,
            q1 * q1 * s <= AMPLITUDE * AMPLITUDE * (a * a),
            (q1 + 1) * (q1 + 1) * s > AMPLITUDE * AMPLITUDE * (a * a),
            is_offset_mag(ka, ks, q1) == (q1 >= 0 && q1 * q1 * ks <= AMPLITUDE * AMPLITUDE * (ka
                * ka) && (q1 + 1) * (q1 + 1) * ks > AMPLITUDE * AMPLITUDE * (ka * ka)),
    ;
    assert(is_offset_mag(kb, ks, q2)) by (nonlinear_arith)
        requires
            k >= 1,
            1 <= s,
            kb == k * b,
            ks == k * k * s,
            0 <= q2,
            q2 * q2 * s <= AMPLITUDE * AMPLITUDE * (b * b),
            (q2 + 1) * (q2 + 1) * s > AMPLITUDE * AMPLITUDE * (b * b),
            is_offset_mag(kb, ks, q2) == (q2 >= 0 && q2 * q2 * ks <= AMPLITUDE * AMPLITUDE * (kb
                * kb) && (q2 + 1) * (q2 + 1) * ks > AMPLITUDE * AMPLITUDE * (kb * kb)),
    ;
    assert(ks >= 1) by (nonlinear_arith)
        requires
            k >= 1,
            1 <= s,
            ks == k * k * s,
    ;
    lemma_offset_mag_unique(ka, ks, q1, offset_mag(ka, ks));
    lemma_offset_mag_unique(kb, ks, q2, offset_mag(kb, ks));
    // the signs agree: scaling by a positive factor preserves each sign test
    assert((k * dx >= 0 <==> dx >= 0) && (k * dx > 0 <==> dx > 0) && (k * dx < 0 <==> dx < 0)
        && (k * dy >= 0 <==> dy >= 0) && (k * dy > 0 <==> dy > 0) && (k * dy < 0 <==> dy < 0))
        by (nonlinear_arith)
        requires
            k >= 1,
    ;
}

/// Compute the offset vector for a pointer at `pointer` and an anchor at
/// `anchor`, both in the same coordinate space.
pub fn displacement(anchor: Point, pointer: Point) -> (o: (i64, i64))
    requires
        anchor.wf(),
        pointer.wf(),
    ensures
        o.0 as int == offset_spec(pointer.x - anchor.x, pointer.y - anchor.y).0,
        o.1 as int == offset_spec(pointer.x - anchor.x, pointer.y - anchor.y).1,
        o.0 * o.0 + o.1 * o.1 <= AMPLITUDE * AMPLITUDE,
        -AMPLITUDE <= o.0 <= AMPLITUDE,
        -AMPLITUDE <= o.1 <= AMPLITUDE,
{
    let dx: i64 = pointer.x - anchor.x;
    let dy: i64 = pointer.y - anchor.y;
    proof {
        lemma_offset_within_radius(dx as int, dy as int);
    }
    if dx == 0 && dy == 0 {
        (0, 0)
    } else {
        let a: i64 = if dx >= 0 {
            dx
        } else {
            -dx
        };
        let b: i64 = if dy >= 0 {
            dy
        } else {
            -dy
        };
        assert(dx * dx + dy * dy <= 8_000_000_000_000_000_000 && dx * dx >= 0 && dy * dy >= 0
            && dx * dx + dy * dy >= 1) by (nonlinear_arith)
            requires
                -2_000_000_000 <= dx <= 2_000_000_000,
                -2_000_000_000 <= dy <= 2_000_000_000,
                !(dx == 0 && dy == 0),
        ;
        let sq: i64 = dx * dx + dy * dy;
        proof {
            lemma_offset_mag_setup(dx as int, dy as int);
        }
        let ox: i64 = offset_component(a, sq);
        let oy: i64 = offset_component(b, sq);
        let (sx, sy) = quadrant_signs(dx, dy);
        (
            if sx {
                ox
            } else {
                -ox
            },
            if sy {
                oy
            } else {
                -oy
            },
        )
    }
}

/// The displaced position for an anchor and a pointer in the same coordinate
/// space: the anchor plus the offset vector.
pub open spec fn displaced_spec(anchor: Point, pointer: Point) -> (int, int) {
    let (ox, oy) = offset_spec(pointer.x - anchor.x, pointer.y - anchor.y);
    (anchor.x + ox, anchor.y + oy)
}

/// Compute the displaced position of a sprite whose anchor is `anchor` when
/// the pointer is at `pointer`.
pub fn displaced_position(anchor: Point, pointer: Point) -> (d: Point)
    requires
        anchor.wf(),
        pointer.wf(),
    ensures
        d.x as int == displaced_spec(anchor, pointer).0,
        d.y as int == displaced_spec(anchor, pointer).1,
{
    let (ox, oy) = displacement(anchor, pointer);
    Point { x: anchor.x + ox, y: anchor.y + oy }
}

} // verus!
