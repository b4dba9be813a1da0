use vstd::prelude::*;

verus! {

// Exact model of the screen-basis construction.
//
// The executable camera works in floating point, which this library cannot
// hold, so the construction is modelled here over the mathematical integers
// and its algebra is proved exactly. Every identity below is polynomial in the
// vector components and in the rotation pair (c, s), so each holds verbatim in
// any commutative ring — in particular over the reals, with c and s the cosine
// and sine of the roll angle — and the floating-point camera computes these
// very polynomials up to rounding.
//
// The construction itself: from an aiming direction d and a roll angle, derive
//   unrotated x basis = (-d.z, 0, d.x)                 (reduction of d x up)
//   unrotated y basis = (-d.x*d.y, d.x^2 + d.z^2, -d.z*d.y)
//                                                      (reduction of (d x up) x d)
// then rotate the pair by the roll angle inside the plane it spans, and
// normalize each rotated vector to unit length. Normalization is the one step
// outside this model: it only rescales, so every orthogonality statement
// proved here carries over to the normalized basis.

/// A three-component vector over the mathematical integers: the exact model of
/// the camera's floating-point vectors.
pub struct Vec3 {
    pub x: int,
    pub y: int,
    pub z: int,
}

impl Vec3 {
    /// Componentwise sum.
    pub open spec fn plus(self, other: Vec3) -> Vec3 {
        Vec3 { x: self.x + other.x, y: self.y + other.y, z: self.z + other.z }
    }

    /// Componentwise difference.
    pub open spec fn minus(self, other: Vec3) -> Vec3 {
        Vec3 { x: self.x - other.x, y: self.y - other.y, z: self.z - other.z }
    }

    /// The vector scaled by `k`.
    pub open spec fn scaled(self, k: int) -> Vec3 {
        Vec3 { x: k * self.x, y: k * self.y, z: k * self.z }
    }

    /// Dot product; two vectors are orthogonal exactly when it is zero.
    pub open spec fn dot(self, other: Vec3) -> int {
        self.x * other.x + self.y * other.y + self.z * other.z
    }

    /// Cross product, orthogonal to both factors.
    pub open spec fn cross(self, other: Vec3) -> Vec3 {
        Vec3 {
            x: self.y * other.z - self.z * other.y,
            y: self.z * other.x - self.x * other.z,
            z: self.x * other.y - self.y * other.x,
        }
    }

    /// True of the zero vector alone.
    pub open spec fn is_zero(self) -> bool {
        self.x == 0 && self.y == 0 && self.z == 0
    }
}

/// The world up-axis the camera measures roll against.
pub open spec fn world_up() -> Vec3 {
    Vec3 { x: 0, y: 1, z: 0 }
}

/// The unrotated horizontal screen basis vector derived from aiming direction
/// `d`: the algebraic reduction of d x up.
pub open spec fn unrotated_x_direction(d: Vec3) -> Vec3 {
    Vec3 { x: -d.z, y: 0, z: d.x }
}

/// The unrotated vertical screen basis vector derived from aiming direction
/// `d`: the algebraic reduction of (d x up) x d.
pub open spec fn unrotated_y_direction(d: Vec3) -> Vec3 {
    Vec3 { x: -d.x * d.y, y: d.x * d.x + d.z * d.z, z: -d.z * d.y }
}

/// First component of the pair (x, y) rolled inside the plane it spans, by an
/// angle whose cosine and sine are (c, s): x' = c*x - s*y.
pub open spec fn rolled_x(x: Vec3, y: Vec3, c: int, s: int) -> Vec3 {
    x.scaled(c).minus(y.scaled(s))
}

/// Second component of the rolled pair: y' = c*y + s*x.
pub open spec fn rolled_y(x: Vec3, y: Vec3, c: int, s: int) -> Vec3 {
    y.scaled(c).plus(x.scaled(s))
}

/// The horizontal screen basis vector before normalization, for aiming
/// direction `d` and a roll whose cosine and sine are (c, s).
pub open spec fn screen_x_direction(d: Vec3, c: int, s: int) -> Vec3 {
    rolled_x(unrotated_x_direction(d), unrotated_y_direction(d), c, s)
}

/// The vertical screen basis vector before normalization.
pub open spec fn screen_y_direction(d: Vec3, c: int, s: int) -> Vec3 {
    rolled_y(unrotated_x_direction(d), unrotated_y_direction(d), c, s)
}

/// The ray direction before normalization for normalized screen coordinates
/// (nx, ny): the aiming direction pushed along each screen basis vector by the
/// coordinate times the inverse effective distance `k`.
pub open spec fn ray_direction(d: Vec3, sx: Vec3, sy: Vec3, k: int, nx: int, ny: int) -> Vec3 {
    d.plus(sx.scaled(nx * k)).plus(sy.scaled(ny * k))
}

proof fn lemma_unrotated_scalar(dx: int, dy: int, dz: int)
    by (nonlinear_arith)
    ensures
        -dz * dx + 0 * dy + dx * dz == 0,
        (-dx * dy) * dx + (dx * dx + dz * dz) * dy + (-dz * dy) * dz == 0,
        -dz * (-dx * dy) + 0 * (dx * dx + dz * dz) + dx * (-dz * dy) == 0,
        (-dx * dy) * (-dx * dy) + (dx * dx + dz * dz) * (dx * dx + dz * dz) + (-dz * dy) * (-dz
            * dy) == (-dz * -dz + 0 * 0 + dx * dx) * (dx * dx + dy * dy + dz * dz),
        0 * dz - dx * dy == -dx * dy,
        dx * dx - (-dz) * dz == dx * dx + dz * dz,
        (-dz) * dy - 0 * dx == -dz * dy,
{
}

/// The two unrotated basis vectors are the claimed algebraic reductions of the
/// cross products d x up and (d x up) x d, so each is orthogonal to the aiming
/// direction and they are orthogonal to each other; the squared length of the
/// vertical one is that of the horizontal one times the squared length of `d`.
pub proof fn lemma_unrotated_basis(d: Vec3)
    ensures
        unrotated_x_direction(d) == d.cross(world_up()),
        unrotated_y_direction(d) == d.cross(world_up()).cross(d),
        unrotated_x_direction(d).dot(d) == 0,
        unrotated_y_direction(d).dot(d) == 0,
        unrotated_x_direction(d).dot(unrotated_y_direction(d)) == 0,
        unrotated_y_direction(d).dot(unrotated_y_direction(d)) == unrotated_x_direction(d).dot(
            unrotated_x_direction(d),
        ) * d.dot(d),
{
    lemma_unrotated_scalar(d.x, d.y, d.z);
    let cu = d.cross(world_up());
    assert(cu.x == -d.z);
    assert(cu.y == 0);
    assert(cu.z == d.x);
    let cv = cu.cross(d);
    assert(cv.x == -d.x * d.y);
    assert(cv.y == d.x * d.x + d.z * d.z);
    assert(cv.z == -d.z * d.y);
}

proof fn lemma_rolled_dot_step(c: int, s: int, a: int, b: int, w: int)
    by (nonlinear_arith)
    ensures
        (c * a - s * b) * w == c * (a * w) - s * (b * w),
        (c * b + s * a) * w == c * (b * w) + s * (a * w),
{
}

proof fn lemma_distrib3(k: int, x1: int, x2: int, x3: int)
    by (nonlinear_arith)
    ensures
        k * x1 + k * x2 + k * x3 == k * (x1 + x2 + x3),
{
}

proof fn lemma_mul_comm(a: int, b: int)
    by (nonlinear_arith)
    ensures
        a * b == b * a,
{
}

/// Both screen basis vectors are orthogonal to the aiming direction, for every
/// direction and every roll — hence also to the normalized direction, since
/// normalization only rescales.
pub proof fn lemma_screen_basis_orthogonal_to_direction(d: Vec3, c: int, s: int)
    ensures
        screen_x_direction(d, c, s).dot(d) == 0,
        screen_y_direction(d, c, s).dot(d) == 0,
{
    lemma_unrotated_basis(d);
    let ux = unrotated_x_direction(d);
    let uy = unrotated_y_direction(d);
    let sx = screen_x_direction(d, c, s);
    let sy = screen_y_direction(d, c, s);
    assert(sx.x == c * ux.x - s * uy.x);
    assert(sx.y == c * ux.y - s * uy.y);
    assert(sx.z == c * ux.z - s * uy.z);
    assert(sy.x == c * uy.x + s * ux.x);
    assert(sy.y == c * uy.y + s * ux.y);
    assert(sy.z == c * uy.z + s * ux.z);
    lemma_rolled_dot_step(c, s, ux.x, uy.x, d.x);
    lemma_rolled_dot_step(c, s, ux.y, uy.y, d.y);
    lemma_rolled_dot_step(c, s, ux.z, uy.z, d.z);
    lemma_distrib3(c, ux.x * d.x, ux.y * d.y, ux.z * d.z);
    lemma_distrib3(s, uy.x * d.x, uy.y * d.y, uy.z * d.z);
    lemma_distrib3(c, uy.x * d.x, uy.y * d.y, uy.z * d.z);
    lemma_distrib3(s, ux.x * d.x, ux.y * d.y, ux.z * d.z);
    assert(sx.dot(d) == c * (ux.dot(d)) - s * (uy.dot(d)));
    assert(sy.dot(d) == c * (uy.dot(d)) + s * (ux.dot(d)));
}

proof fn lemma_distrib(u: int, v: int, w: int)
    by (nonlinear_arith)
    ensures
        (u - v) * w == u * w - v * w,
        (u + v) * w == u * w + v * w,
        w * (u + v) == w * u + w * v,
        w * (u - v) == w * u - w * v,
{
}

proof fn lemma_prod_shuffle(c: int, s: int, a: int, b: int)
    by (nonlinear_arith)
    ensures
        (c * a) * (c * b) == c * c * (a * b),
        (c * a) * (s * a) == c * s * (a * a),
        (s * b) * (c * b) == c * s * (b * b),
        (s * b) * (s * a) == s * s * (b * a),
{
}

proof fn lemma_rolled_product(c: int, s: int, a: int, b: int)
    ensures
        (c * a - s * b) * (c * b + s * a) == c * c * (a * b) + c * s * (a * a) - c * s * (b * b) - s
            * s * (b * a),
{
    lemma_distrib(c * a, s * b, c * b + s * a);
    lemma_distrib(c * b, s * a, c * a);
    lemma_distrib(c * b, s * a, s * b);
    lemma_prod_shuffle(c, s, a, b);
}

proof fn lemma_mul_zero(k: int, x: int)
    by (nonlinear_arith)
    requires
        x == 0,
    ensures
        k * x == 0,
{
}

proof fn lemma_mul_congruence(k: int, x: int, y: int)
    by (nonlinear_arith)
    requires
        x == y,
    ensures
        k * x == k * y,
{
}

proof fn lemma_skew_regroup(c: int, s: int, p: int, q: int)
    by (nonlinear_arith)
    ensures
        c * s * p - c * s * (p * q) == c * s * p * (1 - q),
{
}

proof fn lemma_vanishing_factor(c: int, s: int, p: int, q: int)
    by (nonlinear_arith)
    requires
        q == 1 || c == 0 || s == 0,
    ensures
        c * s * p * (1 - q) == 0,
{
}

/// Exact skew of the rolled basis: the dot product of the two screen basis
/// vectors is c*s times the squared length of the unrotated horizontal vector
/// times (1 - |d|^2). It vanishes — the basis is orthogonal — whenever the
/// aiming direction has unit length or the roll is a multiple of a quarter
/// turn (c*s == 0); for a non-unit direction and a general roll it does not.
pub proof fn lemma_screen_basis_skew(d: Vec3, c: int, s: int)
    ensures
        screen_x_direction(d, c, s).dot(screen_y_direction(d, c, s)) == c * s
            * unrotated_x_direction(d).dot(unrotated_x_direction(d)) * (1 - d.dot(d)),
{
    lemma_unrotated_basis(d);
    let ux = unrotated_x_direction(d);
    let uy = unrotated_y_direction(d);
    let sx = screen_x_direction(d, c, s);
    let sy = screen_y_direction(d, c, s);
    assert(sx.x == c * ux.x - s * uy.x);
    assert(sx.y == c * ux.y - s * uy.y);
    assert(sx.z == c * ux.z - s * uy.z);
    assert(sy.x == c * uy.x + s * ux.x);
    assert(sy.y == c * uy.y + s * ux.y);
    assert(sy.z == c * uy.z + s * ux.z);
    lemma_rolled_product(c, s, ux.x, uy.x);
    lemma_rolled_product(c, s, ux.y, uy.y);
    lemma_rolled_product(c, s, ux.z, uy.z);
    assert(sx.x * sy.x == c * c * (ux.x * uy.x) + c * s * (ux.x * ux.x) - c * s * (uy.x * uy.x) - s
        * s * (uy.x * ux.x));
    assert(sx.y * sy.y == c * c * (ux.y * uy.y) + c * s * (ux.y * ux.y) - c * s * (uy.y * uy.y) - s
        * s * (uy.y * ux.y));
    assert(sx.z * sy.z == c * c * (ux.z * uy.z) + c * s * (ux.z * ux.z) - c * s * (uy.z * uy.z) - s
        * s * (uy.z * ux.z));
    lemma_distrib3(c * c, ux.x * uy.x, ux.y * uy.y, ux.z * uy.z);
    lemma_distrib3(c * s, ux.x * ux.x, ux.y * ux.y, ux.z * ux.z);
    lemma_distrib3(c * s, uy.x * uy.x, uy.y * uy.y, uy.z * uy.z);
    lemma_distrib3(s * s, uy.x * ux.x, uy.y * ux.y, uy.z * ux.z);
    assert(sx.dot(sy) == c * c * (ux.dot(uy)) + c * s * (ux.dot(ux)) - c * s * (uy.dot(uy)) - s * s
        * (uy.dot(ux)));
    lemma_mul_comm(uy.x, ux.x);
    lemma_mul_comm(uy.y, ux.y);
    lemma_mul_comm(uy.z, ux.z);
    assert(uy.dot(ux) == ux.dot(uy));
    lemma_mul_zero(c * c, ux.dot(uy));
    lemma_mul_zero(s * s, uy.dot(ux));
    lemma_mul_congruence(c * s, uy.dot(uy), ux.dot(ux) * d.dot(d));
    assert(sx.dot(sy) == c * s * (ux.dot(ux)) - c * s * (ux.dot(ux) * d.dot(d)));
    lemma_skew_regroup(c, s, ux.dot(ux), d.dot(d));
}

/// The screen basis vectors are mutually orthogonal when the aiming direction
/// has unit length or the roll is a multiple of a quarter turn.
pub proof fn lemma_screen_basis_mutually_orthogonal(d: Vec3, c: int, s: int)
    requires
        d.dot(d) == 1 || c == 0 || s == 0,
    ensures
        screen_x_direction(d, c, s).dot(screen_y_direction(d, c, s)) == 0,
{
    lemma_screen_basis_skew(d, c, s);
    lemma_vanishing_factor(c, s, unrotated_x_direction(d).dot(unrotated_x_direction(d)), d.dot(d));
}

proof fn lemma_roll_back_scalar(a: int, b: int, c: int, s: int)
    by (nonlinear_arith)
    ensures
        c * (c * a - s * b) - -s * (c * b + s * a) == (c * c + s * s) * a,
        c * (c * b + s * a) + -s * (c * a - s * b) == (c * c + s * s) * b,
{
}

/// Rolling a pair of vectors by an angle and then by its negation scales both
/// by c^2 + s^2; with c^2 + s^2 == 1 — as for a genuine cosine/sine pair — the
/// roll is inverted exactly.
pub proof fn lemma_roll_is_invertible(x: Vec3, y: Vec3, c: int, s: int)
    ensures
        rolled_x(rolled_x(x, y, c, s), rolled_y(x, y, c, s), c, -s) == x.scaled(c * c + s * s),
        rolled_y(rolled_x(x, y, c, s), rolled_y(x, y, c, s), c, -s) == y.scaled(c * c + s * s),
        c * c + s * s == 1 ==> rolled_x(rolled_x(x, y, c, s), rolled_y(x, y, c, s), c, -s) == x,
        c * c + s * s == 1 ==> rolled_y(rolled_x(x, y, c, s), rolled_y(x, y, c, s), c, -s) == y,
{
    lemma_roll_back_scalar(x.x, y.x, c, s);
    lemma_roll_back_scalar(x.y, y.y, c, s);
    lemma_roll_back_scalar(x.z, y.z, c, s);
    let rx = rolled_x(x, y, c, s);
    let ry = rolled_y(x, y, c, s);
    assert(rx.x == c * x.x - s * y.x);
    assert(rx.y == c * x.y - s * y.y);
    assert(rx.z == c * x.z - s * y.z);
    assert(ry.x == c * y.x + s * x.x);
    assert(ry.y == c * y.y + s * x.y);
    assert(ry.z == c * y.z + s * x.z);
    let bx = rolled_x(rx, ry, c, -s);
    let yy = rolled_y(rx, ry, c, -s);
    assert(bx.x == c * rx.x - -s * ry.x);
    assert(bx.y == c * rx.y - -s * ry.y);
    assert(bx.z == c * rx.z - -s * ry.z);
    assert(yy.x == c * ry.x + -s * rx.x);
    assert(yy.y == c * ry.y + -s * rx.y);
    assert(yy.z == c * ry.z + -s * rx.z);
    assert(bx == x.scaled(c * c + s * s));
    assert(yy == y.scaled(c * c + s * s));
    if c * c + s * s == 1 {
        assert(x.scaled(1) == x);
        assert(y.scaled(1) == y);
    }
}

/// At the centre of the frame the ray direction is exactly the aiming
/// direction: with nx == ny == 0 both basis contributions vanish, so the ray
/// looks straight ahead whatever the basis and the field of view.
pub proof fn lemma_centre_ray_aims_straight_ahead(d: Vec3, sx: Vec3, sy: Vec3, k: int)
    ensures
        ray_direction(d, sx, sy, k, 0, 0) == d,
{
}

/// The horizontal basis vector degenerates to zero exactly when the aiming
/// direction is the zero vector or parallel to the world up-axis (its x and z
/// components both vanish); the vertical one then degenerates with it, so no
/// screen basis exists and construction must reject such a direction.
pub proof fn lemma_degenerate_direction(d: Vec3)
    ensures
        unrotated_x_direction(d).is_zero() <==> (d.x == 0 && d.z == 0),
        (d.x == 0 && d.z == 0) ==> unrotated_y_direction(d).is_zero(),
{
}

} // verus!
