//! Double-pendulum state and its fixed-step integrator.
//!
//! The pendulum has two equal links of length `length` and two equal point
//! masses; `theta1` and `theta2` are the link angles from the downward
//! vertical, `omega1` and `omega2` their angular velocities.  `step` advances
//! the four dynamic components by one classical fourth-order Runge-Kutta step
//! and records the pre-step angle pair in a bounded trace (newest first,
//! capacity 144, oldest evicted first).  Oversized or non-positive timesteps
//! deliberately skip the integration — a silent policy that bounds the error
//! a stalled host could otherwise inject — while the trace is still updated.
//!
//! Near-singular configurations of the equations of motion are not treated
//! specially: the saturating arithmetic produces extreme values instead of
//! infinities, which is accepted chaotic-system behaviour, not an error.

use vstd::prelude::*;

use crate::fixed::{Fx, fx_add, fx_sub, fx_mul, fx_div, fx_neg, fx_sin, fx_cos};
use crate::fixed::{spec_add, spec_sub, spec_mul, spec_div, spec_neg, spec_sin, spec_cos};
use crate::fixed::{spec_reduce, spec_fold, spec_sin_poly};
use crate::fixed::{FX_ONE, FX_TWO, FX_SIX, FX_HUNDRED};

verus! {

/// Gravitational acceleration, 9.81, in Q31.32.
pub const FX_G: i64 = 42133629174;

/// Largest accepted timestep, 0.02 seconds, in Q31.32.
pub const FX_MAX_DT: i64 = 85899346;

/// Capacity of the trace of past angle pairs.
pub const TRACE_CAP: usize = 144;

/// `a1` coefficient of the reduced equations of motion: cos(t1 - t2) / 2.
pub open spec fn spec_a1(t1: int, t2: int) -> int {
    spec_div(spec_cos(spec_sub(t1, t2)), FX_TWO as int)
}

/// `a2` coefficient of the reduced equations of motion: cos(t1 - t2).
pub open spec fn spec_a2(t1: int, t2: int) -> int {
    spec_cos(spec_sub(t1, t2))
}

/// Forcing term of the first link:
/// -(w2^2) * sin(t1 - t2) / 2 - (g / L) * sin(t1).
pub open spec fn spec_f1(len: int, t1: int, t2: int, w1: int, w2: int) -> int {
    spec_sub(
        spec_div(spec_mul(spec_neg(spec_mul(w2, w2)), spec_sin(spec_sub(t1, t2))), FX_TWO as int),
        spec_mul(spec_div(FX_G as int, len), spec_sin(t1)),
    )
}

/// Forcing term of the second link:
/// (w1^2) * sin(t1 - t2) - (g / L) * sin(t2).
pub open spec fn spec_f2(len: int, t1: int, t2: int, w1: int, w2: int) -> int {
    spec_sub(
        spec_mul(spec_mul(w1, w1), spec_sin(spec_sub(t1, t2))),
        spec_mul(spec_div(FX_G as int, len), spec_sin(t2)),
    )
}

/// Angular acceleration of the first link:
/// (f1 - a1 * f2) / (1 - a1 * a2).
pub open spec fn spec_g1(len: int, t1: int, t2: int, w1: int, w2: int) -> int {
    spec_div(
        spec_sub(spec_f1(len, t1, t2, w1, w2), spec_mul(spec_a1(t1, t2), spec_f2(len, t1, t2, w1, w2))),
        spec_sub(FX_ONE as int, spec_mul(spec_a1(t1, t2), spec_a2(t1, t2))),
    )
}

/// Angular acceleration of the second link:
/// (-a2 * f1 + f2) / (1 - a1 * a2).
pub open spec fn spec_g2(len: int, t1: int, t2: int, w1: int, w2: int) -> int {
    spec_div(
        spec_add(
            spec_mul(spec_neg(spec_a2(t1, t2)), spec_f1(len, t1, t2, w1, w2)),
            spec_f2(len, t1, t2, w1, w2),
        ),
        spec_sub(FX_ONE as int, spec_mul(spec_a1(t1, t2), spec_a2(t1, t2))),
    )
}

/// Right-hand side of the first-order system on (t1, t2, w1, w2): the
/// time-derivative (w1, w2, alpha1, alpha2).
pub open spec fn spec_deriv(s: (int, int, int, int), len: int) -> (int, int, int, int) {
    (s.2, s.3, spec_g1(len, s.0, s.1, s.2, s.3), spec_g2(len, s.0, s.1, s.2, s.3))
}

/// Componentwise s + c * k.
pub open spec fn spec_axpy(s: (int, int, int, int), c: int, k: (int, int, int, int)) -> (
    int,
    int,
    int,
    int,
) {
    (
        spec_add(s.0, spec_mul(c, k.0)),
        spec_add(s.1, spec_mul(c, k.1)),
        spec_add(s.2, spec_mul(c, k.2)),
        spec_add(s.3, spec_mul(c, k.3)),
    )
}

/// Componentwise vector sum.
pub open spec fn spec_vadd(a: (int, int, int, int), b: (int, int, int, int)) -> (
    int,
    int,
    int,
    int,
) {
    (spec_add(a.0, b.0), spec_add(a.1, b.1), spec_add(a.2, b.2), spec_add(a.3, b.3))
}

/// One classical four-stage Runge-Kutta step of size dt:
/// s + dt/6 * (k1 + 2*k2 + 2*k3 + k4).
pub open spec fn spec_rk4(s: (int, int, int, int), len: int, dt: int) -> (int, int, int, int) {
    let half = spec_div(dt, FX_TWO as int);
    let k1 = spec_deriv(s, len);
    let k2 = spec_deriv(spec_axpy(s, half, k1), len);
    let k3 = spec_deriv(spec_axpy(s, half, k2), len);
    let k4 = spec_deriv(spec_axpy(s, dt, k3), len);
    let combo = spec_vadd(spec_axpy(spec_axpy(k1, FX_TWO as int, k2), FX_TWO as int, k3), k4);
    spec_axpy(s, spec_div(dt, FX_SIX as int), combo)
}

/// What one call of `step` does to the dynamic components: a Runge-Kutta
/// step for a timestep in (0, 0.02], the identity otherwise.
pub open spec fn spec_step(s: (int, int, int, int), len: int, dt: int) -> (int, int, int, int) {
    if 0 < dt <= FX_MAX_DT as int {
        spec_rk4(s, len, dt)
    } else {
        s
    }
}

/// What one push does to the trace: the pair goes in front and, at capacity,
/// the oldest (last) entry leaves.
pub open spec fn spec_push(tr: Seq<(Fx, Fx)>, p: (Fx, Fx)) -> Seq<(Fx, Fx)> {
    let s = seq![p] + tr;
    if s.len() > TRACE_CAP as nat {
        s.take(TRACE_CAP as int)
    } else {
        s
    }
}

/// A 4-vector of fixed-point components, carrying (t1, t2, w1, w2) or its
/// derivative through the integrator.
#[derive(Clone, Copy, PartialEq, Eq, Structural, Debug)]
pub struct Vec4 {
    pub x: Fx,
    pub y: Fx,
    pub z: Fx,
    pub w: Fx,
}

/// The bits of a 4-vector, as a tuple of integers.
pub open spec fn v4(v: Vec4) -> (int, int, int, int) {
    (v.x.bits as int, v.y.bits as int, v.z.bits as int, v.w.bits as int)
}

/// Componentwise s + c * k on fixed-point 4-vectors.
fn vec4_scale_add(s: Vec4, c: Fx, k: Vec4) -> (r: Vec4)
    ensures
        v4(r) == spec_axpy(v4(s), c.bits as int, v4(k)),
{
    Vec4 {
        x: fx_add(s.x, fx_mul(c, k.x)),
        y: fx_add(s.y, fx_mul(c, k.y)),
        z: fx_add(s.z, fx_mul(c, k.z)),
        w: fx_add(s.w, fx_mul(c, k.w)),
    }
}

/// Componentwise sum of fixed-point 4-vectors.
fn vec4_add(a: Vec4, b: Vec4) -> (r: Vec4)
    ensures
        v4(r) == spec_vadd(v4(a), v4(b)),
{
    Vec4 { x: fx_add(a.x, b.x), y: fx_add(a.y, b.y), z: fx_add(a.z, b.z), w: fx_add(a.w, b.w) }
}

/// One double pendulum: fixed anchor, geometry and mass, the four dynamic
/// components, and the bounded trace of past angle pairs (newest first).
pub struct DoublePendulum {
    pub origin_x: Fx,
    pub origin_y: Fx,
    pub length: Fx,
    pub mass: Fx,
    pub theta1: Fx,
    pub theta2: Fx,
    pub omega1: Fx,
    pub omega2: Fx,
    pub trace: Vec<(Fx, Fx)>,
}

impl DoublePendulum {
    /// Well-formedness: positive geometry and mass, trace within capacity.
    pub open spec fn wf(self) -> bool {
        &&& self.length.bits > 0
        &&& self.mass.bits > 0
        &&& self.trace@.len() <= TRACE_CAP as nat
    }

    /// The dynamic components as an integer 4-tuple.
    pub open spec fn state(self) -> (int, int, int, int) {
        (self.theta1.bits as int, self.theta2.bits as int, self.omega1.bits as int, self.omega2.bits as int)
    }

    /// Build a pendulum at rest at the given angles, with an empty trace.
    pub fn new(origin_x: Fx, origin_y: Fx, length: Fx, mass: Fx, theta1: Fx, theta2: Fx) -> (p:
        DoublePendulum)
        requires
            length.bits > 0,
            mass.bits > 0,
        ensures
            p.wf(),
            p.origin_x == origin_x,
            p.origin_y == origin_y,
            p.length == length,
            p.mass == mass,
            p.theta1 == theta1,
            p.theta2 == theta2,
            p.omega1.bits == 0,
            p.omega2.bits == 0,
            p.trace@ == Seq::<(Fx, Fx)>::empty(),
    {
        DoublePendulum {
            origin_x,
            origin_y,
            length,
            mass,
            theta1,
            theta2,
            omega1: Fx { bits: 0 },
            omega2: Fx { bits: 0 },
            trace: Vec::new(),
        }
    }

    /// Coefficient a1 of the reduced equations of motion.
    pub fn a1(&self, theta1: Fx, theta2: Fx) -> (r: Fx)
        ensures
            r.bits as int == spec_a1(theta1.bits as int, theta2.bits as int),
    {
        fx_div(fx_cos(fx_sub(theta1, theta2)), Fx { bits: FX_TWO })
    }

    /// Coefficient a2 of the reduced equations of motion.
    pub fn a2(&self, theta1: Fx, theta2: Fx) -> (r: Fx)
        ensures
            r.bits as int == spec_a2(theta1.bits as int, theta2.bits as int),
    {
        fx_cos(fx_sub(theta1, theta2))
    }

    /// Forcing term of the first link.
    #[allow(unused_variables)]
    pub fn f1(&self, theta1: Fx, theta2: Fx, angular1: Fx, angular2: Fx) -> (r: Fx)
        ensures
            r.bits as int == spec_f1(
                self.length.bits as int,
                theta1.bits as int,
                theta2.bits as int,
                angular1.bits as int,
                angular2.bits as int,
            ),
    {
        fx_sub(
            fx_div(
                fx_mul(fx_neg(fx_mul(angular2, angular2)), fx_sin(fx_sub(theta1, theta2))),
                Fx { bits: FX_TWO },
            ),
            fx_mul(fx_div(Fx { bits: FX_G }, self.length), fx_sin(theta1)),
        )
    }

    /// Forcing term of the second link.
    #[allow(unused_variables)]
    pub fn f2(&self, theta1: Fx, theta2: Fx, angular1: Fx, angular2: Fx) -> (r: Fx)
        ensures
            r.bits as int == spec_f2(
                self.length.bits as int,
                theta1.bits as int,
                theta2.bits as int,
                angular1.bits as int,
                angular2.bits as int,
            ),
    {
        fx_sub(
            fx_mul(fx_mul(angular1, angular1), fx_sin(fx_sub(theta1, theta2))),
            fx_mul(fx_div(Fx { bits: FX_G }, self.length), fx_sin(theta2)),
        )
    }

    /// Angular acceleration of the first link.
    pub fn g1(&self, t1: Fx, t2: Fx, ang1: Fx, ang2: Fx) -> (r: Fx)
        ensures
            r.bits as int == spec_g1(
                self.length.bits as int,
                t1.bits as int,
                t2.bits as int,
                ang1.bits as int,
                ang2.bits as int,
            ),
    {
        fx_div(
            fx_sub(self.f1(t1, t2, ang1, ang2), fx_mul(self.a1(t1, t2), self.f2(t1, t2, ang1, ang2))),
            fx_sub(Fx { bits: FX_ONE }, fx_mul(self.a1(t1, t2), self.a2(t1, t2))),
        )
    }

    /// Angular acceleration of the second link.
    pub fn g2(&self, t1: Fx, t2: Fx, ang1: Fx, ang2: Fx) -> (r: Fx)
        ensures
            r.bits as int == spec_g2(
                self.length.bits as int,
                t1.bits as int,
                t2.bits as int,
                ang1.bits as int,
                ang2.bits as int,
            ),
    {
        fx_div(
            fx_add(
                fx_mul(fx_neg(self.a2(t1, t2)), self.f1(t1, t2, ang1, ang2)),
                self.f2(t1, t2, ang1, ang2),
            ),
            fx_sub(Fx { bits: FX_ONE }, fx_mul(self.a1(t1, t2), self.a2(t1, t2))),
        )
    }

    /// Right-hand side of the first-order system: the time-derivative of
    /// (t1, t2, w1, w2).
    pub fn runge_kutta_func(&self, params: Vec4) -> (r: Vec4)
        ensures
            v4(r) == spec_deriv(v4(params), self.length.bits as int),
    {
        Vec4 {
            x: params.z,
            y: params.w,
            z: self.g1(params.x, params.y, params.z, params.w),
            w: self.g2(params.x, params.y, params.z, params.w),
        }
    }

    /// Advance the pendulum by one tick.  The pre-step angle pair always
    /// goes into the trace; the dynamic components take one Runge-Kutta step
    /// when the timestep lies in (0, 0.02] and are left exactly unchanged
    /// otherwise.
    pub fn step(&mut self, dt: Fx)
        requires
            old(self).wf(),
        ensures
            final(self).wf(),
            final(self).origin_x == old(self).origin_x,
            final(self).origin_y == old(self).origin_y,
            final(self).length == old(self).length,
            final(self).mass == old(self).mass,
            final(self).trace@ == spec_push(
                old(self).trace@,
                (old(self).theta1, old(self).theta2),
            ),
            final(self).state() == spec_step(
                old(self).state(),
                old(self).length.bits as int,
                dt.bits as int,
            ),
            !(0 < dt.bits <= FX_MAX_DT) ==> {
                &&& final(self).theta1 == old(self).theta1
                &&& final(self).theta2 == old(self).theta2
                &&& final(self).omega1 == old(self).omega1
                &&& final(self).omega2 == old(self).omega2
            },
    {
        let pre: (Fx, Fx) = (self.theta1, self.theta2);
        self.trace.insert(0, pre);
        if self.trace.len() > TRACE_CAP {
            self.trace.pop();
        }
        proof {
            let pushed = seq![pre] + old(self).trace@;
            assert(pushed == old(self).trace@.insert(0, pre)) by {
                assert(pushed =~= old(self).trace@.insert(0, pre));
            }
            if pushed.len() > TRACE_CAP as nat {
                assert(self.trace@ =~= pushed.take(TRACE_CAP as int));
            }
            assert(self.trace@ == spec_push(old(self).trace@, pre));
        }

        if dt.bits <= 0 || dt.bits > FX_MAX_DT {
            return ;
        }
        let current = Vec4 { x: self.theta1, y: self.theta2, z: self.omega1, w: self.omega2 };
        let half = fx_div(dt, Fx { bits: FX_TWO });
        let two = Fx { bits: FX_TWO };

        let k1 = self.runge_kutta_func(current);
        let k2 = self.runge_kutta_func(vec4_scale_add(current, half, k1));
        let k3 = self.runge_kutta_func(vec4_scale_add(current, half, k2));
        let k4 = self.runge_kutta_func(vec4_scale_add(current, dt, k3));

        let combo = vec4_add(vec4_scale_add(vec4_scale_add(k1, two, k2), two, k3), k4);
        let updated = vec4_scale_add(current, fx_div(dt, Fx { bits: FX_SIX }), combo);

        self.theta1 = updated.x;
        self.theta2 = updated.y;
        self.omega1 = updated.z;
        self.omega2 = updated.w;
    }

    /// Horizontal offset of the first bob from the origin: L * 100 * sin(t1).
    pub fn dx1(&self) -> (r: Fx)
        ensures
            r.bits as int == spec_dx1(self.length.bits as int, self.theta1.bits as int),
    {
        fx_mul(fx_mul(self.length, Fx { bits: FX_HUNDRED }), fx_sin(self.theta1))
    }

    /// Vertical offset of the first bob from the origin: L * 100 * cos(t1).
    pub fn dy1(&self) -> (r: Fx)
        ensures
            r.bits as int == spec_dy1(self.length.bits as int, self.theta1.bits as int),
    {
        fx_mul(fx_mul(self.length, Fx { bits: FX_HUNDRED }), fx_cos(self.theta1))
    }

    /// Horizontal offset of the second bob: L * 100 * (sin(t1) + sin(t2)).
    pub fn dx2(&self) -> (r: Fx)
        ensures
            r.bits as int == spec_dx2(
                self.length.bits as int,
                self.theta1.bits as int,
                self.theta2.bits as int,
            ),
    {
        fx_mul(
            fx_mul(self.length, Fx { bits: FX_HUNDRED }),
            fx_add(fx_sin(self.theta1), fx_sin(self.theta2)),
        )
    }

    /// Vertical offset of the second bob: L * 100 * (cos(t1) + cos(t2)).
    pub fn dy2(&self) -> (r: Fx)
        ensures
            r.bits as int == spec_dy2(
                self.length.bits as int,
                self.theta1.bits as int,
                self.theta2.bits as int,
            ),
    {
        fx_mul(
            fx_mul(self.length, Fx { bits: FX_HUNDRED }),
            fx_add(fx_cos(self.theta1), fx_cos(self.theta2)),
        )
    }

    /// Both rod endpoints as offsets from the origin, for drawing.
    pub fn endpoints(&self) -> (r: (Fx, Fx, Fx, Fx))
        ensures
            r.0.bits as int == spec_dx1(self.length.bits as int, self.theta1.bits as int),
            r.1.bits as int == spec_dy1(self.length.bits as int, self.theta1.bits as int),
            r.2.bits as int == spec_dx2(
                self.length.bits as int,
                self.theta1.bits as int,
                self.theta2.bits as int,
            ),
            r.3.bits as int == spec_dy2(
                self.length.bits as int,
                self.theta1.bits as int,
                self.theta2.bits as int,
            ),
    {
        (self.dx1(), self.dy1(), self.dx2(), self.dy2())
    }

    /// Read-only view of the trace of past angle pairs, newest first.
    pub fn trace_iterator(&self) -> (r: &Vec<(Fx, Fx)>)
        ensures
            r@ == self.trace@,
    {
        &self.trace
    }
}

/// Endpoint projection of the first bob, horizontal component.
pub open spec fn spec_dx1(len: int, t1: int) -> int {
    spec_mul(spec_mul(len, FX_HUNDRED as int), spec_sin(t1))
}

/// Endpoint projection of the first bob, vertical component.
pub open spec fn spec_dy1(len: int, t1: int) -> int {
    spec_mul(spec_mul(len, FX_HUNDRED as int), spec_cos(t1))
}

/// Endpoint projection of the second bob, horizontal component.
pub open spec fn spec_dx2(len: int, t1: int, t2: int) -> int {
    spec_mul(spec_mul(len, FX_HUNDRED as int), spec_add(spec_sin(t1), spec_sin(t2)))
}

/// Endpoint projection of the second bob, vertical component.
pub open spec fn spec_dy2(len: int, t1: int, t2: int) -> int {
    spec_mul(spec_mul(len, FX_HUNDRED as int), spec_add(spec_cos(t1), spec_cos(t2)))
}

/// The fixed-point product with a zero factor is exactly zero.
pub proof fn lemma_mul_zero(a: int)
    ensures
        spec_mul(a, 0) == 0,
        spec_mul(0, a) == 0,
{
    assert(crate::fixed::fx_mag(0) == 0);
    assert(crate::fixed::fx_mag(a) * 0 == 0);
    vstd::arithmetic::div_mod::lemma_div_basics(FX_ONE as int);
}

/// The fixed-point quotient of a zero dividend is exactly zero.
pub proof fn lemma_div_zero(b: int)
    ensures
        spec_div(0, b) == 0,
{
    if b != 0 {
        assert(crate::fixed::fx_mag(0) == 0);
        assert(0 * (FX_ONE as int) == 0);
        vstd::arithmetic::div_mod::lemma_div_basics(crate::fixed::fx_mag(b));
    }
}

/// The fixed-point sine of the zero angle is exactly zero.
pub proof fn lemma_sin_zero()
    ensures
        spec_sin(0) == 0,
{
    assert(spec_reduce(0) == 0) by {
        assert(0int % (crate::fixed::FX_TWO_PI as int) == 0);
    }
    assert(spec_fold(0) == 0);
    lemma_mul_zero(0);
    lemma_div_zero(FX_SIX as int);
    lemma_div_zero(crate::fixed::FX_F5 as int);
    lemma_div_zero(crate::fixed::FX_F7 as int);
    lemma_div_zero(crate::fixed::FX_F9 as int);
    lemma_div_zero(crate::fixed::FX_F11 as int);
    assert(spec_sin_poly(0) == 0);
}

/// The state at rest at the stable equilibrium (both angles and both
/// velocities zero) is a fixed point of `step`: for every positive link
/// length and every timestep, one step leaves the dynamic components
/// exactly unchanged.
pub proof fn lemma_equilibrium_fixed_point(len: int, dt: int)
    requires
        len > 0,
    ensures
        spec_step((0int, 0int, 0int, 0int), len, dt) == (0int, 0int, 0int, 0int),
{
    lemma_sin_zero();
    assert forall|a: int| #[trigger] spec_mul(a, 0) == 0 && #[trigger] spec_mul(0, a) == 0 by {
        lemma_mul_zero(a);
    }
}

/// Determinism of the integrator: identical dynamic state, geometry and
/// timestep give identical successor states, so two pendulums built with the
/// same parameters follow the same trajectory under the same timesteps.
pub proof fn lemma_step_deterministic(
    s1: (int, int, int, int),
    s2: (int, int, int, int),
    len1: int,
    len2: int,
    dt1: int,
    dt2: int,
)
    requires
        s1 == s2,
        len1 == len2,
        dt1 == dt2,
    ensures
        spec_step(s1, len1, dt1) == spec_step(s2, len2, dt2),
{
}

/// The trace push keeps the buffer within capacity, puts the new pair in
/// front, shifts every kept entry by one place (insertion order preserved),
/// and at capacity evicts exactly the oldest entry.
pub proof fn lemma_trace_push_fifo(tr: Seq<(Fx, Fx)>, p: (Fx, Fx))
    requires
        tr.len() <= TRACE_CAP as nat,
    ensures
        spec_push(tr, p).len() <= TRACE_CAP as nat,
        spec_push(tr, p)[0] == p,
        forall|i: int| 0 <= i < tr.len() && i < TRACE_CAP as int - 1 ==> spec_push(tr, p)[i + 1]
            == tr[i],
        tr.len() < TRACE_CAP as nat ==> spec_push(tr, p) == seq![p] + tr,
        tr.len() == TRACE_CAP as nat ==> spec_push(tr, p) == seq![p] + tr.take(
            TRACE_CAP as int - 1,
        ),
{
    if tr.len() == TRACE_CAP as nat {
        assert(spec_push(tr, p) =~= seq![p] + tr.take(TRACE_CAP as int - 1));
    }
}

} // verus!
