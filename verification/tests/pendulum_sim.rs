use double_pendulum::fixed::Fx;
use double_pendulum::pendulum::{DoublePendulum, FX_MAX_DT, TRACE_CAP};

const FX_ONE: i64 = 4294967296;
const FX_PI: i64 = 13493037705;
// 0.01 s and 0.001 s in Q31.32
const DT_001: i64 = 4294967;
const DT_01: i64 = 42949673;

fn fx(bits: i64) -> Fx {
    Fx::from_bits(bits)
}

fn make(theta1: i64, theta2: i64) -> DoublePendulum {
    DoublePendulum::new(fx(300 * FX_ONE), fx(300 * FX_ONE), fx(FX_ONE), fx(FX_ONE), fx(theta1), fx(theta2))
}

fn state(p: &DoublePendulum) -> (i64, i64, i64, i64) {
    (p.theta1.bits, p.theta2.bits, p.omega1.bits, p.omega2.bits)
}

fn to_f64(bits: i64) -> f64 {
    bits as f64 / 4294967296.0
}

/// Total mechanical energy for unit mass and length under g = 9.81.
fn energy(p: &DoublePendulum) -> f64 {
    let t1 = to_f64(p.theta1.bits);
    let t2 = to_f64(p.theta2.bits);
    let w1 = to_f64(p.omega1.bits);
    let w2 = to_f64(p.omega2.bits);
    let kinetic = 0.5 * (2.0 * w1 * w1 + w2 * w2 + 2.0 * w1 * w2 * (t1 - t2).cos());
    let potential = -9.81 * (2.0 * t1.cos() + t2.cos());
    kinetic + potential
}

#[test]
fn construction_starts_at_rest_with_empty_trace() {
    let p = make(FX_PI, FX_PI / 2);
    assert_eq!(p.theta1.bits, FX_PI);
    assert_eq!(p.theta2.bits, FX_PI / 2);
    assert_eq!(p.omega1.bits, 0);
    assert_eq!(p.omega2.bits, 0);
    assert_eq!(p.length.bits, FX_ONE);
    assert_eq!(p.mass.bits, FX_ONE);
    assert_eq!(p.origin_x.bits, 300 * FX_ONE);
    assert_eq!(p.origin_y.bits, 300 * FX_ONE);
    assert!(p.trace_iterator().is_empty());
}

#[test]
fn oversized_or_nonpositive_timestep_skips_integration_but_pushes_trace() {
    let mut p = make(2 * FX_ONE, FX_ONE);
    let before = state(&p);

    p.step(fx(0));
    assert_eq!(state(&p), before);
    assert_eq!(p.trace_iterator().len(), 1);

    p.step(fx(-DT_01));
    assert_eq!(state(&p), before);
    assert_eq!(p.trace_iterator().len(), 2);

    // just above the 0.02 s guard
    p.step(fx(FX_MAX_DT + 1));
    assert_eq!(state(&p), before);
    assert_eq!(p.trace_iterator().len(), 3);
    assert_eq!(p.trace_iterator()[0], (fx(2 * FX_ONE), fx(FX_ONE)));

    // at the guard the step is taken
    p.step(fx(FX_MAX_DT));
    assert_ne!(state(&p), before);
}

#[test]
fn equilibrium_state_remains_at_rest() {
    let mut p = make(0, 0);
    for _ in 0..50 {
        p.step(fx(DT_01));
    }
    assert_eq!(state(&p), (0, 0, 0, 0));
}

#[test]
fn energy_drift_stays_small_over_many_steps() {
    // theta1 = 0.3 rad, theta2 = 0.2 rad, dt = 0.001 s, 10000 steps
    let mut p = make(1288490189, 858993459);
    let e0 = energy(&p);
    let mut worst: f64 = 0.0;
    for _ in 0..10000 {
        p.step(fx(DT_001));
        let dev = (energy(&p) - e0).abs();
        if dev > worst {
            worst = dev;
        }
    }
    assert!(worst < 0.01, "energy drifted by {}", worst);
}

#[test]
fn trace_is_bounded_and_evicts_oldest_first() {
    let mut p = make(2 * FX_ONE, FX_ONE);
    let mut pushed: Vec<(i64, i64)> = Vec::new();
    for _ in 0..200 {
        pushed.push((p.theta1.bits, p.theta2.bits));
        p.step(fx(DT_01));
        assert!(p.trace_iterator().len() <= TRACE_CAP);
    }
    let trace = p.trace_iterator();
    assert_eq!(trace.len(), TRACE_CAP);
    // newest first: entry i is the pair pushed on step 199 - i
    for i in 0..TRACE_CAP {
        let (a, b) = trace[i];
        assert_eq!((a.bits, b.bits), pushed[199 - i]);
    }
}

#[test]
fn identical_parameters_give_identical_trajectories() {
    let mut p = make(FX_ONE, FX_ONE / 2);
    let mut q = make(FX_ONE, FX_ONE / 2);
    for _ in 0..100 {
        p.step(fx(DT_01));
        q.step(fx(DT_01));
        assert_eq!(state(&p), state(&q));
    }
    // golden value of the shared trajectory
    assert_eq!(state(&p), (-1110924903, -4316652956, -2321165681, -11607231586));
}

#[test]
fn minute_offset_diverges_after_five_seconds() {
    // theta2 differs by 1e-4 rad; 500 steps of 0.01 s simulate 5 s
    let mut p = make(FX_PI, FX_PI);
    let mut q = make(FX_PI, FX_PI + 429497);
    for _ in 0..500 {
        p.step(fx(DT_01));
        q.step(fx(DT_01));
    }
    let d1 = (p.theta1.bits - q.theta1.bits).abs();
    let d2 = (p.theta2.bits - q.theta2.bits).abs();
    // more than one radian apart: the minute seed has grown by four orders
    // of magnitude
    assert!(d1.max(d2) > FX_ONE, "trajectories stayed close: {} {}", d1, d2);
}

#[test]
fn golden_single_step_from_inverted_rest() {
    // theta1 = theta2 = pi: the fixed-point sine of the pi constant is
    // exactly zero, so the inverted rest state is stationary too.
    let mut p = make(FX_PI, FX_PI);
    p.step(fx(DT_01));
    assert_eq!(state(&p), (FX_PI, FX_PI, 0, 0));
    assert_eq!(p.trace_iterator().len(), 1);
}

#[test]
fn golden_steps_from_two_and_one_radians() {
    let mut p = make(2 * FX_ONE, FX_ONE);
    p.step(fx(DT_01));
    assert_eq!(state(&p), (8588252180, 4294103865, -336515908, -172614706));
    p.step(fx(DT_01));
    p.step(fx(DT_01));
    assert_eq!(state(&p), (8574780877, 4287222216, -1011147772, -514402125));
}

#[test]
fn endpoints_match_the_projection_formulas() {
    let p = make(2 * FX_ONE, FX_ONE);
    let (dx1, dy1, dx2, dy2) = p.endpoints();
    assert_eq!(dx1.bits, 390540270800);
    assert_eq!(dy1.bits, -178733705200);
    assert_eq!(dx2.bits, 751949306800);
    assert_eq!(dy2.bits, 53324368400);
    assert_eq!(p.dx1().bits, dx1.bits);
    assert_eq!(p.dy1().bits, dy1.bits);
    assert_eq!(p.dx2().bits, dx2.bits);
    assert_eq!(p.dy2().bits, dy2.bits);
    // the projections track L * 100 * (sums of sines/cosines) closely
    let t1 = 2.0f64;
    let t2 = 1.0f64;
    assert!((to_f64(dx1.bits) - 100.0 * t1.sin()).abs() < 1e-3);
    assert!((to_f64(dy1.bits) - 100.0 * t1.cos()).abs() < 1e-3);
    assert!((to_f64(dx2.bits) - 100.0 * (t1.sin() + t2.sin())).abs() < 1e-3);
    assert!((to_f64(dy2.bits) - 100.0 * (t1.cos() + t2.cos())).abs() < 1e-3);
}
