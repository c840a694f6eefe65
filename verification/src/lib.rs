//! Verified core of a double-pendulum simulation.
//!
//! The library advances the state of independent double pendulums (two equal
//! links, two equal point masses) under gravity with a fixed-step fourth-order
//! Runge-Kutta integrator, keeps a bounded trace of past angle pairs for
//! drawing a fading trajectory, and projects angular state to Cartesian
//! endpoint offsets.  All arithmetic is saturating fixed-point (Q31.32), so
//! every operation is a total, deterministic function whose exact result is
//! pinned down by the contracts.

pub mod fixed;
pub mod fps;
pub mod pendulum;
