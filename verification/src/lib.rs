//! Core logic of a two-player cooperative arena-survival simulation.
//!
//! Two tethered ships defend against an escalating stream of asteroids.
//! This crate holds the decision logic of the simulation loop: the adaptive
//! spawn scheduler, the tether proxy that mirrors the live ship pair every
//! frame, the collision router that turns contact events into damage or
//! score, the shared health/score singletons, and the one-way game-state
//! transition.
//!
//! All quantities are fixed-point integers so that every rule can be stated
//! and proved exactly: positions in nano-units (10^9 per world unit),
//! velocities in milli-units per second, time in microseconds, and scalar
//! fractions (health, sizes) in thousandths. Rendering, audio, input-device
//! polling and the physics constraint solver live outside this crate and
//! exchange plain values with it.

pub mod asteroid;
pub mod geom;
pub mod health;
pub mod router;
pub mod score;
pub mod ship;
pub mod sim;
pub mod spawn;
pub mod state;
pub mod tether;
