//! Deterministic planetary elevation synthesis in fixed-point arithmetic.
//!
//! A [`world::World`] is built from a [`config::Config`] and evaluates a
//! layered-noise elevation field point by point. Every scalar (a
//! coordinate, an elevation, a parameter) is an `i64` counting units of
//! 1/65536 (see [`fixed::ONE`]), and every elevation lies in `[-ONE, ONE]`.
//!
//! The field at a point is made in this order:
//!
//! 1. [`noise`] gives seeded value noise and fractal sums of it;
//! 2. [`layers`] shapes five terrain layers and two control fields from it;
//! 3. [`selector`] blends what the layers give at the point;
//! 4. [`river`] carves the blended elevation where the terrain drains.
//!
//! [`field`] states the result as a function of configuration and point
//! and holds the laws of it; [`world`] evaluates it.

pub mod fixed;
pub mod config;
pub mod noise;
pub mod layers;
pub mod selector;
pub mod river;
pub mod field;
pub mod world;
