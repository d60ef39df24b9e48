//! Core of a small 3D sandbox: deterministic fixed-point math, kinematic
//! integration with axis-aligned collision rollback, a deferred-shading pass
//! model, and a whitespace-delimited scene persistence format.
//!
//! All quantities are carried as signed 64-bit fixed-point numbers counted in
//! thousandths, so every update tick, collision test and save/load round trip
//! is exact and provable.

pub mod camera;
pub mod codec;
pub mod fixed;
pub mod game;
pub mod game_object;
pub mod geometry;
pub mod gui;
pub mod input;
pub mod models;
pub mod physical_object;
pub mod pool;
pub mod render;
pub mod shell;
pub mod texture;
pub mod tokens;
pub mod trig;
pub mod viewer;
pub mod world;
pub mod light;
pub mod matrix;
pub mod vec3;

use vstd::prelude::*;

verus! {

} // verus!
