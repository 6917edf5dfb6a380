//! Core logic of a 2D lunar-lander style game: level geometry, a rasterized
//! collision map with point-in-solid queries, a fixed-tick ship physics
//! integrator, and a trigger-driven narrative state machine.
//!
//! All world quantities are held in signed 16.16 fixed-point units (see
//! `fixed`), so that every rule of the game is exact integer arithmetic.
//! The host that renders, plays audio and polls input lives outside this
//! crate and talks to it through plain values.

pub mod collision;
pub mod fixed;
pub mod game;
pub mod geom;
pub mod level;
pub mod ship;
pub mod trig;
