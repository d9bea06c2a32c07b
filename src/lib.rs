//! Gameplay primitives for frame-stepped simulations: a wave spawn scheduler,
//! random selectors and drop tables, and a few small counters and grids.

pub mod component;
pub mod droptable;
pub mod grid;
pub mod misc;
pub mod random;
pub mod sfx;
pub mod spawn_wave;
