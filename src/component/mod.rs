//! Components that count down: health and lifetimes.

pub mod health;
pub mod lifetime;
