//! Control layer for a player-driven ball and its orbiting follow camera.

pub mod camera;
pub mod control;
pub mod direction;
