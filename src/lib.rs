//! The verified core of a 2D gravity toy: pixel geometry and arrows, the
//! bounded position trail, the drawable state of a particle, the render
//! loop's input decisions and the simulation worker's frame plan and
//! removal of absorbed particles.

pub mod control;
pub mod geometry;
pub mod scene;
pub mod sprite;
pub mod trail;
pub mod vector;
