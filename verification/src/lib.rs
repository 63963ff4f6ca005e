//! Verified core of the sonolil camera and movement toolkit.
pub mod flags;
pub mod tracker_traits;
pub mod tracker;
pub mod setup3d;
pub mod camera;
pub mod movement;
pub mod render;
