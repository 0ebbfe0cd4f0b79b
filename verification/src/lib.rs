//! Core simulation of a grid-based snake game: coordinates and directions,
//! the segmented body with follow-the-leader movement and growth, collision
//! and bounds checking, coin placement, a fixed-interval tick scheduler, and
//! the Playing/GameOver session state machine. Rendering and input plumbing
//! live outside this crate; the simulation exchanges only plain values with
//! them.

pub mod grid;
pub mod snake;
pub mod timer;
pub mod rng;
pub mod session;
pub mod text;
