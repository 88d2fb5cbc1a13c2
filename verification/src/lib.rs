//! Maps positions and sizes on a fixed arena grid to pixel positions and
//! pixel sizes inside a window, in exact arithmetic on whole pixels.
//!
//! The arena is drawn as a centred square inscribed in the window. Positions
//! are laid out inside that square shrunk by the configured padding; sizes
//! are scaled against the unshrunk square.

pub mod config;
pub mod geometry;
pub mod laws;
pub mod mapper;
