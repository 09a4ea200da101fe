//! A shader build pipeline and uniform upload planner for a GPU raytracer.
//!
//! The library never talks to the graphics driver itself. Every operation is
//! a small resumable job: it hands out the driver calls to make, takes the
//! driver's answers back, and decides what happens next.

pub mod driver;
pub mod error;
pub mod laws;
pub mod protocol;
pub mod raytracing;
pub mod shader;
pub mod values;
