//! A verified model of a small animated solar system: a star-field backdrop
//! behind a sun with eight orbiting bodies, advanced by wall-clock time.
//!
//! The library computes every frame as plain data: exact rational orbit
//! angles, fixed-point pixel geometry, and two memoized draw layers.
//! Turning that data into pixels (trigonometry, gradients, text layout) is
//! left to the renderer.
//!
//! Lengths are carried in thousandths of a pixel, colors in thousandths of
//! a unit channel, orbital periods in ten-thousandths of a simulated day,
//! and timestamps in milliseconds, so that every quantity is an integer.

pub mod clock;
pub mod compose;
pub mod orbit;
pub mod scene;
